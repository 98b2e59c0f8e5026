//! The HD44780 instruction set: one leading bit per instruction, option bits below it.

use vstd::prelude::*;

verus! {

/// The eight instructions of the controller. The position of the leading one bit of a
/// command byte selects the instruction.
#[derive(Debug, Copy, Clone)]
pub enum CmdOptions {
    Clear,
    Home,
    Entry,
    Dp,
    Shift,
    Fnset,
    SetCg,
    SetDd,
}

impl CmdOptions {
    /// The leading bit of the instruction.
    pub open spec fn spec_bits(self) -> u8 {
        match self {
            CmdOptions::Clear => 0x01,
            CmdOptions::Home => 0x02,
            CmdOptions::Entry => 0x04,
            CmdOptions::Dp => 0x08,
            CmdOptions::Shift => 0x10,
            CmdOptions::Fnset => 0x20,
            CmdOptions::SetCg => 0x40,
            CmdOptions::SetDd => 0x80,
        }
    }

    #[verifier::when_used_as_spec(spec_bits)]
    pub fn bits(self) -> (b: u8)
        ensures
            b == self.spec_bits(),
    {
        match self {
            CmdOptions::Clear => 0x01,
            CmdOptions::Home => 0x02,
            CmdOptions::Entry => 0x04,
            CmdOptions::Dp => 0x08,
            CmdOptions::Shift => 0x10,
            CmdOptions::Fnset => 0x20,
            CmdOptions::SetCg => 0x40,
            CmdOptions::SetDd => 0x80,
        }
    }
}

/// Entry mode: whether the address counter counts down or up after each transfer.
#[derive(Copy, Clone)]
pub enum EntryDir {
    Dec,
    Inc,
}

impl EntryDir {
    pub open spec fn spec_bits(self) -> u8 {
        match self {
            EntryDir::Dec => 0x00,
            EntryDir::Inc => 0x02,
        }
    }

    #[verifier::when_used_as_spec(spec_bits)]
    pub fn bits(self) -> (b: u8)
        ensures
            b == self.spec_bits(),
    {
        match self {
            EntryDir::Dec => 0x00,
            EntryDir::Inc => 0x02,
        }
    }
}

/// Entry mode: whether the display shifts along with each transfer.
#[derive(Copy, Clone)]
pub enum EntryAds {
    Off,
    On,
}

impl EntryAds {
    pub open spec fn spec_bits(self) -> u8 {
        match self {
            EntryAds::Off => 0x00,
            EntryAds::On => 0x01,
        }
    }

    #[verifier::when_used_as_spec(spec_bits)]
    pub fn bits(self) -> (b: u8)
        ensures
            b == self.spec_bits(),
    {
        match self {
            EntryAds::Off => 0x00,
            EntryAds::On => 0x01,
        }
    }
}

/// Display control: the whole display off or on.
#[derive(Copy, Clone)]
pub enum DpState {
    Off,
    On,
}

impl DpState {
    pub open spec fn spec_bits(self) -> u8 {
        match self {
            DpState::Off => 0x00,
            DpState::On => 0x04,
        }
    }

    #[verifier::when_used_as_spec(spec_bits)]
    pub fn bits(self) -> (b: u8)
        ensures
            b == self.spec_bits(),
    {
        match self {
            DpState::Off => 0x00,
            DpState::On => 0x04,
        }
    }
}

/// Display control: the cursor line hidden or shown.
#[derive(Copy, Clone)]
pub enum DpCursor {
    Off,
    On,
}

impl DpCursor {
    pub open spec fn spec_bits(self) -> u8 {
        match self {
            DpCursor::Off => 0x00,
            DpCursor::On => 0x02,
        }
    }

    #[verifier::when_used_as_spec(spec_bits)]
    pub fn bits(self) -> (b: u8)
        ensures
            b == self.spec_bits(),
    {
        match self {
            DpCursor::Off => 0x00,
            DpCursor::On => 0x02,
        }
    }
}

/// Display control: the cell under the cursor steady or blinking.
#[derive(Copy, Clone)]
pub enum DpBlink {
    Off,
    On,
}

impl DpBlink {
    pub open spec fn spec_bits(self) -> u8 {
        match self {
            DpBlink::Off => 0x00,
            DpBlink::On => 0x01,
        }
    }

    #[verifier::when_used_as_spec(spec_bits)]
    pub fn bits(self) -> (b: u8)
        ensures
            b == self.spec_bits(),
    {
        match self {
            DpBlink::Off => 0x00,
            DpBlink::On => 0x01,
        }
    }
}

/// Shift: what moves, the cursor or the whole display.
#[derive(Copy, Clone)]
pub enum ShiftType {
    Cursor,
    Display,
}

impl ShiftType {
    pub open spec fn spec_bits(self) -> u8 {
        match self {
            ShiftType::Cursor => 0x00,
            ShiftType::Display => 0x08,
        }
    }

    #[verifier::when_used_as_spec(spec_bits)]
    pub fn bits(self) -> (b: u8)
        ensures
            b == self.spec_bits(),
    {
        match self {
            ShiftType::Cursor => 0x00,
            ShiftType::Display => 0x08,
        }
    }
}

/// Shift: the direction of the move.
#[derive(Copy, Clone)]
pub enum ShiftDir {
    Left,
    Right,
}

impl ShiftDir {
    pub open spec fn spec_bits(self) -> u8 {
        match self {
            ShiftDir::Left => 0x00,
            ShiftDir::Right => 0x04,
        }
    }

    #[verifier::when_used_as_spec(spec_bits)]
    pub fn bits(self) -> (b: u8)
        ensures
            b == self.spec_bits(),
    {
        match self {
            ShiftDir::Left => 0x00,
            ShiftDir::Right => 0x04,
        }
    }
}

/// Function set: the width of the data bus.
#[derive(Copy, Clone)]
pub enum FnsetDataLen {
    Bit4,
    Bit8,
}

impl FnsetDataLen {
    pub open spec fn spec_bits(self) -> u8 {
        match self {
            FnsetDataLen::Bit4 => 0x00,
            FnsetDataLen::Bit8 => 0x10,
        }
    }

    #[verifier::when_used_as_spec(spec_bits)]
    pub fn bits(self) -> (b: u8)
        ensures
            b == self.spec_bits(),
    {
        match self {
            FnsetDataLen::Bit4 => 0x00,
            FnsetDataLen::Bit8 => 0x10,
        }
    }
}

/// Function set: the number of display lines the controller drives.
#[derive(Debug, Copy, Clone, PartialEq, Eq)]
pub enum FnsetLines {
    One,
    Two,
}

impl FnsetLines {
    pub open spec fn spec_bits(self) -> u8 {
        match self {
            FnsetLines::One => 0x00,
            FnsetLines::Two => 0x08,
        }
    }

    #[verifier::when_used_as_spec(spec_bits)]
    pub fn bits(self) -> (b: u8)
        ensures
            b == self.spec_bits(),
    {
        match self {
            FnsetLines::One => 0x00,
            FnsetLines::Two => 0x08,
        }
    }
}

/// Function set: the character cell, 5x8 or 5x10 dots.
#[derive(Debug, Copy, Clone, PartialEq, Eq)]
pub enum FnsetFont {
    Dots5x8,
    Dots5x10,
}

impl FnsetFont {
    pub open spec fn spec_bits(self) -> u8 {
        match self {
            FnsetFont::Dots5x8 => 0x00,
            FnsetFont::Dots5x10 => 0x04,
        }
    }

    #[verifier::when_used_as_spec(spec_bits)]
    pub fn bits(self) -> (b: u8)
        ensures
            b == self.spec_bits(),
    {
        match self {
            FnsetFont::Dots5x8 => 0x00,
            FnsetFont::Dots5x10 => 0x04,
        }
    }
}

/// The command that wakes the controller during the power-on handshake: function set with
/// an 8-bit bus and nothing else.
pub open spec fn spec_wake_up_command() -> u8 {
    CmdOptions::Fnset.spec_bits() | FnsetDataLen::Bit8.spec_bits()
}

#[verifier::when_used_as_spec(spec_wake_up_command)]
pub fn wake_up_command() -> (cmd: u8)
    ensures
        cmd == spec_wake_up_command(),
{
    CmdOptions::Fnset.bits() | FnsetDataLen::Bit8.bits()
}

/// The command that puts the controller on a 4-bit bus, with the given lines and font.
pub open spec fn spec_function_set_command(lines: FnsetLines, font: FnsetFont) -> u8 {
    CmdOptions::Fnset.spec_bits() | FnsetDataLen::Bit4.spec_bits() | lines.spec_bits()
        | font.spec_bits()
}

#[verifier::when_used_as_spec(spec_function_set_command)]
pub fn function_set_command(lines: FnsetLines, font: FnsetFont) -> (cmd: u8)
    ensures
        cmd == spec_function_set_command(lines, font),
{
    CmdOptions::Fnset.bits() | FnsetDataLen::Bit4.bits() | lines.bits() | font.bits()
}

/// The command that sets the entry mode.
pub open spec fn spec_entry_command(dir: EntryDir, ads: EntryAds) -> u8 {
    CmdOptions::Entry.spec_bits() | dir.spec_bits() | ads.spec_bits()
}

#[verifier::when_used_as_spec(spec_entry_command)]
pub fn entry_command(dir: EntryDir, ads: EntryAds) -> (cmd: u8)
    ensures
        cmd == spec_entry_command(dir, ads),
{
    CmdOptions::Entry.bits() | dir.bits() | ads.bits()
}

/// The command that switches display, cursor and blinking.
pub open spec fn spec_display_command(state: DpState, cursor: DpCursor, blink: DpBlink) -> u8 {
    CmdOptions::Dp.spec_bits() | state.spec_bits() | cursor.spec_bits() | blink.spec_bits()
}

#[verifier::when_used_as_spec(spec_display_command)]
pub fn display_command(state: DpState, cursor: DpCursor, blink: DpBlink) -> (cmd: u8)
    ensures
        cmd == spec_display_command(state, cursor, blink),
{
    CmdOptions::Dp.bits() | state.bits() | cursor.bits() | blink.bits()
}

/// The command that moves the cursor or the display by one cell.
pub open spec fn spec_shift_command(what: ShiftType, dir: ShiftDir) -> u8 {
    CmdOptions::Shift.spec_bits() | what.spec_bits() | dir.spec_bits()
}

#[verifier::when_used_as_spec(spec_shift_command)]
pub fn shift_command(what: ShiftType, dir: ShiftDir) -> (cmd: u8)
    ensures
        cmd == spec_shift_command(what, dir),
{
    CmdOptions::Shift.bits() | what.bits() | dir.bits()
}

/// The command that points the address counter into the display RAM.
pub open spec fn spec_set_ddram_command(address: u8) -> u8 {
    CmdOptions::SetDd.spec_bits() | address
}

#[verifier::when_used_as_spec(spec_set_ddram_command)]
pub fn set_ddram_command(address: u8) -> (cmd: u8)
    ensures
        cmd == spec_set_ddram_command(address),
{
    CmdOptions::SetDd.bits() | address
}

/// The command that points the address counter into the character generator RAM.
pub open spec fn spec_set_cgram_command(address: u8) -> u8 {
    CmdOptions::SetCg.spec_bits() | address
}

#[verifier::when_used_as_spec(spec_set_cgram_command)]
pub fn set_cgram_command(address: u8) -> (cmd: u8)
    ensures
        cmd == spec_set_cgram_command(address),
{
    CmdOptions::SetCg.bits() | address
}

/// The address counter in a status byte: its low seven bits.
pub open spec fn spec_address_counter(status: u8) -> u8 {
    status & 0x7f
}

#[verifier::when_used_as_spec(spec_address_counter)]
pub fn address_counter(status: u8) -> (counter: u8)
    ensures
        counter == spec_address_counter(status),
{
    status & 0x7f
}

/// The busy flag in a status byte: its top bit.
pub open spec fn spec_busy_flag(status: u8) -> bool {
    status & 0x80 != 0
}

#[verifier::when_used_as_spec(spec_busy_flag)]
pub fn busy_flag(status: u8) -> (busy: bool)
    ensures
        busy == spec_busy_flag(status),
{
    status & 0x80 != 0
}

/// A status byte is its busy flag on top of its address counter, and the counter has
/// seven bits.
pub proof fn lemma_status_splits(status: u8)
    ensures
        spec_address_counter(status) < 0x80,
        spec_busy_flag(status) ==> status == 0x80 | spec_address_counter(status),
        !spec_busy_flag(status) ==> status == spec_address_counter(status),
{
    assert(status & 0x7f < 0x80) by (bit_vector);
    assert(status & 0x80 != 0 ==> status == 0x80 | (status & 0x7f)) by (bit_vector);
    assert(!(status & 0x80 != 0) ==> status == status & 0x7f) by (bit_vector);
}

} // verus!
