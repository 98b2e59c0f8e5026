//! Driver for HD44780 character displays behind a PCF8574 I2C port expander, in 4-bit mode.
//!
//! The crate has two layers. `Hd44780` is the display as a program sees it: clear, place
//! the cursor, print, draw a glyph, read back. It talks to the controller through an
//! `InterfaceTrait`, and its contracts say, exchange by exchange, what it asks of that
//! interface. `interface::pcf8574` is the bridge that is in common use: it turns each of
//! those exchanges into the values to write to the port of a PCF8574, nibble by nibble
//! and strobe by strobe, and the samples of the port back into bytes.
//!
//! Nothing in the crate touches a bus. The bridge hands its traffic to a host, step by
//! step, and takes in how each step went. `interface::recorder` is an interface with no
//! display behind it, for trying out code that drives one.

use vstd::prelude::*;
use vstd::string::StringSliceAdditionalSpecFns;
use vstd::utf8::valid_utf8;

pub mod characters;
pub mod instructions;
pub mod interface;
pub mod types;

pub use crate::instructions::{
    CmdOptions, DpBlink, DpCursor, DpState, EntryAds, EntryDir, FnsetDataLen, FnsetFont,
    FnsetLines, ShiftDir, ShiftType,
};
use crate::characters::{CustomFont5x10, CustomFont5x8};
use crate::instructions::{
    address_counter, busy_flag, display_command, entry_command, set_cgram_command,
    set_ddram_command, shift_command, spec_address_counter, spec_busy_flag,
    spec_display_command, spec_entry_command, spec_set_cgram_command, spec_set_ddram_command,
    spec_shift_command,
};
use crate::interface::{cut_short, received, sent, Exchange, InterfaceError, InterfaceTrait};
use crate::types::{DisplayGeometry, DisplayTypeFont5x10, DisplayTypeFont5x8, DisplayTypeTrait};

verus! {

/// The longest text, in bytes, that `print_fmt` can render.
pub const FMT_BUFFER_SIZE: usize = 64;

/// How long the controller may take over a clear or a home command, in microseconds.
pub const SETTLE_DELAY_US: u32 = 1_520;

/// `core::fmt::Error`, the error of rendering a text. It tells nothing but that rendering
/// failed.
#[verifier::external_type_specification]
#[verifier::external_body]
pub struct ExFmtError(core::fmt::Error);

/// `core::str::Utf8Error`, the error of `core::str::from_utf8`.
#[verifier::external_type_specification]
#[verifier::external_body]
pub struct ExUtf8Error(core::str::Utf8Error);

/// `core::fmt::Arguments`, a text yet to be rendered, as `format_args!` makes it.
#[verifier::external_type_specification]
#[verifier::external_body]
pub struct ExArguments<'a>(core::fmt::Arguments<'a>);

/// `core::str::from_utf8` succeeds on exactly the byte sequences that are valid UTF-8, and
/// the string it then returns is made of the bytes it was given.
pub assume_specification[ core::str::from_utf8 ](v: &[u8]) -> (r: Result<
    &str,
    core::str::Utf8Error,
>)
    ensures
        r is Ok <==> valid_utf8(v@),
        r matches Ok(s) ==> s.spec_bytes() == v@,
;

/// Makes a `core::fmt::Error`. Nothing is claimed of it.
#[verifier::external_body]
fn fmt_error() -> core::fmt::Error {
    core::fmt::Error
}

/// What can go wrong between a caller and the display.
#[derive(Debug, Copy, Clone)]
pub enum Hd44780Error {
    /// The interface could not carry a transfer.
    InterfaceError(InterfaceError),
    /// A text did not fit the buffer it was rendered into, or could not be rendered.
    FmtError(core::fmt::Error),
    /// The display has no cell at the row and column asked for.
    RowColOutOfRange,
}

impl From<core::fmt::Error> for Hd44780Error {
    fn from(err: core::fmt::Error) -> (e: Self) {
        Hd44780Error::FmtError(err)
    }
}

impl vstd::std_specs::convert::FromSpecImpl<core::fmt::Error> for Hd44780Error {
    open spec fn obeys_from_spec() -> bool {
        true
    }

    open spec fn from_spec(err: core::fmt::Error) -> Self {
        Hd44780Error::FmtError(err)
    }
}

impl From<&Hd44780Error> for &'static str {
    fn from(err: &Hd44780Error) -> (text: Self) {
        match err {
            Hd44780Error::InterfaceError(_) => "Inteface Error",
            Hd44780Error::FmtError(_) => "Formatting Error",
            Hd44780Error::RowColOutOfRange => "Row or Column out of Range",
        }
    }
}

impl vstd::std_specs::convert::FromSpecImpl<&Hd44780Error> for &'static str {
    open spec fn obeys_from_spec() -> bool {
        true
    }

    open spec fn from_spec(err: &Hd44780Error) -> Self {
        match err {
            Hd44780Error::InterfaceError(_) => "Inteface Error",
            Hd44780Error::FmtError(_) => "Formatting Error",
            Hd44780Error::RowColOutOfRange => "Row or Column out of Range",
        }
    }
}

/// A fixed piece of memory that text is written into, front to back.
pub struct Buffer<'a> {
    buf: &'a mut [u8],
    len: usize,
}

impl<'a> View for Buffer<'a> {
    type V = Seq<u8>;

    /// The bytes written so far.
    closed spec fn view(&self) -> Seq<u8> {
        self.buf@.take(self.len as int)
    }
}

impl<'a> Buffer<'a> {
    #[verifier::type_invariant]
    spec fn wf(self) -> bool {
        &&& self.len <= self.buf@.len()
        &&& valid_utf8(self.buf@.take(self.len as int))
    }

    /// How many bytes the buffer can take in all.
    pub closed spec fn capacity(&self) -> nat {
        self.buf@.len()
    }

    /// An empty buffer over `buf`.
    pub fn new(buf: &'a mut [u8]) -> (buffer: Self)
        ensures
            buffer@ == Seq::<u8>::empty(),
            buffer.capacity() == old(buf)@.len(),
    {
        Buffer { buf, len: 0 }
    }

    /// The text written so far.
    pub fn as_str(&self) -> (text: &str)
        ensures
            text.spec_bytes() == self@,
            self@.len() <= self.capacity(),
    {
        proof {
            use_type_invariant(self);
        }
        match core::str::from_utf8(&self.buf[0..self.len]) {
            Ok(text) => text,
            Err(_) => "",
        }
    }
}

impl<'a> core::fmt::Write for Buffer<'a> {
    /// Appends `s` where all of it fits, and fails and leaves the buffer as it is where it
    /// does not.
    fn write_str(&mut self, s: &str) -> (r: core::fmt::Result)
        ensures
            final(self).capacity() == old(self).capacity(),
            old(self)@.len() + s.spec_bytes().len() <= old(self).capacity() ==> r is Ok
                && final(self)@ == old(self)@ + s.spec_bytes(),
            old(self)@.len() + s.spec_bytes().len() > old(self).capacity() ==> r is Err
                && final(self)@ == old(self)@,
    {
        proof {
            use_type_invariant(&*self);
        }
        let b = s.as_bytes();
        let n = b.len();
        if n > self.buf.len() - self.len {
            return Err(fmt_error());
        }
        let mut i: usize = 0;
        while i < n
            invariant
                n == b@.len(),
                i <= n,
                self.len == old(self).len,
                self.len + n <= self.buf@.len() <= usize::MAX,
                self.buf@.len() == old(self).buf@.len(),
                valid_utf8(old(self).buf@.take(self.len as int)),
                self.buf@.take(self.len as int) == old(self).buf@.take(self.len as int),
                forall|k: int| 0 <= k < i ==> self.buf@[self.len + k] == b@[k],
            decreases n - i,
        {
            assert(self.buf@.update(self.len + i, b@[i as int]).take(self.len as int)
                =~= self.buf@.take(self.len as int));
            self.buf[self.len + i] = b[i];
            i = i + 1;
        }
        proof {
            vstd::utf8::encode_utf8_valid_utf8(s@);
            vstd::utf8::valid_utf8_concat(old(self)@, b@);
            assert(self.buf@.take(self.len + n) =~= old(self)@ + b@);
        }
        self.len = self.len + n;
        Ok(())
    }
}

/// `core::fmt::write` renders `args` into `buffer`. It reaches the buffer through
/// `write_str` and nothing else, so what the buffer held stays in front and its capacity
/// stays what it was. What is added, and whether rendering succeeds, is for the values
/// behind `args` to decide.
#[verifier::external_body]
fn render(buffer: &mut Buffer<'_>, args: core::fmt::Arguments<'_>) -> (r: core::fmt::Result)
    ensures
        final(buffer).capacity() == old(buffer).capacity(),
        old(buffer)@.is_prefix_of(final(buffer)@),
{
    core::fmt::write(buffer, args)
}

/// The command that puts the cursor on a cell, for a display that has the cell.
pub open spec fn spec_position_command(geometry: DisplayGeometry, row: u8, col: u8) -> u8 {
    spec_set_ddram_command(geometry.ddram_address(row, col) as u8)
}

/// Whether the address of the cell at `row` and `col` fits the byte that carries it.
/// `position_command` asks this of every cell of the display that it is called for.
pub fn is_addressable<DPTYPE: DisplayTypeTrait>(dp_type: &DPTYPE, row: u8, col: u8) -> (fits: bool)
    ensures
        fits == dp_type.geometry().addressable(row, col),
{
    let cols: u32 = dp_type.cols() as u32;
    let row: u32 = row as u32;
    let col: u32 = col as u32;
    let address: u32 = match dp_type.lines() {
        FnsetLines::One => {
            assert(cols * row <= 255 * 255) by (nonlinear_arith)
                requires
                    cols <= 255,
                    row <= 255,
            ;
            cols * row + col
        },
        FnsetLines::Two => {
            assert(cols * (row / 2) <= 255 * 127) by (nonlinear_arith)
                requires
                    cols <= 255,
                    row / 2 <= 127,
            ;
            0x40 * (row % 2) + cols * (row / 2) + col
        },
    };
    address <= 0xff
}

/// The command that puts the cursor on the cell at `row` and `col`, or `RowColOutOfRange`
/// where the display has no such cell.
pub fn position_command<DPTYPE: DisplayTypeTrait>(dp_type: &DPTYPE, row: u8, col: u8) -> (r:
    Result<u8, Hd44780Error>)
    requires
        dp_type.geometry().holds(row, col) ==> dp_type.geometry().addressable(row, col),
    ensures
        dp_type.geometry().holds(row, col) ==> r == Ok::<u8, Hd44780Error>(
            spec_position_command(dp_type.geometry(), row, col),
        ),
        !dp_type.geometry().holds(row, col) ==> r matches Err(Hd44780Error::RowColOutOfRange),
{
    if row >= dp_type.rows() || col >= dp_type.cols() {
        return Err(Hd44780Error::RowColOutOfRange);
    }
    let cols = dp_type.cols();
    let dd: u8 = match dp_type.lines() {
        FnsetLines::One => {
            assert(cols * row >= 0) by (nonlinear_arith);
            cols * row + col
        },
        FnsetLines::Two => {
            assert(cols * (row / 2) >= 0) by (nonlinear_arith);
            0x40 * (row % 2) + cols * (row / 2) + col
        },
    };
    Ok(set_ddram_command(dd))
}

/// The command that opens the glyph of a 5x8 display for drawing.
pub open spec fn spec_glyph_command_5x8(charcode: CustomFont5x8) -> u8 {
    spec_set_cgram_command(charcode.spec_code() & 0b0000_0111)
}

#[verifier::when_used_as_spec(spec_glyph_command_5x8)]
pub fn glyph_command_5x8(charcode: CustomFont5x8) -> (cmd: u8)
    ensures
        cmd == spec_glyph_command_5x8(charcode),
{
    set_cgram_command(charcode.code() & 0b0000_0111)
}

/// The command that opens the glyph of a 5x10 display for drawing.
pub open spec fn spec_glyph_command_5x10(charcode: CustomFont5x10) -> u8 {
    spec_set_cgram_command(charcode.spec_code() & 0b0000_0110)
}

#[verifier::when_used_as_spec(spec_glyph_command_5x10)]
pub fn glyph_command_5x10(charcode: CustomFont5x10) -> (cmd: u8)
    ensures
        cmd == spec_glyph_command_5x10(charcode),
{
    set_cgram_command(charcode.code() & 0b0000_0110)
}

/// The exchanges of a command: the byte to the instruction register.
pub open spec fn command(cmd: u8) -> Seq<Exchange> {
    seq![Exchange::Send { rs: false, byte: cmd, ok: true }]
}

/// The exchanges of a command that the controller takes long over: the byte, then a pause.
pub open spec fn slow_command(cmd: u8) -> Seq<Exchange> {
    seq![Exchange::Send { rs: false, byte: cmd, ok: true }, Exchange::Delay { us: SETTLE_DELAY_US }]
}

/// The exchanges that bring a display up: the handshake, display on with no cursor, clear.
pub open spec fn start_up(geometry: DisplayGeometry) -> Seq<Exchange> {
    seq![
        Exchange::Init { lines: geometry.lines, font: geometry.font, ok: true },
        Exchange::Send {
            rs: false,
            byte: spec_display_command(DpState::On, DpCursor::Off, DpBlink::Off),
            ok: true,
        },
        Exchange::Send { rs: false, byte: CmdOptions::Clear.spec_bits(), ok: true },
        Exchange::Delay { us: SETTLE_DELAY_US },
    ]
}

/// The exchanges that draw a glyph: the command that opens it, then its rows as data.
pub open spec fn glyph(cmd: u8, charmap: Seq<u8>) -> Seq<Exchange> {
    command(cmd) + sent(true, charmap)
}

/// The exchange that reads the status byte and brings `got`, or nothing where it fails.
pub open spec fn status_read(got: Option<u8>) -> Seq<Exchange> {
    seq![Exchange::Receive { rs: false, got }]
}

/// The error that stands for a failed exchange.
pub open spec fn bus_failure() -> Hd44780Error {
    Hd44780Error::InterfaceError(InterfaceError::Pcf8574I2cError)
}

/// A character display, reached through an interface.
pub struct Hd44780<INTERFACE, DPTYPE> where
    INTERFACE: InterfaceTrait,
    DPTYPE: DisplayTypeTrait,
 {
    interface: INTERFACE,
    dp_type: DPTYPE,
}

impl<INTERFACE, DPTYPE> Hd44780<INTERFACE, DPTYPE> where
    INTERFACE: InterfaceTrait,
    DPTYPE: DisplayTypeTrait,
 {
    /// What the display has asked of its interface so far, and how each call went.
    pub closed spec fn trace(&self) -> Seq<Exchange> {
        self.interface.trace()
    }

    /// The size and mode of the display.
    pub closed spec fn geometry(&self) -> DisplayGeometry {
        self.dp_type.geometry()
    }

    /// Whether this is the display `before` after just these further exchanges.
    pub open spec fn follows(&self, before: &Self, exchanges: Seq<Exchange>) -> bool {
        &&& self.geometry() == before.geometry()
        &&& self.trace() == before.trace() + exchanges
    }

    /// Whether this is the display `before` after a run of exchanges that was meant to go
    /// as `script` says and failed at one of them.
    pub open spec fn follows_in_part(&self, before: &Self, script: Seq<Exchange>) -> bool {
        exists|k: int|
            0 <= k < script.len() && script[k].fallible() && self.follows(
                before,
                #[trigger] cut_short(script, k),
            )
    }

    pub fn new(interface: INTERFACE, dp_type: DPTYPE) -> (lcd: Self)
        ensures
            lcd.trace() == interface.trace(),
            lcd.geometry() == dp_type.geometry(),
    {
        Hd44780 { interface, dp_type }
    }

    /// The interface behind the display.
    pub fn interface(&self) -> (interface: &INTERFACE)
        ensures
            interface.trace() == self.trace(),
    {
        &self.interface
    }

    /// Brings the display up: the power-on handshake for its lines and font, then display
    /// on without cursor or blinking, then clear. Stops at the first exchange that fails.
    pub fn init(&mut self) -> (r: Result<&mut Self, Hd44780Error>)
        ensures
            (match r {
                Ok(lcd) => *final(lcd) == *final(self) && lcd.follows(
                    old(self),
                    start_up(old(self).geometry()),
                ),
                Err(e) => e == bus_failure() && final(self).follows_in_part(
                    old(self),
                    start_up(old(self).geometry()),
                ),
            }),
    {
        let ghost script = start_up(self.geometry());
        let lines = self.dp_type.lines();
        let font = self.dp_type.font();
        match self.interface.init(lines, font) {
            Ok(()) => {},
            Err(e) => {
                assert(self.trace() =~= old(self).trace() + cut_short(script, 0));
                return Err(Hd44780Error::InterfaceError(e));
            },
        }
        match self.interface.send_byte::<false>(
            display_command(DpState::On, DpCursor::Off, DpBlink::Off),
        ) {
            Ok(()) => {},
            Err(e) => {
                assert(self.trace() =~= old(self).trace() + cut_short(script, 1));
                return Err(Hd44780Error::InterfaceError(e));
            },
        }
        match self.interface.send_byte::<false>(CmdOptions::Clear.bits()) {
            Ok(()) => {},
            Err(e) => {
                assert(self.trace() =~= old(self).trace() + cut_short(script, 2));
                return Err(Hd44780Error::InterfaceError(e));
            },
        }
        self.interface.delay_us(SETTLE_DELAY_US);
        assert(self.trace() =~= old(self).trace() + script);
        Ok(self)
    }

    /// Sends one command and, where it went through, waits `settle` microseconds.
    fn run_command(&mut self, cmd: u8, settle: Option<u32>) -> (r: Result<(), Hd44780Error>)
        ensures
            final(self).geometry() == old(self).geometry(),
            r is Ok ==> final(self).trace() == old(self).trace() + (match settle {
                Some(us) => command(cmd).push(Exchange::Delay { us }),
                None => command(cmd),
            }),
            r is Err ==> r == Err::<(), Hd44780Error>(bus_failure()) && final(self).trace()
                == old(self).trace() + cut_short(command(cmd), 0),
    {
        match self.interface.send_byte::<false>(cmd) {
            Ok(()) => {},
            Err(e) => {
                return Err(Hd44780Error::InterfaceError(e));
            },
        }
        if let Some(us) = settle {
            self.interface.delay_us(us);
        }
        Ok(())
    }

    /// Clears the display and gives the controller time to do so.
    pub fn clear(&mut self) -> (r: Result<&mut Self, Hd44780Error>)
        ensures
            (match r {
                Ok(lcd) => *final(lcd) == *final(self) && lcd.follows(
                    old(self),
                    slow_command(CmdOptions::Clear.spec_bits()),
                ),
                Err(e) => e == bus_failure() && final(self).follows_in_part(
                    old(self),
                    slow_command(CmdOptions::Clear.spec_bits()),
                ),
            }),
    {
        let ghost script = slow_command(CmdOptions::Clear.spec_bits());
        match self.run_command(CmdOptions::Clear.bits(), Some(SETTLE_DELAY_US)) {
            Ok(()) => {
                assert(self.trace() =~= old(self).trace() + script);
                Ok(self)
            },
            Err(e) => {
                assert(self.trace() =~= old(self).trace() + cut_short(script, 0));
                Err(e)
            },
        }
    }

    /// Takes cursor and display back to the first cell and gives the controller time to
    /// do so.
    pub fn home(&mut self) -> (r: Result<&mut Self, Hd44780Error>)
        ensures
            (match r {
                Ok(lcd) => *final(lcd) == *final(self) && lcd.follows(
                    old(self),
                    slow_command(CmdOptions::Home.spec_bits()),
                ),
                Err(e) => e == bus_failure() && final(self).follows_in_part(
                    old(self),
                    slow_command(CmdOptions::Home.spec_bits()),
                ),
            }),
    {
        let ghost script = slow_command(CmdOptions::Home.spec_bits());
        match self.run_command(CmdOptions::Home.bits(), Some(SETTLE_DELAY_US)) {
            Ok(()) => {
                assert(self.trace() =~= old(self).trace() + script);
                Ok(self)
            },
            Err(e) => {
                assert(self.trace() =~= old(self).trace() + cut_short(script, 0));
                Err(e)
            },
        }
    }

    /// Sets which way the cursor moves after a character and whether the display moves
    /// with it.
    pub fn entry(&mut self, dir: EntryDir, ads: EntryAds) -> (r: Result<&mut Self, Hd44780Error>)
        ensures
            (match r {
                Ok(lcd) => *final(lcd) == *final(self) && lcd.follows(
                    old(self),
                    command(spec_entry_command(dir, ads)),
                ),
                Err(e) => e == bus_failure() && final(self).follows_in_part(
                    old(self),
                    command(spec_entry_command(dir, ads)),
                ),
            }),
    {
        match self.run_command(entry_command(dir, ads), None) {
            Ok(()) => Ok(self),
            Err(e) => Err(e),
        }
    }

    /// Switches the display, the cursor and its blinking on or off.
    pub fn display(&mut self, state: DpState, cursor: DpCursor, blink: DpBlink) -> (r: Result<
        &mut Self,
        Hd44780Error,
    >)
        ensures
            (match r {
                Ok(lcd) => *final(lcd) == *final(self) && lcd.follows(
                    old(self),
                    command(spec_display_command(state, cursor, blink)),
                ),
                Err(e) => e == bus_failure() && final(self).follows_in_part(
                    old(self),
                    command(spec_display_command(state, cursor, blink)),
                ),
            }),
    {
        match self.run_command(display_command(state, cursor, blink), None) {
            Ok(()) => Ok(self),
            Err(e) => Err(e),
        }
    }

    /// Moves the cursor or the whole display by one cell.
    pub fn shift(&mut self, dp_type: ShiftType, dir: ShiftDir) -> (r: Result<
        &mut Self,
        Hd44780Error,
    >)
        ensures
            (match r {
                Ok(lcd) => *final(lcd) == *final(self) && lcd.follows(
                    old(self),
                    command(spec_shift_command(dp_type, dir)),
                ),
                Err(e) => e == bus_failure() && final(self).follows_in_part(
                    old(self),
                    command(spec_shift_command(dp_type, dir)),
                ),
            }),
    {
        match self.run_command(shift_command(dp_type, dir), None) {
            Ok(()) => Ok(self),
            Err(e) => Err(e),
        }
    }

    /// Whether the address of the cell at `row` and `col` fits the byte that carries it.
    /// `position` asks this of every cell of the display that it is called for.
    pub fn is_addressable(&self, row: u8, col: u8) -> (fits: bool)
        ensures
            fits == self.geometry().addressable(row, col),
    {
        is_addressable(&self.dp_type, row, col)
    }

    /// Puts the cursor on the cell at `row` and `col`. Where the display has no such cell
    /// nothing is asked of the interface.
    pub fn position(&mut self, row: u8, col: u8) -> (r: Result<&mut Self, Hd44780Error>)
        requires
            old(self).geometry().holds(row, col) ==> old(self).geometry().addressable(row, col),
        ensures
            !old(self).geometry().holds(row, col) ==> (r matches Err(
                Hd44780Error::RowColOutOfRange,
            )) && *final(self) == *old(self),
            old(self).geometry().holds(row, col) ==> (match r {
                Ok(lcd) => *final(lcd) == *final(self) && lcd.follows(
                    old(self),
                    command(spec_position_command(old(self).geometry(), row, col)),
                ),
                Err(e) => e == bus_failure() && final(self).follows_in_part(
                    old(self),
                    command(spec_position_command(old(self).geometry(), row, col)),
                ),
            }),
    {
        let cmd = match position_command(&self.dp_type, row, col) {
            Ok(cmd) => cmd,
            Err(e) => {
                return Err(e);
            },
        };
        match self.run_command(cmd, None) {
            Ok(()) => Ok(self),
            Err(e) => Err(e),
        }
    }

    /// Writes the bytes of `string` to the display, one character code each.
    pub fn print_string(&mut self, string: &str) -> (r: Result<&mut Self, Hd44780Error>)
        ensures
            (match r {
                Ok(lcd) => *final(lcd) == *final(self) && lcd.follows(
                    old(self),
                    sent(true, string.spec_bytes()),
                ),
                Err(e) => e == bus_failure() && final(self).follows_in_part(
                    old(self),
                    sent(true, string.spec_bytes()),
                ),
            }),
    {
        match self.interface.send_bytes::<true>(string.as_bytes()) {
            Ok(()) => Ok(self),
            Err(e) => Err(Hd44780Error::InterfaceError(e)),
        }
    }

    /// Renders `args` and writes the text to the display. A text of more than
    /// `FMT_BUFFER_SIZE` bytes, or one that fails to render, is an error, and nothing is
    /// then asked of the interface.
    pub fn print_fmt(&mut self, args: core::fmt::Arguments<'_>) -> (r: Result<
        &mut Self,
        Hd44780Error,
    >)
        ensures
            (match r {
                Ok(lcd) => *final(lcd) == *final(self) && exists|text: Seq<u8>|
                    text.len() <= FMT_BUFFER_SIZE && lcd.follows(
                        old(self),
                        #[trigger] sent(true, text),
                    ),
                Err(Hd44780Error::FmtError(_)) => *final(self) == *old(self),
                Err(e) => e == bus_failure() && exists|text: Seq<u8>|
                    text.len() <= FMT_BUFFER_SIZE && final(self).follows_in_part(
                        old(self),
                        #[trigger] sent(true, text),
                    ),
            }),
    {
        let mut data: [u8; FMT_BUFFER_SIZE] = [0; FMT_BUFFER_SIZE];
        let mut buf = Buffer::new(&mut data);
        let rendered = render(&mut buf, args);
        self.print_buffer(rendered, &buf)
    }

    /// Writes a rendered text to the display: the text in `buffer` where rendering went
    /// through, nothing where it failed.
    pub fn print_buffer(&mut self, rendered: core::fmt::Result, buffer: &Buffer<'_>) -> (r: Result<
        &mut Self,
        Hd44780Error,
    >)
        ensures
            buffer@.len() <= buffer.capacity(),
            rendered is Err ==> (r matches Err(Hd44780Error::FmtError(e)) && Err::<
                (),
                core::fmt::Error,
            >(e) == rendered) && *final(self) == *old(self),
            rendered is Ok ==> (match r {
                Ok(lcd) => *final(lcd) == *final(self) && lcd.follows(
                    old(self),
                    sent(true, buffer@),
                ),
                Err(e) => e == bus_failure() && final(self).follows_in_part(
                    old(self),
                    sent(true, buffer@),
                ),
            }),
    {
        proof {
            use_type_invariant(buffer);
        }
        match rendered {
            Err(e) => Err(Hd44780Error::FmtError(e)),
            Ok(()) => self.print_string(buffer.as_str()),
        }
    }

    /// Switches the backlight.
    pub fn backlight(&mut self, bl: bool) -> (r: Result<&mut Self, Hd44780Error>)
        ensures
            (match r {
                Ok(lcd) => *final(lcd) == *final(self) && lcd.follows(
                    old(self),
                    seq![Exchange::Backlight { on: bl, ok: true }],
                ),
                Err(e) => e == bus_failure() && final(self).follows_in_part(
                    old(self),
                    seq![Exchange::Backlight { on: bl, ok: true }],
                ),
            }),
    {
        let ghost script = seq![Exchange::Backlight { on: bl, ok: true }];
        match self.interface.backlight(bl) {
            Ok(()) => {
                assert(self.trace() =~= old(self).trace() + script);
                Ok(self)
            },
            Err(e) => {
                assert(self.trace() =~= old(self).trace() + cut_short(script, 0));
                Err(Hd44780Error::InterfaceError(e))
            },
        }
    }

    /// Fills `buffer` from the display's memory, from the address counter on, and stops
    /// at the first byte that fails. What lies behind that byte is left as it was.
    pub fn read_data(&mut self, buffer: &mut [u8]) -> (r: Result<&mut Self, Hd44780Error>)
        ensures
            final(buffer)@.len() == old(buffer)@.len(),
            (match r {
                Ok(lcd) => *final(lcd) == *final(self) && lcd.follows(
                    old(self),
                    received(true, final(buffer)@),
                ),
                Err(e) => e == bus_failure() && exists|k: int|
                    0 <= k < final(buffer)@.len() && final(self).follows(
                        old(self),
                        #[trigger] cut_short(received(true, final(buffer)@), k),
                    ) && final(buffer)@.skip(k + 1) == old(buffer)@.skip(k + 1),
            }),
    {
        match self.interface.receive_bytes::<true>(buffer) {
            Ok(()) => Ok(self),
            Err(e) => Err(Hd44780Error::InterfaceError(e)),
        }
    }

    /// Reads the status byte.
    fn read_status(&mut self) -> (r: Result<u8, Hd44780Error>)
        ensures
            final(self).follows(
                old(self),
                status_read(
                    match r {
                        Ok(status) => Some(status),
                        Err(_) => None,
                    },
                ),
            ),
            r is Err ==> r == Err::<u8, Hd44780Error>(bus_failure()),
    {
        let mut status: u8 = 0;
        match self.interface.receive_byte::<false>(&mut status) {
            Ok(()) => {
                assert(self.trace() =~= old(self).trace() + status_read(Some(status)));
                Ok(status)
            },
            Err(e) => {
                assert(self.trace() =~= old(self).trace() + status_read(None));
                Err(Hd44780Error::InterfaceError(e))
            },
        }
    }

    /// Reads the address counter: the low seven bits of the status byte.
    pub fn read_address_counter(&mut self) -> (r: Result<u8, Hd44780Error>)
        ensures
            exists|got: Option<u8>|
                final(self).follows(old(self), #[trigger] status_read(got)) && r == (match got {
                    Some(status) => Ok::<u8, Hd44780Error>(spec_address_counter(status)),
                    None => Err::<u8, Hd44780Error>(bus_failure()),
                }),
    {
        match self.read_status() {
            Ok(status) => Ok(address_counter(status)),
            Err(e) => Err(e),
        }
    }

    /// Reads whether the controller is at work: the top bit of the status byte.
    pub fn is_busy(&mut self) -> (r: Result<bool, Hd44780Error>)
        ensures
            exists|got: Option<u8>|
                final(self).follows(old(self), #[trigger] status_read(got)) && r == (match got {
                    Some(status) => Ok::<bool, Hd44780Error>(spec_busy_flag(status)),
                    None => Err::<bool, Hd44780Error>(bus_failure()),
                }),
    {
        match self.read_status() {
            Ok(status) => Ok(busy_flag(status)),
            Err(e) => Err(e),
        }
    }

    /// Opens a glyph with `cmd` and writes its rows.
    fn draw_glyph(&mut self, cmd: u8, charmap: &[u8]) -> (r: Result<(), Hd44780Error>)
        ensures
            r is Ok ==> final(self).follows(old(self), glyph(cmd, charmap@)),
            r is Err ==> r == Err::<(), Hd44780Error>(bus_failure())
                && final(self).follows_in_part(old(self), glyph(cmd, charmap@)),
    {
        let ghost script = glyph(cmd, charmap@);
        match self.interface.send_byte::<false>(cmd) {
            Ok(()) => {},
            Err(e) => {
                assert(self.trace() =~= old(self).trace() + cut_short(script, 0));
                return Err(Hd44780Error::InterfaceError(e));
            },
        }
        let ghost opened = self.trace();
        match self.interface.send_bytes::<true>(charmap) {
            Ok(()) => {
                assert(self.trace() =~= old(self).trace() + script);
                Ok(())
            },
            Err(e) => {
                let ghost k = choose|k: int|
                    0 <= k < charmap@.len() && self.trace() == opened + #[trigger] cut_short(
                        sent(true, charmap@),
                        k,
                    );
                assert(self.trace() =~= old(self).trace() + cut_short(script, k + 1));
                Err(Hd44780Error::InterfaceError(e))
            },
        }
    }
}

impl<INTERFACE> Hd44780<INTERFACE, DisplayTypeFont5x8> where INTERFACE: InterfaceTrait {
    /// Draws one of the eight glyphs of a 5x8 display: eight rows, five dots each.
    pub fn create_char(&mut self, charcode: CustomFont5x8, charmap: [u8; 8]) -> (r: Result<
        &mut Self,
        Hd44780Error,
    >)
        ensures
            (match r {
                Ok(lcd) => *final(lcd) == *final(self) && lcd.follows(
                    old(self),
                    glyph(spec_glyph_command_5x8(charcode), charmap@),
                ),
                Err(e) => e == bus_failure() && final(self).follows_in_part(
                    old(self),
                    glyph(spec_glyph_command_5x8(charcode), charmap@),
                ),
            }),
    {
        match self.draw_glyph(glyph_command_5x8(charcode), &charmap) {
            Ok(()) => Ok(self),
            Err(e) => Err(e),
        }
    }
}

impl<INTERFACE> Hd44780<INTERFACE, DisplayTypeFont5x10> where INTERFACE: InterfaceTrait {
    /// Draws one of the four glyphs of a 5x10 display: ten rows, five dots each.
    pub fn create_char(&mut self, charcode: CustomFont5x10, charmap: [u8; 10]) -> (r: Result<
        &mut Self,
        Hd44780Error,
    >)
        ensures
            (match r {
                Ok(lcd) => *final(lcd) == *final(self) && lcd.follows(
                    old(self),
                    glyph(spec_glyph_command_5x10(charcode), charmap@),
                ),
                Err(e) => e == bus_failure() && final(self).follows_in_part(
                    old(self),
                    glyph(spec_glyph_command_5x10(charcode), charmap@),
                ),
            }),
    {
        match self.draw_glyph(glyph_command_5x10(charcode), &charmap) {
            Ok(()) => Ok(self),
            Err(e) => Err(e),
        }
    }
}

} // verus!
