//! The PCF8574 bridge: eight port bits wired to RS, RNW, EN, backlight and D4..D7.
//!
//! `wiring` says how a byte lies on the port, the encoders here compute it, and
//! `Pcf8574Interface` makes of it the traffic of each operation of the display. The
//! traffic itself is the host's: it is handed out as the steps of a `Transfer` and as
//! the operations of a transaction.

use vstd::prelude::*;
use crate::instructions::{
    function_set_command, spec_function_set_command, spec_wake_up_command, wake_up_command,
    FnsetFont, FnsetLines,
};
use crate::interface::InterfaceError;

pub mod transfer;
pub mod wiring;

pub use crate::interface::pcf8574::transfer::{
    operations_view, steps_view, BusOperation, BusStep, Operation, Pending, Progress, Step,
    Transfer, TransferView,
};
pub use crate::interface::pcf8574::wiring::{
    bus_frame, control_lines, data_lines, line, port_byte, sampled_byte, sampled_nibble,
    single_bit, PinMap,
};
use crate::interface::pcf8574::wiring::{
    lemma_control_levels, lemma_enable_low, lemma_nibble_bits, lemma_nibble_survives,
    lemma_upper_half_carries_nibble, lemma_upper_half_samples,
};

verus! {

/// Turns a byte for the display into port values, and port samples back into a byte.
pub trait Pcf8574EncoderTrait {
    /// The wiring that this encoder stands for.
    spec fn pin_map(&self) -> PinMap;

    /// The four port values that carry `data` to the display.
    fn encode<const RS_VAL: bool, const RNW_VAL: bool>(&self, bl: bool, data: u8) -> (frame: [
        u8;
        4
    ])
        ensures
            frame@ == bus_frame(self.pin_map(), RS_VAL, RNW_VAL, bl, data),
    ;

    /// The byte that two samples of the port carry: its high nibble in the first, its low
    /// nibble in the second.
    fn decode_data(&self, data: [u8; 2]) -> (byte: u8)
        ensures
            byte == sampled_byte(self.pin_map(), data[0], data[1]),
    ;
}

fn level(on: bool, mask: u8) -> (bits: u8)
    ensures
        bits == line(on, mask),
{
    if on {
        mask
    } else {
        0
    }
}

/// An encoder for any wiring: each of the eight lines on the port bit that its mask names.
pub struct Pcf8574Encoder<
    const RS: u8,
    const RNW: u8,
    const EN: u8,
    const BL: u8,
    const D4: u8,
    const D5: u8,
    const D6: u8,
    const D7: u8,
>;

impl<
    const RS: u8,
    const RNW: u8,
    const EN: u8,
    const BL: u8,
    const D4: u8,
    const D5: u8,
    const D6: u8,
    const D7: u8,
> Pcf8574Encoder<RS, RNW, EN, BL, D4, D5, D6, D7> {
    pub fn new() -> (enc: Self)
        ensures
            enc.pin_map() == (PinMap {
                rs: RS,
                rnw: RNW,
                en: EN,
                bl: BL,
                d4: D4,
                d5: D5,
                d6: D6,
                d7: D7,
            }),
    {
        Pcf8574Encoder {  }
    }
}

impl<
    const RS: u8,
    const RNW: u8,
    const EN: u8,
    const BL: u8,
    const D4: u8,
    const D5: u8,
    const D6: u8,
    const D7: u8,
> Pcf8574EncoderTrait for Pcf8574Encoder<RS, RNW, EN, BL, D4, D5, D6, D7> {
    open spec fn pin_map(&self) -> PinMap {
        PinMap { rs: RS, rnw: RNW, en: EN, bl: BL, d4: D4, d5: D5, d6: D6, d7: D7 }
    }

    fn encode<const RS_VAL: bool, const RNW_VAL: bool>(&self, bl: bool, data: u8) -> (frame: [
        u8;
        4
    ]) {
        let control: u8 = level(RS_VAL, RS) | level(RNW_VAL, RNW) | level(bl, BL);
        let high: u8 = level(data & 0x10 != 0, D4) | level(data & 0x20 != 0, D5) | level(
            data & 0x40 != 0,
            D6,
        ) | level(data & 0x80 != 0, D7);
        let low: u8 = level(data & 0x01 != 0, D4) | level(data & 0x02 != 0, D5) | level(
            data & 0x04 != 0,
            D6,
        ) | level(data & 0x08 != 0, D7);
        proof {
            lemma_nibble_bits(data);
            lemma_enable_low(control, high);
            lemma_enable_low(control, low);
        }
        [EN | control | high, control | high, EN | control | low, control | low]
    }

    fn decode_data(&self, data: [u8; 2]) -> (byte: u8) {
        let high: u8 = level(data[0] & D4 != 0, 0x01) | level(data[0] & D5 != 0, 0x02) | level(
            data[0] & D6 != 0,
            0x04,
        ) | level(data[0] & D7 != 0, 0x08);
        let low: u8 = level(data[1] & D4 != 0, 0x01) | level(data[1] & D5 != 0, 0x02) | level(
            data[1] & D6 != 0,
            0x04,
        ) | level(data[1] & D7 != 0, 0x08);
        (high << 4) | low
    }
}

/// An encoder for the usual wiring, where D4..D7 sit on port bits 4 to 7 and the four
/// control lines share the low half of the port. A nibble then goes out by masking and
/// shifting, with no work per bit.
pub struct Pcf8574EncoderDefault<const RS: u8, const RNW: u8, const EN: u8, const BL: u8>;

impl<const RS: u8, const RNW: u8, const EN: u8, const BL: u8> Pcf8574EncoderDefault<
    RS,
    RNW,
    EN,
    BL,
> {
    pub fn new() -> (enc: Self)
        ensures
            enc.pin_map() == (PinMap {
                rs: RS,
                rnw: RNW,
                en: EN,
                bl: BL,
                d4: 0x10,
                d5: 0x20,
                d6: 0x40,
                d7: 0x80,
            }),
    {
        Pcf8574EncoderDefault {  }
    }
}

impl<
    const RS: u8,
    const RNW: u8,
    const EN: u8,
    const BL: u8,
> Pcf8574EncoderTrait for Pcf8574EncoderDefault<RS, RNW, EN, BL> {
    open spec fn pin_map(&self) -> PinMap {
        PinMap { rs: RS, rnw: RNW, en: EN, bl: BL, d4: 0x10, d5: 0x20, d6: 0x40, d7: 0x80 }
    }

    fn encode<const RS_VAL: bool, const RNW_VAL: bool>(&self, bl: bool, data: u8) -> (frame: [
        u8;
        4
    ]) {
        let control: u8 = level(RS_VAL, RS) | level(RNW_VAL, RNW) | level(bl, BL);
        let high: u8 = data & 0xf0;
        let low: u8 = (data & 0x0f) << 4;
        proof {
            lemma_upper_half_carries_nibble(data);
            lemma_enable_low(control, high);
            lemma_enable_low(control, low);
        }
        [EN | control | high, control | high, EN | control | low, control | low]
    }

    fn decode_data(&self, data: [u8; 2]) -> (byte: u8) {
        proof {
            lemma_upper_half_samples(data[0], data[1]);
        }
        (data[0] & 0xf0) | ((data[1] & 0xf0) >> 4)
    }
}

/// The pause after the first wake-up write of the handshake, in microseconds.
pub const FIRST_WAKE_UP_DELAY_US: u32 = 4_100;

/// The pause after the second wake-up write of the handshake, in microseconds.
pub const SECOND_WAKE_UP_DELAY_US: u32 = 100;

/// The power-on handshake. Three times the high nibble of the wake-up command, with the
/// two pauses that the controller asks for, bring it onto an 8-bit bus whatever state it
/// was in. The high nibble of the function set command then takes it to a 4-bit bus, and
/// the whole command, now as two nibbles, sets the lines and the font.
pub open spec fn init_script(p: PinMap, bl: bool, lines: FnsetLines, font: FnsetFont) -> Seq<
    Step,
> {
    let wake_up = bus_frame(p, false, false, bl, spec_wake_up_command());
    let function_set = bus_frame(p, false, false, bl, spec_function_set_command(lines, font));
    seq![
        Step::Write(wake_up.take(2)),
        Step::DelayUs(FIRST_WAKE_UP_DELAY_US),
        Step::Write(wake_up.take(2)),
        Step::DelayUs(SECOND_WAKE_UP_DELAY_US),
        Step::Write(wake_up.take(2)),
        Step::Write(function_set.take(2)),
        Step::Write(function_set),
    ]
}

/// One write for each byte, each a whole frame with RNW low.
pub open spec fn send_script(p: PinMap, rs: bool, bl: bool, bytes: Seq<u8>) -> Seq<Step> {
    Seq::new(bytes.len(), |i: int| Step::Write(bus_frame(p, rs, false, bl, bytes[i])))
}

/// One write of one port value: every line low but the backlight.
pub open spec fn backlight_script(p: PinMap, bl: bool) -> Seq<Step> {
    seq![Step::Write(seq![bus_frame(p, false, false, bl, 0x00)[1]])]
}

/// The transaction that reads one byte. It is cut from the frame of 0x0f with RNW high:
/// with EN high and D4..D7 released the port is sampled for the high nibble; EN goes low
/// and high again and the port is sampled for the low nibble; EN goes low.
pub open spec fn read_transaction(p: PinMap, rs: bool, bl: bool) -> Seq<Operation> {
    let frame = bus_frame(p, rs, true, bl, 0x0f);
    seq![
        Operation::Write(frame.subrange(2, 3)),
        Operation::Read,
        Operation::Write(frame.subrange(1, 3)),
        Operation::Read,
        Operation::Write(frame.subrange(1, 2)),
    ]
}

/// The protocol of an HD44780 behind a PCF8574, without the bus: it says what is to go
/// over the bus and makes sense of what came back, and leaves the traffic to its host.
pub struct Pcf8574Interface<ENC: Pcf8574EncoderTrait> {
    address: u8,
    enc: ENC,
    bl: bool,
}

impl<ENC: Pcf8574EncoderTrait> Pcf8574Interface<ENC> {
    /// The wiring between expander and display.
    pub closed spec fn pin_map(&self) -> PinMap {
        self.enc.pin_map()
    }

    /// Whether the backlight is on; every port value written carries it.
    pub closed spec fn backlit(&self) -> bool {
        self.bl
    }

    /// The I2C address of the expander.
    pub closed spec fn spec_address(&self) -> u8 {
        self.address
    }

    /// A driver for the expander at `address`, with the backlight on.
    pub fn new(address: u8, enc: ENC) -> (interface: Self)
        ensures
            interface.spec_address() == address,
            interface.pin_map() == enc.pin_map(),
            interface.backlit(),
    {
        Pcf8574Interface { address, enc, bl: true }
    }

    #[verifier::when_used_as_spec(spec_address)]
    pub fn address(&self) -> (address: u8)
        ensures
            address == self.spec_address(),
    {
        self.address
    }

    /// The power-on handshake for a display with these lines and this font.
    pub fn init(&self, fnset_lines: FnsetLines, fnset_font: FnsetFont) -> (transfer: Transfer)
        ensures
            transfer@ == TransferView::fresh(
                init_script(self.pin_map(), self.backlit(), fnset_lines, fnset_font),
            ),
    {
        let wake_up = self.enc.encode::<false, false>(self.bl, wake_up_command());
        let function_set = self.enc.encode::<false, false>(
            self.bl,
            function_set_command(fnset_lines, fnset_font),
        );
        let mut steps: Vec<BusStep> = Vec::new();
        steps.push(BusStep::Write(vec![wake_up[0], wake_up[1]]));
        steps.push(BusStep::DelayUs(FIRST_WAKE_UP_DELAY_US));
        steps.push(BusStep::Write(vec![wake_up[0], wake_up[1]]));
        steps.push(BusStep::DelayUs(SECOND_WAKE_UP_DELAY_US));
        steps.push(BusStep::Write(vec![wake_up[0], wake_up[1]]));
        steps.push(BusStep::Write(vec![function_set[0], function_set[1]]));
        steps.push(
            BusStep::Write(
                vec![function_set[0], function_set[1], function_set[2], function_set[3]],
            ),
        );
        proof {
            assert(wake_up@.take(2) =~= seq![wake_up[0], wake_up[1]]);
            assert(function_set@.take(2) =~= seq![function_set[0], function_set[1]]);
            assert(steps_view(steps@) =~= init_script(
                self.pin_map(),
                self.backlit(),
                fnset_lines,
                fnset_font,
            ));
        }
        Transfer::new(steps)
    }

    /// One byte to the instruction register (`RS_VAL` false) or the data register
    /// (`RS_VAL` true).
    pub fn send_byte<const RS_VAL: bool>(&self, byte: u8) -> (transfer: Transfer)
        ensures
            transfer@ == TransferView::fresh(
                send_script(self.pin_map(), RS_VAL, self.backlit(), seq![byte]),
            ),
    {
        let frame = self.enc.encode::<RS_VAL, false>(self.bl, byte);
        let mut steps: Vec<BusStep> = Vec::new();
        steps.push(BusStep::Write(vec![frame[0], frame[1], frame[2], frame[3]]));
        proof {
            assert(steps_view(steps@) =~= send_script(
                self.pin_map(),
                RS_VAL,
                self.backlit(),
                seq![byte],
            ));
        }
        Transfer::new(steps)
    }

    /// The bytes one after the other, each as `send_byte` sends it.
    pub fn send_bytes<const RS_VAL: bool>(&self, bytes: &[u8]) -> (transfer: Transfer)
        ensures
            transfer@ == TransferView::fresh(
                send_script(self.pin_map(), RS_VAL, self.backlit(), bytes@),
            ),
    {
        let mut steps: Vec<BusStep> = Vec::new();
        let n = bytes.len();
        let mut i: usize = 0;
        while i < n
            invariant
                n == bytes@.len(),
                i <= n,
                steps_view(steps@) == send_script(
                    self.pin_map(),
                    RS_VAL,
                    self.backlit(),
                    bytes@.take(i as int),
                ),
            decreases n - i,
        {
            let frame = self.enc.encode::<RS_VAL, false>(self.bl, bytes[i]);
            let ghost before = steps@;
            steps.push(BusStep::Write(vec![frame[0], frame[1], frame[2], frame[3]]));
            proof {
                assert(steps_view(steps@) =~= steps_view(before).push(Step::Write(frame@)));
            }
            i = i + 1;
        }
        assert(bytes@.take(n as int) =~= bytes@);
        Transfer::new(steps)
    }

    /// The operations of the one transaction that reads a byte from the status register
    /// (`RS_VAL` false) or the data register (`RS_VAL` true), in order. The two bytes it
    /// reads go to `received_byte`.
    pub fn receive_byte<const RS_VAL: bool>(&self) -> (operations: Vec<BusOperation>)
        ensures
            operations_view(operations@) == read_transaction(
                self.pin_map(),
                RS_VAL,
                self.backlit(),
            ),
    {
        let payload = self.enc.encode::<RS_VAL, true>(self.bl, 0x0f);
        let sample_high: Vec<u8> = vec![payload[2]];
        let sample_low: Vec<u8> = vec![payload[1], payload[2]];
        let idle: Vec<u8> = vec![payload[1]];
        proof {
            assert(payload@.subrange(2, 3) =~= sample_high@);
            assert(payload@.subrange(1, 3) =~= sample_low@);
            assert(payload@.subrange(1, 2) =~= idle@);
        }
        let mut operations: Vec<BusOperation> = Vec::new();
        operations.push(BusOperation::Write(sample_high));
        operations.push(BusOperation::Read);
        operations.push(BusOperation::Write(sample_low));
        operations.push(BusOperation::Read);
        operations.push(BusOperation::Write(idle));
        operations
    }

    /// Makes a byte of what the read transaction brought: of the two samples where it went
    /// through, of nothing where the bus failed.
    pub fn received_byte(&self, samples: Option<[u8; 2]>, byte: &mut u8) -> (r: Result<
        (),
        InterfaceError,
    >)
        ensures
            (match samples {
                Some(pair) => r is Ok && *final(byte) == sampled_byte(
                    self.pin_map(),
                    pair[0],
                    pair[1],
                ),
                None => r is Err && *final(byte) == *old(byte),
            }),
    {
        match samples {
            Some(pair) => {
                *byte = self.enc.decode_data(pair);
                Ok(())
            },
            None => Err(InterfaceError::Pcf8574I2cError),
        }
    }

    /// Switches the backlight. The new level goes out at once, in a port value that
    /// strobes nothing, and stays from here on whether or not that write succeeds.
    pub fn backlight(&mut self, bl: bool) -> (transfer: Transfer)
        ensures
            final(self).backlit() == bl,
            final(self).pin_map() == old(self).pin_map(),
            final(self).spec_address() == old(self).spec_address(),
            transfer@ == TransferView::fresh(backlight_script(old(self).pin_map(), bl)),
    {
        self.bl = bl;
        let frame = self.enc.encode::<false, false>(self.bl, 0x00);
        let idle: Vec<u8> = vec![frame[1]];
        proof {
            assert(idle@ =~= seq![frame[1]]);
        }
        let mut steps: Vec<BusStep> = Vec::new();
        steps.push(BusStep::Write(idle));
        proof {
            assert(steps_view(steps@) =~= backlight_script(old(self).pin_map(), bl));
        }
        Transfer::new(steps)
    }
}

/// The handshake is seven steps. Three times it strobes the high nibble of the wake-up
/// command, with a pause of 4100 microseconds after the first time and of 100 after the
/// second. Only then does it ask for the 4-bit bus, with the high nibble of the function
/// set command alone, and sends that command once more as a whole frame. On a valid
/// wiring the nibble of the first three writes reads 0b0011 and that of the fourth 0b0010.
pub proof fn lemma_init_handshake(p: PinMap, bl: bool, lines: FnsetLines, font: FnsetFont)
    ensures
        ({
            let script = init_script(p, bl, lines, font);
            let wake_up = bus_frame(p, false, false, bl, spec_wake_up_command());
            let function_set = bus_frame(
                p,
                false,
                false,
                bl,
                spec_function_set_command(lines, font),
            );
            &&& script.len() == 7
            &&& script[0] == Step::Write(seq![wake_up[0], wake_up[1]])
            &&& script[1] == Step::DelayUs(4_100)
            &&& script[2] == script[0]
            &&& script[3] == Step::DelayUs(100)
            &&& script[4] == script[0]
            &&& script[5] == Step::Write(seq![function_set[0], function_set[1]])
            &&& script[6] == Step::Write(
                seq![function_set[0], function_set[1], function_set[2], function_set[3]],
            )
            &&& p.valid() ==> sampled_nibble(p, wake_up[0]) == 0b0011 && sampled_nibble(
                p,
                function_set[0],
            ) == 0b0010
        }),
{
    let wake_up = bus_frame(p, false, false, bl, spec_wake_up_command());
    let function_set = bus_frame(p, false, false, bl, spec_function_set_command(lines, font));
    assert(wake_up.take(2) =~= seq![wake_up[0], wake_up[1]]);
    assert(function_set.take(2) =~= seq![function_set[0], function_set[1]]);
    if p.valid() {
        let wake = spec_wake_up_command();
        let set = spec_function_set_command(lines, font);
        assert(wake >> 4 == 0b0011) by (bit_vector)
            requires
                wake == 0x20u8 | 0x10u8,
        ;
        assert(set >> 4 == 0b0010) by (bit_vector)
            requires
                set == 0x20u8 | 0x00u8 | 0x00u8 | 0x00u8 || set == 0x20u8 | 0x00u8 | 0x08u8 | 0x00u8
                    || set == 0x20u8 | 0x00u8 | 0x00u8 | 0x04u8 || set == 0x20u8 | 0x00u8 | 0x08u8
                    | 0x04u8,
        ;
        lemma_nibble_survives(p, true, false, false, bl, 0b0011);
        lemma_nibble_survives(p, true, false, false, bl, 0b0010);
    }
}

/// Whatever is sent after the handshake goes out in whole frames: one write of four port
/// values for each byte, and never a lone nibble.
pub proof fn lemma_send_whole_frames(p: PinMap, rs: bool, bl: bool, bytes: Seq<u8>, i: int)
    requires
        0 <= i < bytes.len(),
    ensures
        send_script(p, rs, bl, bytes).len() == bytes.len(),
        send_script(p, rs, bl, bytes)[i] == Step::Write(bus_frame(p, rs, false, bl, bytes[i])),
        bus_frame(p, rs, false, bl, bytes[i]).len() == 4,
{
}

/// Reading a byte is one transaction of five operations: a write, a read, a write, a
/// read, a write. On a valid wiring each read samples the port while EN and RNW are high
/// and D4..D7 are released, EN falls between the two reads, and the last write leaves EN
/// low.
pub proof fn lemma_read_transaction(p: PinMap, rs: bool, bl: bool)
    ensures
        ({
            let transaction = read_transaction(p, rs, bl);
            let frame = bus_frame(p, rs, true, bl, 0x0f);
            &&& transaction.len() == 5
            &&& transaction[0] == Operation::Write(seq![frame[2]])
            &&& transaction[1] == Operation::Read
            &&& transaction[2] == Operation::Write(seq![frame[1], frame[2]])
            &&& transaction[3] == Operation::Read
            &&& transaction[4] == Operation::Write(seq![frame[1]])
            &&& p.valid() ==> {
                &&& frame[2] & p.en == p.en
                &&& frame[2] & p.rnw == p.rnw
                &&& sampled_nibble(p, frame[2]) == 0x0f
                &&& frame[1] & p.en == 0
                &&& frame[1] & p.rnw == p.rnw
            }
        }),
{
    let frame = bus_frame(p, rs, true, bl, 0x0f);
    assert(frame.subrange(2, 3) =~= seq![frame[2]]);
    assert(frame.subrange(1, 3) =~= seq![frame[1], frame[2]]);
    assert(frame.subrange(1, 2) =~= seq![frame[1]]);
    if p.valid() {
        assert(0x0fu8 & 0x0f == 0x0f) by (bit_vector);
        lemma_control_levels(p, true, rs, true, bl, 0x0fu8 & 0x0f);
        lemma_control_levels(p, false, rs, true, bl, 0x0fu8 >> 4);
        lemma_nibble_survives(p, true, rs, true, bl, 0x0fu8 & 0x0f);
    }
}

} // verus!
