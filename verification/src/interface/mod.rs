//! What the display layer needs from a bus bridge, and the bridges this crate knows.

use vstd::prelude::*;
use crate::instructions::{FnsetFont, FnsetLines};

pub mod pcf8574;
pub mod recorder;

verus! {

/// The one way a bridge can fail: the bus did not carry the transfer.
#[derive(Debug, Clone, Copy)]
pub enum InterfaceError {
    Pcf8574I2cError,
}

/// One call that an interface has served, with what came of it.
#[derive(Debug, Clone, Copy, PartialEq, Eq)]
pub enum Exchange {
    /// The power-on handshake, for a display with these lines and this font.
    Init { lines: FnsetLines, font: FnsetFont, ok: bool },
    /// One byte to the instruction register (`rs` false) or the data register (`rs` true).
    Send { rs: bool, byte: u8, ok: bool },
    /// One byte from the status register (`rs` false) or the data register (`rs` true);
    /// `got` is `None` where the transfer failed.
    Receive { rs: bool, got: Option<u8> },
    /// The backlight switched.
    Backlight { on: bool, ok: bool },
    /// A pause of so many microseconds.
    Delay { us: u32 },
}

impl Exchange {
    /// Whether the interface can fail at this exchange. A pause cannot.
    pub open spec fn fallible(self) -> bool {
        !(self is Delay)
    }

    /// The same call, failed.
    pub open spec fn failed(self) -> Exchange {
        match self {
            Exchange::Init { lines, font, ok } => Exchange::Init { lines, font, ok: false },
            Exchange::Send { rs, byte, ok } => Exchange::Send { rs, byte, ok: false },
            Exchange::Receive { rs, got } => Exchange::Receive { rs, got: None },
            Exchange::Backlight { on, ok } => Exchange::Backlight { on, ok: false },
            Exchange::Delay { us } => Exchange::Delay { us },
        }
    }
}

/// What is left of a run of exchanges that was meant to go as `script` says and failed at
/// its exchange `k`: what came before, and that exchange as a failure.
pub open spec fn cut_short(script: Seq<Exchange>, k: int) -> Seq<Exchange> {
    script.take(k).push(script[k].failed())
}

/// The exchanges that come of sending each of `bytes` with success, in order.
pub open spec fn sent(rs: bool, bytes: Seq<u8>) -> Seq<Exchange> {
    Seq::new(bytes.len(), |i: int| Exchange::Send { rs, byte: bytes[i], ok: true })
}

/// The exchanges that come of receiving each of `bytes` with success, in order.
pub open spec fn received(rs: bool, bytes: Seq<u8>) -> Seq<Exchange> {
    Seq::new(bytes.len(), |i: int| Exchange::Receive { rs, got: Some(bytes[i]) })
}

/// The record that an interface keeps of its exchanges, oldest first. It lives in proofs:
/// no program ever computes one.
pub type Trace = Seq<Exchange>;

/// A bridge to the display: it carries bytes to and from the two registers of the
/// controller and waits when asked to.
///
/// An interface keeps, as a ghost value, the record of the calls it has served. The
/// contracts below say of each call what it adds to that record and nothing of whether the
/// call succeeds: that is for the bus to decide.
pub trait InterfaceTrait {
    /// Every exchange served so far, oldest first.
    spec fn trace(&self) -> Trace;

    /// Brings the controller from any power-on state into 4-bit mode.
    fn init(&mut self, fnset_lines: FnsetLines, fnset_font: FnsetFont) -> (r: Result<
        (),
        InterfaceError,
    >)
        ensures
            final(self).trace() == old(self).trace().push(
                Exchange::Init { lines: fnset_lines, font: fnset_font, ok: r is Ok },
            ),
    ;

    fn send_byte<const RS_VAL: bool>(&mut self, byte: u8) -> (r: Result<(), InterfaceError>)
        ensures
            final(self).trace() == old(self).trace().push(
                Exchange::Send { rs: RS_VAL, byte, ok: r is Ok },
            ),
    ;

    /// Sends the bytes one by one and stops at the first that fails.
    fn send_bytes<const RS_VAL: bool>(&mut self, bytes: &[u8]) -> (r: Result<(), InterfaceError>)
        ensures
            r is Ok ==> final(self).trace() == old(self).trace() + sent(RS_VAL, bytes@),
            r is Err ==> exists|k: int|
                0 <= k < bytes@.len() && final(self).trace() == old(self).trace()
                    + #[trigger] cut_short(sent(RS_VAL, bytes@), k),
    {
        let n = bytes.len();
        let mut i: usize = 0;
        while i < n
            invariant
                n == bytes@.len(),
                i <= n,
                self.trace() == old(self).trace() + sent(RS_VAL, bytes@.take(i as int)),
            decreases n - i,
        {
            match self.send_byte::<RS_VAL>(bytes[i]) {
                Ok(()) => {},
                Err(e) => {
                    assert(self.trace() =~= old(self).trace() + cut_short(
                        sent(RS_VAL, bytes@),
                        i as int,
                    ));
                    return Err(e);
                },
            }
            i = i + 1;
        }
        Ok(())
    }

    /// On success `byte` holds what the display sent.
    fn receive_byte<const RS_VAL: bool>(&mut self, byte: &mut u8) -> (r: Result<
        (),
        InterfaceError,
    >)
        ensures
            final(self).trace() == old(self).trace().push(
                Exchange::Receive {
                    rs: RS_VAL,
                    got: if r is Ok {
                        Some(*final(byte))
                    } else {
                        None
                    },
                },
            ),
    ;

    /// Fills the buffer byte by byte and stops at the first transfer that fails. What lies
    /// behind the failed byte is left as it was.
    fn receive_bytes<const RS_VAL: bool>(&mut self, bytes: &mut [u8]) -> (r: Result<
        (),
        InterfaceError,
    >)
        ensures
            final(bytes)@.len() == old(bytes)@.len(),
            r is Ok ==> final(self).trace() == old(self).trace() + received(
                RS_VAL,
                final(bytes)@,
            ),
            r is Err ==> exists|k: int|
                0 <= k < final(bytes)@.len() && final(self).trace() == old(self).trace()
                    + #[trigger] cut_short(received(RS_VAL, final(bytes)@), k)
                    && final(bytes)@.skip(k + 1) == old(bytes)@.skip(k + 1),
    {
        let n = bytes.len();
        let mut i: usize = 0;
        while i < n
            invariant
                n == bytes@.len(),
                n == old(bytes)@.len(),
                i <= n,
                self.trace() == old(self).trace() + received(RS_VAL, bytes@.take(i as int)),
                bytes@.skip(i as int) == old(bytes)@.skip(i as int),
            decreases n - i,
        {
            let ghost before = bytes@;
            match self.receive_byte::<RS_VAL>(&mut bytes[i]) {
                Ok(()) => {
                    assert(bytes@.skip(i + 1) =~= before.skip(i as int).skip(1));
                },
                Err(e) => {
                    assert(bytes@.skip(i + 1) =~= before.skip(i as int).skip(1));
                    assert(self.trace() =~= old(self).trace() + cut_short(
                        received(RS_VAL, bytes@),
                        i as int,
                    ));
                    return Err(e);
                },
            }
            i = i + 1;
        }
        Ok(())
    }

    fn delay_us(&mut self, us: u32)
        ensures
            final(self).trace() == old(self).trace().push(Exchange::Delay { us }),
    ;

    /// Switches the backlight and keeps it so through every later transfer.
    fn backlight(&mut self, bl: bool) -> (r: Result<(), InterfaceError>)
        ensures
            final(self).trace() == old(self).trace().push(
                Exchange::Backlight { on: bl, ok: r is Ok },
            ),
    ;
}

} // verus!
