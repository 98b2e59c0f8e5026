//! An interface with no display behind it, for trying out code that drives one.

use vstd::prelude::*;
use crate::instructions::{FnsetFont, FnsetLines};
use crate::interface::{Exchange, InterfaceError, InterfaceTrait};

verus! {

/// An interface that keeps the exchanges it is asked for. It can be told to fail one of
/// them, and what to answer when it is asked for bytes.
pub struct Recorder {
    log: Vec<Exchange>,
    fail_at: Option<usize>,
    answers: Vec<u8>,
    answered: usize,
}

impl Recorder {
    /// The exchange that fails, counted from 0, where one does.
    pub closed spec fn failing(&self) -> Option<usize> {
        self.fail_at
    }

    /// The bytes left to answer with, the next one first.
    pub closed spec fn answers(&self) -> Seq<u8> {
        if self.answered <= self.answers@.len() {
            self.answers@.skip(self.answered as int)
        } else {
            Seq::empty()
        }
    }

    /// Whether the next exchange succeeds.
    pub open spec fn next_succeeds(&self) -> bool {
        self.failing() != Some(self.trace().len() as usize)
    }

    /// The byte that the next successful receive brings: the next answer, or zero when
    /// the answers have run out.
    pub open spec fn next_answer(&self) -> u8 {
        if self.answers().len() > 0 {
            self.answers()[0]
        } else {
            0
        }
    }

    /// A recorder that has served nothing yet.
    pub fn new(fail_at: Option<usize>, answers: Vec<u8>) -> (recorder: Self)
        ensures
            recorder.trace() == Seq::<Exchange>::empty(),
            recorder.failing() == fail_at,
            recorder.answers() == answers@,
    {
        Recorder { log: Vec::new(), fail_at, answers, answered: 0 }
    }

    /// The exchanges served so far, oldest first.
    pub fn exchanges(&self) -> (log: &Vec<Exchange>)
        ensures
            log@ == self.trace(),
    {
        &self.log
    }

    fn succeeds(&self) -> (ok: bool)
        ensures
            ok == self.next_succeeds(),
    {
        match self.fail_at {
            Some(k) => k != self.log.len(),
            None => true,
        }
    }
}

impl InterfaceTrait for Recorder {
    closed spec fn trace(&self) -> Seq<Exchange> {
        self.log@
    }

    fn init(&mut self, fnset_lines: FnsetLines, fnset_font: FnsetFont) -> (r: Result<
        (),
        InterfaceError,
    >)
        ensures
            r is Ok <==> old(self).next_succeeds(),
            final(self).failing() == old(self).failing(),
            final(self).answers() == old(self).answers(),
    {
        let ok = self.succeeds();
        self.log.push(Exchange::Init { lines: fnset_lines, font: fnset_font, ok });
        if ok {
            Ok(())
        } else {
            Err(InterfaceError::Pcf8574I2cError)
        }
    }

    fn send_byte<const RS_VAL: bool>(&mut self, byte: u8) -> (r: Result<(), InterfaceError>)
        ensures
            r is Ok <==> old(self).next_succeeds(),
            final(self).failing() == old(self).failing(),
            final(self).answers() == old(self).answers(),
    {
        let ok = self.succeeds();
        self.log.push(Exchange::Send { rs: RS_VAL, byte, ok });
        if ok {
            Ok(())
        } else {
            Err(InterfaceError::Pcf8574I2cError)
        }
    }

    fn receive_byte<const RS_VAL: bool>(&mut self, byte: &mut u8) -> (r: Result<
        (),
        InterfaceError,
    >)
        ensures
            r is Ok <==> old(self).next_succeeds(),
            r is Ok ==> *final(byte) == old(self).next_answer(),
            r is Ok && old(self).answers().len() > 0 ==> final(self).answers()
                == old(self).answers().skip(1),
            r is Ok && old(self).answers().len() == 0 ==> final(self).answers()
                == old(self).answers(),
            r is Err ==> *final(byte) == *old(byte) && final(self).answers() == old(self).answers(),
            final(self).failing() == old(self).failing(),
    {
        if self.succeeds() {
            let answer = if self.answered < self.answers.len() {
                let answer = self.answers[self.answered];
                self.answered = self.answered + 1;
                answer
            } else {
                0
            };
            *byte = answer;
            self.log.push(Exchange::Receive { rs: RS_VAL, got: Some(answer) });
            Ok(())
        } else {
            self.log.push(Exchange::Receive { rs: RS_VAL, got: None });
            Err(InterfaceError::Pcf8574I2cError)
        }
    }

    fn delay_us(&mut self, us: u32)
        ensures
            final(self).failing() == old(self).failing(),
            final(self).answers() == old(self).answers(),
    {
        self.log.push(Exchange::Delay { us });
    }

    fn backlight(&mut self, bl: bool) -> (r: Result<(), InterfaceError>)
        ensures
            r is Ok <==> old(self).next_succeeds(),
            final(self).failing() == old(self).failing(),
            final(self).answers() == old(self).answers(),
    {
        let ok = self.succeeds();
        self.log.push(Exchange::Backlight { on: bl, ok });
        if ok {
            Ok(())
        } else {
            Err(InterfaceError::Pcf8574I2cError)
        }
    }
}

} // verus!
