//! Reading one measurement: two register transactions combined into a signed
//! big-endian word.
//!
//! The exchange is a small state machine. A [`PairRead`] names the
//! transaction that the bus must perform next ([`PairRead::request`]); the
//! outcome of that transaction is handed back to [`PairRead::on_reply`], which
//! either asks for the next transaction or finishes with the raw word or the
//! bus error.
use vstd::prelude::*;

use crate::register::{register_address, Register, ADDRESS};

verus! {

/// The value of the big-endian word `msb:lsb` read as a two's-complement
/// 16-bit integer.
pub open spec fn signed_word(msb: u8, lsb: u8) -> int {
    let unsigned = msb * 256 + lsb;
    if unsigned < 0x8000 {
        unsigned
    } else {
        unsigned - 0x10000
    }
}

/// Combines the high and low register bytes into the signed raw reading.
pub fn raw_reading(msb: u8, lsb: u8) -> (r: i16)
    ensures
        r as int == signed_word(msb, lsb),
{
    if msb < 0x80 {
        (msb as i16) * 256 + lsb as i16
    } else {
        ((msb as i16) - 256) * 256 + lsb as i16
    }
}

/// A raw reading is negative exactly when the sign bit of its high byte is
/// set.
pub proof fn lemma_sign_from_high_byte(msb: u8, lsb: u8)
    ensures
        msb >= 0x80 <==> signed_word(msb, lsb) < 0,
        -0x8000 <= signed_word(msb, lsb) < 0x8000,
{
}

/// One write-then-read transaction: write the register address `register` to
/// the device at `address`, then read back one byte.
#[derive(Copy, Clone, Debug, PartialEq, Eq, Structural)]
pub struct Request {
    pub address: u8,
    pub register: u8,
}

/// Where a two-register read stands.
#[derive(Copy, Clone, Debug, PartialEq, Eq, Structural)]
pub enum PairRead {
    /// The high byte has yet to be read from `msb`; `lsb` comes after it.
    AwaitingMsb { msb: Register, lsb: Register },
    /// The high byte `high` has been read; the low byte is read from `lsb`.
    AwaitingLsb { lsb: Register, high: u8 },
}

/// What follows a transaction's outcome.
pub enum Step<E> {
    /// Perform the state's next transaction and hand its outcome back.
    Continue(PairRead),
    /// The read is over: the raw word, or the bus error that ended it.
    Finished(Result<i16, E>),
}

impl PairRead {
    /// The transaction this state waits on.
    pub open spec fn spec_request(self) -> Request {
        match self {
            PairRead::AwaitingMsb { msb, .. } => Request {
                address: ADDRESS,
                register: register_address(msb),
            },
            PairRead::AwaitingLsb { lsb, .. } => Request {
                address: ADDRESS,
                register: register_address(lsb),
            },
        }
    }

    /// The step taken when the awaited transaction ends with `reply`.
    pub open spec fn spec_next<E>(self, reply: Result<u8, E>) -> Step<E> {
        match reply {
            Err(e) => Step::Finished(Err(e)),
            Ok(byte) => match self {
                PairRead::AwaitingMsb { lsb, .. } => Step::Continue(
                    PairRead::AwaitingLsb { lsb, high: byte },
                ),
                PairRead::AwaitingLsb { high, .. } => Step::Finished(
                    Ok(signed_word(high, byte) as i16),
                ),
            },
        }
    }

    /// Starts reading the word held in the registers `msb` (high byte) and
    /// `lsb` (low byte).
    pub fn new(msb: Register, lsb: Register) -> (s: PairRead)
        ensures
            s == (PairRead::AwaitingMsb { msb, lsb }),
    {
        PairRead::AwaitingMsb { msb, lsb }
    }

    /// The transaction to perform next.
    pub fn request(&self) -> (r: Request)
        ensures
            r == self.spec_request(),
    {
        match self {
            PairRead::AwaitingMsb { msb, .. } => Request { address: ADDRESS, register: msb.addr() },
            PairRead::AwaitingLsb { lsb, .. } => Request { address: ADDRESS, register: lsb.addr() },
        }
    }

    /// Takes the outcome of the transaction named by [`PairRead::request`].
    /// A bus error ends the read at once and is passed on unchanged.
    pub fn on_reply<E>(self, reply: Result<u8, E>) -> (s: Step<E>)
        ensures
            s == self.spec_next(reply),
    {
        match reply {
            Err(e) => Step::Finished(Err(e)),
            Ok(byte) => match self {
                PairRead::AwaitingMsb { lsb, .. } => Step::Continue(
                    PairRead::AwaitingLsb { lsb, high: byte },
                ),
                PairRead::AwaitingLsb { high, .. } => Step::Finished(Ok(raw_reading(high, byte))),
            },
        }
    }
}

} // verus!
