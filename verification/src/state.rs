//! The reference state: what the server advertises about its own clock.

use crate::frac::NtpFracValue;
use crate::timestamp::NtpTimestamp;
use vstd::prelude::*;

verus! {

/// Leap indicator of a clock that is not synchronised.
pub const LEAP_UNSYNCHRONIZED: u8 = 3;

/// A snapshot of the server's advertised authority. Workers copy it into
/// every response.
#[derive(Debug, Copy, Clone, PartialEq)]
pub struct NtpServerState {
    pub leap: u8,
    pub stratum: u8,
    pub precision: i8,
    pub ref_id: u32,
    pub ref_ts: NtpTimestamp,
    pub dispersion: NtpFracValue,
    pub delay: NtpFracValue,
}

impl NtpServerState {
    /// The fields agree with each other: the leap indicator fits its two
    /// bits, and a synchronised clock has a stratum of at least one.
    pub open spec fn is_consistent(self) -> bool {
        &&& self.leap <= LEAP_UNSYNCHRONIZED
        &&& self.leap != LEAP_UNSYNCHRONIZED ==> self.stratum >= 1
    }

    /// The state of a server that has just been set up: a synchronised
    /// stratum-1 clock with every other field nought.
    pub open spec fn initial() -> NtpServerState {
        NtpServerState {
            leap: 0,
            stratum: 1,
            precision: 0,
            ref_id: 0,
            ref_ts: NtpTimestamp { ts: 0 },
            dispersion: NtpFracValue { val: 0 },
            delay: NtpFracValue { val: 0 },
        }
    }

    /// Builds the state of a server that has just been set up.
    pub fn new() -> (state: NtpServerState)
        ensures
            state == NtpServerState::initial(),
            state.is_consistent(),
    {
        NtpServerState {
            leap: 0,
            stratum: 1,
            precision: 0,
            ref_id: 0,
            ref_ts: NtpTimestamp::zero(),
            dispersion: NtpFracValue::zero(),
            delay: NtpFracValue::zero(),
        }
    }

    /// Tells whether the fields agree with each other.
    pub fn check_consistent(&self) -> (ok: bool)
        ensures
            ok == self.is_consistent(),
    {
        self.leap <= LEAP_UNSYNCHRONIZED && (self.leap == LEAP_UNSYNCHRONIZED || self.stratum >= 1)
    }
}

} // verus!
