//! 64-bit NTP timestamps: 32 bits of seconds since 1900-01-01 and 32 bits of
//! binary fraction.

use crate::clock::since_unix_epoch;
use crate::wire::{
    be_bytes_u64, be_u64, lemma_be_u64_decode_encode, lemma_be_u64_encode_decode,
    lemma_be_u64_prefix, lemma_be_u64_range, read_u64_be, write_u64_be,
};
use std::time::SystemTime;
use vstd::arithmetic::div_mod::{
    lemma_fundamental_div_mod, lemma_fundamental_div_mod_converse, lemma_hoist_over_denominator,
    lemma_mod_mod, lemma_mod_multiples_vanish, lemma_small_mod,
};
use vstd::prelude::*;
use vstd::std_specs::cmp::PartialEqSpecImpl;

verus! {

/// Seconds from the NTP epoch (1900-01-01) to the Unix epoch (1970-01-01).
pub const NTP_UNIX_OFFSET: u64 = 2_208_988_800;

/// Units of 2^-32 s in one second.
pub const FRACTIONS_PER_SEC: u64 = 0x1_0000_0000;

/// Nanoseconds in one second.
pub const NANOS_PER_SEC: u64 = 1_000_000_000;

/// A moment in NTP's fixed-point format. The high 32 bits of `ts` count
/// whole seconds since the NTP epoch, the low 32 bits count 2^-32 s.
#[derive(Debug, Copy, Clone)]
pub struct NtpTimestamp {
    pub ts: u64,
}

/// The fixed-point value of the moment `unix_nanos` nanoseconds after the
/// Unix epoch (before it, if negative): its distance from the NTP epoch in
/// units of 2^-32 s, rounded down, modulo 2^64.
pub open spec fn ntp_fixed_point(unix_nanos: int) -> int {
    ((unix_nanos + NTP_UNIX_OFFSET * NANOS_PER_SEC) * FRACTIONS_PER_SEC / (NANOS_PER_SEC as int))
        % 0x1_0000_0000_0000_0000
}

/// `a - b` modulo 2^64, read as a two's complement number: the distance from
/// `b` to `a` in units of 2^-32 s, in `[-2^63, 2^63)`.
pub open spec fn signed_delta(a: u64, b: u64) -> int {
    let d = (a - b) % 0x1_0000_0000_0000_0000;
    if d < 0x8000_0000_0000_0000 {
        d
    } else {
        d - 0x1_0000_0000_0000_0000
    }
}

/// A distance in units of 2^-32 s as whole seconds, rounded down, and the
/// rest in units of 2^-32 s.
pub open spec fn seconds_and_fraction(delta: int) -> (int, int) {
    (delta / 0x1_0000_0000, delta % 0x1_0000_0000)
}

/// Calls `rand::random::<u64>()`.
///
/// Nothing is claimed about the number. The crate panics if the system
/// gives it nothing to seed its generator with; no argument can rule that
/// out.
#[verifier::external_body]
fn random_u64() -> (n: u64) {
    rand::random()
}

/// Shifting a number left by 32 bits within 64 bits keeps its value
/// modulo 2^64, whatever is added afterwards.
proof fn lemma_shifted_word(k: int, shifted: int, whole: int, frac: int)
    requires
        shifted == k % 0x1_0000_0000_0000_0000,
        whole == (shifted % 0x1_0000_0000) * 0x1_0000_0000,
    ensures
        (k * 0x1_0000_0000 + frac) % 0x1_0000_0000_0000_0000 == (whole + frac)
            % 0x1_0000_0000_0000_0000,
{
    let high = k / 0x1_0000_0000;
    let low = k % 0x1_0000_0000;
    assert(0x1_0000_0000int * 0x1_0000_0000int == 0x1_0000_0000_0000_0000int);
    lemma_mod_mod(k, 0x1_0000_0000, 0x1_0000_0000);
    assert(shifted % 0x1_0000_0000 == low);
    lemma_fundamental_div_mod(k, 0x1_0000_0000);
    assert(k * 0x1_0000_0000 + frac == 0x1_0000_0000_0000_0000 * high + (whole + frac));
    lemma_mod_multiples_vanish(high, whole + frac, 0x1_0000_0000_0000_0000);
}

/// The arithmetic behind `NtpTimestamp::from_unix`: seconds and fraction
/// computed apart and added modulo 2^64 give the fixed-point value.
proof fn lemma_fixed_point_sum(secs: int, nanos: int, shifted: int, whole: int, frac: int, ts: int)
    requires
        shifted == (secs + 2_208_988_800) % 0x1_0000_0000_0000_0000,
        whole == (shifted % 0x1_0000_0000) * 0x1_0000_0000,
        frac == nanos * 0x1_0000_0000 / 1_000_000_000,
        ts == (whole + frac) % 0x1_0000_0000_0000_0000,
    ensures
        ts == ntp_fixed_point(secs * 1_000_000_000 + nanos),
{
    let k = secs + 2_208_988_800;
    let scaled = nanos * 0x1_0000_0000;
    let x = (secs * 1_000_000_000 + nanos + 2_208_988_800 * 1_000_000_000) * 0x1_0000_0000;
    assert(x == scaled + (k * 0x1_0000_0000) * 1_000_000_000);
    lemma_hoist_over_denominator(scaled, k * 0x1_0000_0000, 1_000_000_000);
    assert(x / 1_000_000_000 == k * 0x1_0000_0000 + frac);
    lemma_shifted_word(k, shifted, whole, frac);
}

/// The arithmetic behind `NtpTimestamp::before_unix`: seconds and fraction
/// computed apart and subtracted modulo 2^64 give the fixed-point value.
proof fn lemma_fixed_point_difference(
    secs: int,
    nanos: int,
    shifted: int,
    whole: int,
    frac: int,
    ts: int,
)
    requires
        shifted == (2_208_988_800 - secs) % 0x1_0000_0000_0000_0000,
        whole == (shifted % 0x1_0000_0000) * 0x1_0000_0000,
        frac == (nanos * 0x1_0000_0000 + 999_999_999) / 1_000_000_000,
        ts == (whole - frac) % 0x1_0000_0000_0000_0000,
    ensures
        ts == ntp_fixed_point(-(secs * 1_000_000_000 + nanos)),
{
    let k = 2_208_988_800 - secs;
    let scaled = nanos * 0x1_0000_0000;
    let x = (-(secs * 1_000_000_000 + nanos) + 2_208_988_800 * 1_000_000_000) * 0x1_0000_0000;
    let over = (scaled + 999_999_999) % 1_000_000_000;
    lemma_fundamental_div_mod(scaled + 999_999_999, 1_000_000_000);
    assert(-scaled == (-frac) * 1_000_000_000 + (999_999_999 - over));
    lemma_fundamental_div_mod_converse(-scaled, 1_000_000_000, -frac, 999_999_999 - over);
    assert(x == -scaled + (k * 0x1_0000_0000) * 1_000_000_000);
    lemma_hoist_over_denominator(-scaled, k * 0x1_0000_0000, 1_000_000_000);
    assert(x / 1_000_000_000 == k * 0x1_0000_0000 - frac);
    lemma_shifted_word(k, shifted, whole, -frac);
}

impl NtpTimestamp {
    /// The timestamp that eight wire bytes spell.
    pub open spec fn from_wire(b: Seq<u8>) -> NtpTimestamp
        recommends
            b.len() >= 8,
    {
        NtpTimestamp { ts: be_u64(b) as u64 }
    }

    /// The eight wire bytes of this timestamp.
    pub open spec fn to_wire(self) -> Seq<u8> {
        be_bytes_u64(self.ts)
    }

    /// The timestamp of the moment `secs` seconds and `nanos` nanoseconds
    /// after the Unix epoch.
    pub fn from_unix(secs: u64, nanos: u32) -> (t: NtpTimestamp)
        ensures
            t.ts == ntp_fixed_point(secs * NANOS_PER_SEC + nanos),
    {
        let shifted: u64 = secs.wrapping_add(NTP_UNIX_OFFSET);
        let whole: u64 = shifted << 32;
        let scaled: u64 = (nanos as u64) << 32;
        let frac: u64 = scaled / NANOS_PER_SEC;
        let ts: u64 = whole.wrapping_add(frac);
        proof {
            assert(whole == (shifted % 0x1_0000_0000) * 0x1_0000_0000) by (bit_vector)
                requires
                    whole == shifted << 32,
            ;
            assert(scaled == nanos * 0x1_0000_0000) by (bit_vector)
                requires
                    scaled == (nanos as u64) << 32,
            ;
            lemma_fixed_point_sum(
                secs as int,
                nanos as int,
                shifted as int,
                whole as int,
                frac as int,
                ts as int,
            );
        }
        NtpTimestamp { ts }
    }

    /// The timestamp of the moment `secs` seconds and `nanos` nanoseconds
    /// before the Unix epoch.
    pub fn before_unix(secs: u64, nanos: u32) -> (t: NtpTimestamp)
        ensures
            t.ts == ntp_fixed_point(-(secs * NANOS_PER_SEC + nanos)),
    {
        let shifted: u64 = NTP_UNIX_OFFSET.wrapping_sub(secs);
        let whole: u64 = shifted << 32;
        let scaled: u64 = (nanos as u64) << 32;
        proof {
            assert(scaled == nanos * 0x1_0000_0000) by (bit_vector)
                requires
                    scaled == (nanos as u64) << 32,
            ;
        }
        let frac: u64 = (scaled + (NANOS_PER_SEC - 1)) / NANOS_PER_SEC;
        let ts: u64 = whole.wrapping_sub(frac);
        proof {
            assert(whole == (shifted % 0x1_0000_0000) * 0x1_0000_0000) by (bit_vector)
                requires
                    whole == shifted << 32,
            ;
            lemma_fixed_point_difference(
                secs as int,
                nanos as int,
                shifted as int,
                whole as int,
                frac as int,
                ts as int,
            );
        }
        NtpTimestamp { ts }
    }

    /// The current time, read from the system clock. Which moment the clock
    /// shows is not known beforehand; the timestamp is the fixed-point value
    /// of that moment, counted in nanoseconds from the Unix epoch.
    pub fn now() -> (t: NtpTimestamp)
        ensures
            exists|unix_nanos: int| t.ts == #[trigger] ntp_fixed_point(unix_nanos),
    {
        let clock = SystemTime::now();
        match since_unix_epoch(&clock) {
            Ok(elapsed) => {
                let secs = elapsed.as_secs();
                let nanos = elapsed.subsec_nanos();
                let t = NtpTimestamp::from_unix(secs, nanos);
                assert(t.ts == ntp_fixed_point(secs * NANOS_PER_SEC + nanos));
                t
            },
            Err(early) => {
                let missing = early.duration();
                let secs = missing.as_secs();
                let nanos = missing.subsec_nanos();
                let t = NtpTimestamp::before_unix(secs, nanos);
                assert(t.ts == ntp_fixed_point(-(secs * NANOS_PER_SEC + nanos)));
                t
            },
        }
    }

    /// The NTP epoch itself.
    pub fn zero() -> (t: NtpTimestamp)
        ensures
            t.ts == 0,
    {
        NtpTimestamp { ts: 0 }
    }

    /// A timestamp with random bits, to tell one request from another.
    pub fn random() -> NtpTimestamp {
        NtpTimestamp { ts: random_u64() }
    }

    /// The distance from `ts` to `self` in units of 2^-32 s. The subtraction
    /// wraps modulo 2^64 and the result is read as a signed number.
    pub fn diff(&self, ts: &NtpTimestamp) -> (d: i64)
        ensures
            d == signed_delta(self.ts, ts.ts),
    {
        let w: u64 = self.ts.wrapping_sub(ts.ts);
        let d: i64 = #[verifier::truncate] (w as i64);
        proof {
            assert(w < 0x8000_0000_0000_0000 ==> d == w) by (bit_vector)
                requires
                    d == w as i64,
            ;
            assert(w >= 0x8000_0000_0000_0000 ==> d == w - 0x1_0000_0000_0000_0000) by (bit_vector)
                requires
                    d == w as i64,
            ;
        }
        d
    }

    /// The distance from `ts` to `self` in seconds, split into whole seconds
    /// (rounded down) and the rest in units of 2^-32 s.
    pub fn diff_to_sec(&self, ts: &NtpTimestamp) -> (r: (i64, u32))
        ensures
            (r.0 as int, r.1 as int) == seconds_and_fraction(signed_delta(self.ts, ts.ts)),
            r.0 * FRACTIONS_PER_SEC + r.1 == signed_delta(self.ts, ts.ts),
    {
        let w: u64 = self.ts.wrapping_sub(ts.ts);
        let frac: u32 = #[verifier::truncate] (w as u32);
        let high: u32 = (w >> 32) as u32;
        let secs: i32 = #[verifier::truncate] (high as i32);
        proof {
            assert(w >> 32 <= 0xffff_ffff) by (bit_vector);
            assert(w == (w >> 32) * 0x1_0000_0000 + (w as u32)) by (bit_vector);
            assert(high < 0x8000_0000 ==> secs == high) by (bit_vector)
                requires
                    secs == high as i32,
            ;
            assert(high >= 0x8000_0000 ==> secs == high - 0x1_0000_0000) by (bit_vector)
                requires
                    secs == high as i32,
            ;
            let delta = signed_delta(self.ts, ts.ts);
            assert(delta == 0x1_0000_0000 * (secs as int) + frac);
            lemma_fundamental_div_mod_converse(delta, 0x1_0000_0000, secs as int, frac as int);
        }
        (secs as i64, frac)
    }

    /// Reads a timestamp from the first eight bytes of `buf`.
    pub fn read(buf: &[u8]) -> (t: NtpTimestamp)
        requires
            buf@.len() >= 8,
        ensures
            t == NtpTimestamp::from_wire(buf@),
    {
        proof {
            lemma_be_u64_range(buf@);
        }
        NtpTimestamp { ts: read_u64_be(buf) }
    }

    /// Writes the timestamp over the first eight bytes of `buf`.
    pub fn write(&self, buf: &mut [u8])
        requires
            old(buf)@.len() >= 8,
        ensures
            final(buf)@ == self.to_wire() + old(buf)@.skip(8),
    {
        write_u64_be(buf, self.ts);
    }

    /// The wire form has eight bytes, and reading what was written gives the
    /// timestamp back, whatever follows it in the buffer.
    pub proof fn lemma_read_write(self, rest: Seq<u8>)
        ensures
            self.to_wire().len() == 8,
            NtpTimestamp::from_wire(self.to_wire() + rest) == self,
    {
        let b = self.to_wire() + rest;
        lemma_be_u64_decode_encode(self.ts);
        lemma_be_u64_prefix(b);
        assert(b.subrange(0, 8) =~= self.to_wire());
    }

    /// Writing what was read gives the first eight bytes of the buffer back.
    pub proof fn lemma_write_read(b: Seq<u8>)
        requires
            b.len() >= 8,
        ensures
            NtpTimestamp::from_wire(b).to_wire() == b.subrange(0, 8),
    {
        lemma_be_u64_prefix(b);
        lemma_be_u64_range(b);
        lemma_be_u64_encode_decode(b.subrange(0, 8));
    }

    /// If `self` lies `delta` units of 2^-32 s after `other` (before it, if
    /// `delta` is negative), wrap-around of the 64 bits included, then the
    /// difference between the two is exactly `delta`. For a whole number of
    /// seconds that is so many seconds and no fraction.
    pub proof fn lemma_diff_of_offset(self, other: NtpTimestamp, delta: int)
        requires
            -0x8000_0000_0000_0000 <= delta < 0x8000_0000_0000_0000,
            self.ts == (other.ts + delta) % 0x1_0000_0000_0000_0000,
        ensures
            signed_delta(self.ts, other.ts) == delta,
            delta % 0x1_0000_0000 == 0 ==> seconds_and_fraction(signed_delta(self.ts, other.ts))
                == (delta / 0x1_0000_0000, 0int),
    {
        let wrapped = (other.ts + delta) / 0x1_0000_0000_0000_0000;
        lemma_fundamental_div_mod(other.ts + delta, 0x1_0000_0000_0000_0000);
        assert(self.ts - other.ts == 0x1_0000_0000_0000_0000 * (-wrapped) + delta);
        lemma_mod_multiples_vanish(-wrapped, delta, 0x1_0000_0000_0000_0000);
        if delta >= 0 {
            lemma_small_mod(delta as nat, 0x1_0000_0000_0000_0000);
        } else {
            lemma_mod_multiples_vanish(1, delta, 0x1_0000_0000_0000_0000);
            lemma_small_mod((delta + 0x1_0000_0000_0000_0000) as nat, 0x1_0000_0000_0000_0000);
        }
    }
}

impl PartialEq for NtpTimestamp {
    /// Two timestamps are equal when their 64 bits are.
    fn eq(&self, other: &NtpTimestamp) -> (same: bool) {
        self.ts == other.ts
    }
}

impl PartialEqSpecImpl for NtpTimestamp {
    open spec fn obeys_eq_spec() -> bool {
        true
    }

    open spec fn eq_spec(&self, other: &NtpTimestamp) -> bool {
        self.ts == other.ts
    }
}

} // verus!
