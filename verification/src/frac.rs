//! 32-bit NTP short values: 16 bits of whole units and 16 bits of binary
//! fraction, used for round-trip delay and dispersion.

use crate::wire::{
    be_bytes_u32, be_u32, lemma_be_u32_decode_encode, lemma_be_u32_encode_decode,
    lemma_be_u32_prefix, lemma_be_u32_range, read_u32_be, write_u32_be,
};
use vstd::prelude::*;

verus! {

/// A magnitude in units of 2^-16.
#[derive(Debug, Copy, Clone, PartialEq, Eq, Structural)]
pub struct NtpFracValue {
    pub val: u32,
}

impl NtpFracValue {
    /// The value that four wire bytes spell.
    pub open spec fn from_wire(b: Seq<u8>) -> NtpFracValue
        recommends
            b.len() >= 4,
    {
        NtpFracValue { val: be_u32(b) as u32 }
    }

    /// The four wire bytes of this value.
    pub open spec fn to_wire(self) -> Seq<u8> {
        be_bytes_u32(self.val)
    }

    /// Reads a value from the first four bytes of `buf`.
    pub fn read(buf: &[u8]) -> (v: NtpFracValue)
        requires
            buf@.len() >= 4,
        ensures
            v == NtpFracValue::from_wire(buf@),
    {
        proof {
            lemma_be_u32_range(buf@);
        }
        NtpFracValue { val: read_u32_be(buf) }
    }

    /// Writes the value over the first four bytes of `buf`.
    pub fn write(&self, buf: &mut [u8])
        requires
            old(buf)@.len() >= 4,
        ensures
            final(buf)@ == self.to_wire() + old(buf)@.skip(4),
    {
        write_u32_be(buf, self.val);
    }

    /// The value nought.
    pub fn zero() -> (v: NtpFracValue)
        ensures
            v.val == 0,
    {
        NtpFracValue { val: 0 }
    }

    /// Adds one unit of 2^-16. The largest value has no successor.
    pub fn increment(&mut self)
        requires
            old(self).val < u32::MAX,
        ensures
            final(self).val == old(self).val + 1,
    {
        self.val += 1;
    }

    /// The wire form has four bytes, and reading what was written gives the
    /// value back, whatever follows it in the buffer.
    pub proof fn lemma_read_write(self, rest: Seq<u8>)
        ensures
            self.to_wire().len() == 4,
            NtpFracValue::from_wire(self.to_wire() + rest) == self,
    {
        let b = self.to_wire() + rest;
        lemma_be_u32_decode_encode(self.val);
        lemma_be_u32_prefix(b);
        assert(b.subrange(0, 4) =~= self.to_wire());
    }

    /// Writing what was read gives the first four bytes of the buffer back.
    pub proof fn lemma_write_read(b: Seq<u8>)
        requires
            b.len() >= 4,
        ensures
            NtpFracValue::from_wire(b).to_wire() == b.subrange(0, 4),
    {
        lemma_be_u32_prefix(b);
        lemma_be_u32_range(b);
        lemma_be_u32_encode_decode(b.subrange(0, 4));
    }
}

} // verus!
