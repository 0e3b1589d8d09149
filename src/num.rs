//! Bit-level helpers: splitting an instruction word into nibbles, and reading
//! a byte as eight pixels, most significant bit first.

use vstd::prelude::*;

verus! {

/// The bit of `b` at position `k`, counted from the most significant bit
/// (`k == 0`) down to the least significant one (`k == 7`).
pub open spec fn bit_msb(b: u8, k: u8) -> bool
    recommends
        k < 8,
{
    (b >> ((7 - k) as u8)) & 1u8 == 1u8
}

/// Splits a 16-bit instruction word into its four 4-bit fields, most
/// significant first.
pub fn to_4_be_nibles(op: u16) -> (r: [u8; 4])
    ensures
        r@ == seq![(op / 4096) as u8, ((op / 256) % 16) as u8, ((op / 16) % 16) as u8, (op % 16) as u8],
{
    let a = ((op & 0xF000) >> 12) as u8;
    let b = ((op & 0x0F00) >> 8) as u8;
    let c = ((op & 0x00F0) >> 4) as u8;
    let d = (op & 0x000F) as u8;
    assert(((op & 0xF000) >> 12) == op / 4096) by (bit_vector);
    assert(((op & 0x0F00) >> 8) == (op / 256) % 16) by (bit_vector);
    assert(((op & 0x00F0) >> 4) == (op / 16) % 16) by (bit_vector);
    assert((op & 0x000F) == op % 16) by (bit_vector);
    let r = [a, b, c, d];
    assert(r@ =~= seq![(op / 4096) as u8, ((op / 256) % 16) as u8, ((op / 16) % 16) as u8, (op % 16) as u8]);
    r
}

/// The eight bits of a byte, handed out one at a time, most significant
/// first.
pub struct BitIter {
    value: u8,
    nth: u8,
}

impl BitIter {
    /// The byte whose bits are handed out.
    pub closed spec fn value(&self) -> u8 {
        self.value
    }

    /// How many bits have been handed out so far.
    pub closed spec fn position(&self) -> u8 {
        self.nth
    }

    pub closed spec fn wf(&self) -> bool {
        self.nth <= 8
    }

    pub fn new(value: u8) -> (r: Self)
        ensures
            r.wf(),
            r.value() == value,
            r.position() == 0,
    {
        Self { value, nth: 0 }
    }

    /// The next bit, or `None` once all eight have been handed out.
    pub fn next(&mut self) -> (r: Option<bool>)
        requires
            old(self).wf(),
        ensures
            final(self).wf(),
            final(self).value() == old(self).value(),
            old(self).position() < 8 ==> r == Some(bit_msb(old(self).value(), old(self).position()))
                && final(self).position() == old(self).position() + 1,
            old(self).position() >= 8 ==> r is None && final(self).position() == old(self).position(),
    {
        if self.nth >= 8 {
            None
        } else {
            let n = self.nth;
            let v = self.value;
            let mask: u8 = 0b1000_0000u8 >> n;
            assert((mask & v != 0) == ((v >> ((7 - n) as u8)) & 1u8 == 1u8)) by (bit_vector)
                requires
                    mask == 0b1000_0000u8 >> n,
                    n < 8,
            ;
            self.nth = n + 1;
            Some((mask & v) != 0)
        }
    }
}

} // verus!
