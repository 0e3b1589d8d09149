//! The sixteen 8-bit general registers `V0`..`VF`; `VF` doubles as the flag.

use vstd::prelude::*;

verus! {

/// Number of general registers.
pub const REG_TOTAL: usize = 16;

/// Index of the flag register `VF`.
pub const VF: u8 = 0xF;

pub struct Registers {
    v: [u8; REG_TOTAL],
}

impl View for Registers {
    type V = Seq<u8>;

    closed spec fn view(&self) -> Seq<u8> {
        self.v@
    }
}

impl Registers {
    pub broadcast proof fn lemma_len(r: &Registers)
        ensures
            #[trigger] r@.len() == REG_TOTAL,
    {
    }

    /// All registers hold zero.
    pub fn zero() -> (r: Self)
        ensures
            r@ == Seq::new(REG_TOTAL as nat, |i: int| 0u8),
    {
        let r = Self { v: [0u8; REG_TOTAL] };
        assert(r@ =~= Seq::new(REG_TOTAL as nat, |i: int| 0u8));
        r
    }

    /// The value of register `x`.
    pub fn get(&self, x: u8) -> (r: u8)
        requires
            x < REG_TOTAL,
        ensures
            r == self@[x as int],
    {
        self.v[x as usize]
    }

    /// Sets register `x` to `value`.
    pub fn set(&mut self, x: u8, value: u8)
        requires
            x < REG_TOTAL,
        ensures
            final(self)@ == old(self)@.update(x as int, value),
    {
        self.v[x as usize] = value;
    }

    /// Sets the flag register `VF`.
    pub fn set_vf(&mut self, value: u8)
        ensures
            final(self)@ == old(self)@.update(VF as int, value),
    {
        self.v[VF as usize] = value;
    }

    /// Sets every register to zero.
    pub fn reset(&mut self)
        ensures
            final(self)@ == Seq::new(REG_TOTAL as nat, |i: int| 0u8),
    {
        self.v = [0u8; REG_TOTAL];
        assert(self@ =~= Seq::new(REG_TOTAL as nat, |i: int| 0u8));
    }

    /// A copy of `V0..=Vn`.
    pub fn up_to(&self, n: u8) -> (r: Vec<u8>)
        requires
            n < REG_TOTAL,
        ensures
            r@ == self@.subrange(0, n as int + 1),
    {
        let mut out: Vec<u8> = Vec::new();
        let mut k: usize = 0;
        while k <= n as usize
            invariant
                k <= n as usize + 1,
                n < REG_TOTAL,
                out@ == self@.subrange(0, k as int),
            decreases n as usize + 1 - k,
        {
            out.push(self.v[k]);
            k += 1;
            assert(out@ =~= self@.subrange(0, k as int));
        }
        out
    }

    /// Overwrites `V0..=Vn` with `bytes`, one byte per register.
    pub fn load_up_to(&mut self, n: u8, bytes: &[u8])
        requires
            n < REG_TOTAL,
            bytes@.len() == n as int + 1,
        ensures
            final(self)@ == bytes@ + old(self)@.subrange(n as int + 1, REG_TOTAL as int),
    {
        let mut k: usize = 0;
        while k <= n as usize
            invariant
                k <= n as usize + 1,
                n < REG_TOTAL,
                bytes@.len() == n as int + 1,
                self@.len() == REG_TOTAL,
                forall|j: int| 0 <= j < k ==> self@[j] == bytes@[j],
                forall|j: int| k <= j < REG_TOTAL ==> self@[j] == old(self)@[j],
            decreases n as usize + 1 - k,
        {
            self.v[k] = bytes[k];
            k += 1;
        }
        assert(self@ =~= bytes@ + old(self)@.subrange(n as int + 1, REG_TOTAL as int));
    }
}

} // verus!
