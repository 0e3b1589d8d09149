//! The sixteen-key hexadecimal keypad.

use vstd::prelude::*;

verus! {

/// Number of keys on the pad.
pub const KEYCODE_SIZE: usize = 16;

/// One key of the pad, `0`..`F`.
#[derive(Clone, Copy, Debug, PartialEq, Eq, Structural)]
pub enum KeyCode {
    K0, K1, K2, K3,
    K4, K5, K6, K7,
    K8, K9, KA, KB,
    KC, KD, KE, KF,
}

impl KeyCode {
    /// The key's number, `0`..`15`.
    pub open spec fn spec_number(self) -> u8 {
        match self {
            KeyCode::K0 => 0,
            KeyCode::K1 => 1,
            KeyCode::K2 => 2,
            KeyCode::K3 => 3,
            KeyCode::K4 => 4,
            KeyCode::K5 => 5,
            KeyCode::K6 => 6,
            KeyCode::K7 => 7,
            KeyCode::K8 => 8,
            KeyCode::K9 => 9,
            KeyCode::KA => 10,
            KeyCode::KB => 11,
            KeyCode::KC => 12,
            KeyCode::KD => 13,
            KeyCode::KE => 14,
            KeyCode::KF => 15,
        }
    }

    /// The key's number, `0`..`15`.
    pub fn index(self) -> (r: u8)
        ensures
            r == self.spec_number(),
            r < KEYCODE_SIZE,
    {
        match self {
            KeyCode::K0 => 0,
            KeyCode::K1 => 1,
            KeyCode::K2 => 2,
            KeyCode::K3 => 3,
            KeyCode::K4 => 4,
            KeyCode::K5 => 5,
            KeyCode::K6 => 6,
            KeyCode::K7 => 7,
            KeyCode::K8 => 8,
            KeyCode::K9 => 9,
            KeyCode::KA => 10,
            KeyCode::KB => 11,
            KeyCode::KC => 12,
            KeyCode::KD => 13,
            KeyCode::KE => 14,
            KeyCode::KF => 15,
        }
    }

    /// The key numbered `value`, if `value` is below 16.
    pub fn try_from_u8(value: u8) -> (r: Option<KeyCode>)
        ensures
            value < KEYCODE_SIZE <==> r is Some,
            r matches Some(k) ==> k.spec_number() == value,
    {
        match value {
            0 => Some(KeyCode::K0),
            1 => Some(KeyCode::K1),
            2 => Some(KeyCode::K2),
            3 => Some(KeyCode::K3),
            4 => Some(KeyCode::K4),
            5 => Some(KeyCode::K5),
            6 => Some(KeyCode::K6),
            7 => Some(KeyCode::K7),
            8 => Some(KeyCode::K8),
            9 => Some(KeyCode::K9),
            10 => Some(KeyCode::KA),
            11 => Some(KeyCode::KB),
            12 => Some(KeyCode::KC),
            13 => Some(KeyCode::KD),
            14 => Some(KeyCode::KE),
            15 => Some(KeyCode::KF),
            _ => None,
        }
    }
}

/// Which keys are down.
pub struct KeyState([bool; KEYCODE_SIZE]);

impl View for KeyState {
    type V = Seq<bool>;

    /// Entry `k` tells whether key `k` is down.
    closed spec fn view(&self) -> Seq<bool> {
        self.0@
    }
}

/// The lowest-numbered key that is down, if any.
pub open spec fn lowest_down(keys: Seq<bool>) -> Option<u8> {
    if exists|k: int| 0 <= k < keys.len() && keys[k] {
        let k = choose|k: int| 0 <= k < keys.len() && keys[k] && forall|j: int| 0 <= j < k ==> !keys[j];
        Some(k as u8)
    } else {
        None
    }
}

impl KeyState {
    pub broadcast proof fn lemma_len(s: &KeyState)
        ensures
            #[trigger] s@.len() == KEYCODE_SIZE,
    {
    }

    /// No key is down.
    pub fn new() -> (r: Self)
        ensures
            r@ == Seq::new(KEYCODE_SIZE as nat, |i: int| false),
    {
        let r = Self([false; KEYCODE_SIZE]);
        assert(r@ =~= Seq::new(KEYCODE_SIZE as nat, |i: int| false));
        r
    }

    /// Releases every key.
    pub fn reset(&mut self)
        ensures
            final(self)@ == Seq::new(KEYCODE_SIZE as nat, |i: int| false),
    {
        self.0 = [false; KEYCODE_SIZE];
        assert(self@ =~= Seq::new(KEYCODE_SIZE as nat, |i: int| false));
    }

    /// Marks key `kc` as down or up.
    pub fn set(&mut self, kc: KeyCode, pressed: bool)
        ensures
            final(self)@ == old(self)@.update(kc.spec_number() as int, pressed),
    {
        let k = kc.index();
        self.0[k as usize] = pressed;
    }

    /// The lowest-numbered key that is down, or `None` if none is.
    pub fn any(&self) -> (r: Option<u8>)
        ensures
            r == lowest_down(self@),
            r matches Some(k) ==> k < KEYCODE_SIZE && self@[k as int] && forall|j: int| 0 <= j < k ==> !self@[j],
            r is None <==> forall|k: int| 0 <= k < KEYCODE_SIZE ==> !self@[k],
    {
        let mut k: usize = 0;
        while k < KEYCODE_SIZE
            invariant
                k <= KEYCODE_SIZE,
                forall|j: int| 0 <= j < k ==> !self@[j],
            decreases KEYCODE_SIZE - k,
        {
            if self.0[k] {
                let ghost keys = self@;
                assert(forall|j: int| 0 <= j < k ==> !keys[j]);
                let ghost c = choose|c: int| 0 <= c < keys.len() && keys[c] && forall|j: int| 0 <= j < c ==> !keys[j];
                assert(c == k as int) by {
                    if c < k as int {
                    } else if c > k as int {
                        assert(!keys[k as int]);
                    }
                }
                return Some(k as u8);
            }
            k += 1;
        }
        None
    }

    /// Whether key `x` is down.
    pub fn key_down(&self, x: u8) -> (r: bool)
        requires
            x < KEYCODE_SIZE,
        ensures
            r == self@[x as int],
    {
        self.0[x as usize]
    }
}

} // verus!
