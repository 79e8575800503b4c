//! The five personality stats of a pet, each in the range 0..=20.

use vstd::prelude::*;

verus! {

/// Personality stats; every stat lies in `0..=20`.
#[derive(Debug, Clone, Copy, PartialEq, Eq, Structural)]
pub struct PersonalityStats {
    pub debugging: u8,
    pub patience: u8,
    pub chaos: u8,
    pub wisdom: u8,
    pub snark: u8,
}

/// `v` capped at 20.
pub open spec fn cap20(v: u8) -> u8 {
    if v < 20 {
        v
    } else {
        20
    }
}

impl PersonalityStats {
    /// Whether every stat lies in `0..=20`.
    pub open spec fn in_range(self) -> bool {
        &&& self.debugging <= 20
        &&& self.patience <= 20
        &&& self.chaos <= 20
        &&& self.wisdom <= 20
        &&& self.snark <= 20
    }

    /// Builds stats, capping each value at 20.
    pub fn new(debugging: u8, patience: u8, chaos: u8, wisdom: u8, snark: u8) -> (s: Self)
        ensures
            s.debugging == cap20(debugging),
            s.patience == cap20(patience),
            s.chaos == cap20(chaos),
            s.wisdom == cap20(wisdom),
            s.snark == cap20(snark),
            s.in_range(),
    {
        PersonalityStats {
            debugging: if debugging < 20 { debugging } else { 20 },
            patience: if patience < 20 { patience } else { 20 },
            chaos: if chaos < 20 { chaos } else { 20 },
            wisdom: if wisdom < 20 { wisdom } else { 20 },
            snark: if snark < 20 { snark } else { 20 },
        }
    }

    /// The stats that `derive_from_seed` gives for the bytes `b`.
    pub open spec fn from_seed_spec(b: Seq<u8>) -> Self {
        PersonalityStats {
            debugging: (b[0] % 21) as u8,
            patience: (b[1] % 21) as u8,
            chaos: (b[2] % 21) as u8,
            wisdom: (b[3] % 21) as u8,
            snark: (b[4] % 21) as u8,
        }
    }

    /// Derive stats deterministically from seed bytes: stat `i` is
    /// `bytes[i] % 21`.
    pub fn derive_from_seed(bytes: &[u8]) -> (s: Self)
        requires
            bytes@.len() >= 5,
        ensures
            s == Self::from_seed_spec(bytes@),
            s.in_range(),
    {
        Self::new(bytes[0] % 21, bytes[1] % 21, bytes[2] % 21, bytes[3] % 21, bytes[4] % 21)
    }
}

} // verus!
