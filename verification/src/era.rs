//! Ledger eras and the numbers that stand for them on the wire.

use vstd::prelude::*;

verus! {

/// The ledger era a payload belongs to.
#[derive(Clone, Copy, Debug, PartialEq, Eq, Structural)]
pub enum EraTag {
    Byron,
    Shelley,
    Allegra,
    Mary,
    Alonzo,
    Babbage,
    Conway,
}

impl EraTag {
    /// The number that tags a payload of this era: eras count up from 0.
    pub open spec fn spec_code(self) -> u16 {
        match self {
            EraTag::Byron => 0,
            EraTag::Shelley => 1,
            EraTag::Allegra => 2,
            EraTag::Mary => 3,
            EraTag::Alonzo => 4,
            EraTag::Babbage => 5,
            EraTag::Conway => 6,
        }
    }

    /// The era that a number tags, if any.
    pub open spec fn spec_from_code(code: u16) -> Option<EraTag> {
        if code == 0 {
            Some(EraTag::Byron)
        } else if code == 1 {
            Some(EraTag::Shelley)
        } else if code == 2 {
            Some(EraTag::Allegra)
        } else if code == 3 {
            Some(EraTag::Mary)
        } else if code == 4 {
            Some(EraTag::Alonzo)
        } else if code == 5 {
            Some(EraTag::Babbage)
        } else if code == 6 {
            Some(EraTag::Conway)
        } else {
            None
        }
    }

    pub fn code(self) -> (c: u16)
        ensures
            c == self.spec_code(),
    {
        match self {
            EraTag::Byron => 0,
            EraTag::Shelley => 1,
            EraTag::Allegra => 2,
            EraTag::Mary => 3,
            EraTag::Alonzo => 4,
            EraTag::Babbage => 5,
            EraTag::Conway => 6,
        }
    }

    pub fn from_code(code: u16) -> (r: Option<EraTag>)
        ensures
            r == Self::spec_from_code(code),
    {
        match code {
            0 => Some(EraTag::Byron),
            1 => Some(EraTag::Shelley),
            2 => Some(EraTag::Allegra),
            3 => Some(EraTag::Mary),
            4 => Some(EraTag::Alonzo),
            5 => Some(EraTag::Babbage),
            6 => Some(EraTag::Conway),
            _ => None,
        }
    }
}

/// Every era is found again from its number, and a number that tags an era
/// is that era's number.
pub proof fn era_code_round_trip(era: EraTag, code: u16)
    ensures
        EraTag::spec_from_code(era.spec_code()) == Some(era),
        EraTag::spec_from_code(code) matches Some(e) ==> e.spec_code() == code,
        EraTag::spec_from_code(code) is Some <==> code <= 6,
{
}

} // verus!
