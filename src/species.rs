//! Creature species known to this library, by their national number.
use vstd::prelude::*;

verus! {

/// A creature species.
#[derive(Clone, Copy, Debug, PartialEq, Eq, Structural)]
pub enum Species {
    Squirtle,
    Pidgey,
}

/// The species whose national number is `code`, if it is a known one.
pub open spec fn species_from_code(code: u16) -> Option<Species> {
    if code == 7 {
        Some(Species::Squirtle)
    } else if code == 16 {
        Some(Species::Pidgey)
    } else {
        None
    }
}

impl Species {
    pub open spec fn spec_code(self) -> u16 {
        match self {
            Species::Squirtle => 7,
            Species::Pidgey => 16,
        }
    }

    pub open spec fn spec_name(self) -> Seq<char> {
        match self {
            Species::Squirtle => "Squirtle"@,
            Species::Pidgey => "Pidgey"@,
        }
    }

    /// The species with national number `code`, or `None` for an unknown one.
    pub fn from_u16(code: u16) -> (r: Option<Species>)
        ensures
            r == species_from_code(code),
    {
        if code == 7 {
            Some(Species::Squirtle)
        } else if code == 16 {
            Some(Species::Pidgey)
        } else {
            None
        }
    }

    /// National number of the species.
    pub fn code(&self) -> (r: u16)
        ensures
            r == self.spec_code(),
            species_from_code(r) == Some(*self),
    {
        match self {
            Species::Squirtle => 7,
            Species::Pidgey => 16,
        }
    }

    /// Display name of the species.
    pub fn name(&self) -> (r: String)
        ensures
            r@ == self.spec_name(),
    {
        match self {
            Species::Squirtle => "Squirtle".to_owned(),
            Species::Pidgey => "Pidgey".to_owned(),
        }
    }
}

} // verus!
