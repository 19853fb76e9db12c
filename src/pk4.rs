//! Fourth-generation creature records, of which only the species is read.
use vstd::prelude::*;

use crate::bytes::{le_u16, read_u16_le};

verus! {

/// Length in bytes of one record.
pub const PK4_SIZE: usize = 136;

/// Offset of the species number within a record.
pub const PK4_SPECIES_OFFSET: usize = 8;

/// A decoded fourth-generation record.
#[derive(Debug)]
pub struct Pokemon {
    pub species: u16,
}

impl Pokemon {
    /// Decodes a record; the species number is read as stored, so this
    /// always succeeds.
    pub fn from_bytes(data: &[u8; PK4_SIZE]) -> (r: Option<Self>)
        ensures
            r matches Some(p) && p.species == le_u16(data@, PK4_SPECIES_OFFSET as int),
    {
        let species = read_u16_le(data, PK4_SPECIES_OFFSET);
        Some(Pokemon { species })
    }
}

} // verus!
