use frlgrse_sav::pk4::{Pokemon, PK4_SIZE};

#[test]
fn pk4_verify_species() {
    let mut data = [0u8; PK4_SIZE];
    data[0..4].copy_from_slice(&0xDEAD_BEEFu32.to_le_bytes());
    data[8..10].copy_from_slice(&7u16.to_le_bytes());
    let pkmn = Pokemon::from_bytes(&data).unwrap();
    assert_eq!(pkmn.species, 7);
}

#[test]
fn pk4_reads_both_species_bytes() {
    let mut data = [0u8; PK4_SIZE];
    data[8] = 0x85;
    data[9] = 0x01;
    assert_eq!(Pokemon::from_bytes(&data).unwrap().species, 0x0185);
}
