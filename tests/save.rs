use frlgrse_sav::pk3::{Pokemon, PK3_SIZE};
use frlgrse_sav::save::{ERASED_COUNTER, SAVE_B_OFFSET};
use frlgrse_sav::{
    determine_latest_game_save, get_team_pokemon, validate_game_save, GameSave, SaveError, Section,
    Species, GAME_SAVE_DATA_LENGTH,
};

const SLOT_B: usize = 0xE000;
const COUNTER_AT: usize = 0x0FFC;
const TEAM_SIZE_AT: usize = 0x1000 + 0x34;

fn put_u16(buf: &mut [u8], at: usize, v: u16) {
    buf[at..at + 2].copy_from_slice(&v.to_le_bytes());
}

fn put_u32(buf: &mut [u8], at: usize, v: u32) {
    buf[at..at + 4].copy_from_slice(&v.to_le_bytes());
}

fn image(counter_a: u32, counter_b: u32) -> Vec<u8> {
    let mut img = vec![0u8; GAME_SAVE_DATA_LENGTH];
    put_u32(&mut img, COUNTER_AT, counter_a);
    put_u32(&mut img, SLOT_B + COUNTER_AT, counter_b);
    img
}

fn plain_record(pv: u32, tid: u32, species: u16, level: u8) -> [u8; PK3_SIZE] {
    let mut d = [0u8; PK3_SIZE];
    put_u32(&mut d, 0, pv);
    put_u32(&mut d, 4, tid);
    put_u16(&mut d, 18, 0x0202);
    put_u16(&mut d, 32, species);
    d[84] = level;
    d
}

/// Stores a plain record as the game does: sub-block `b` at `offsets[b]`,
/// then the key XORed over the payload.
fn obfuscate(plain: &[u8; PK3_SIZE], offsets: [usize; 4]) -> [u8; PK3_SIZE] {
    let mut out = *plain;
    for b in 0..4 {
        out[offsets[b]..offsets[b] + 12].copy_from_slice(&plain[32 + 12 * b..44 + 12 * b]);
    }
    let pv = u32::from_le_bytes([plain[0], plain[1], plain[2], plain[3]]);
    let tid = u32::from_le_bytes([plain[4], plain[5], plain[6], plain[7]]);
    let key = (pv ^ tid).to_le_bytes();
    for i in 32..80 {
        out[i] ^= key[(i - 32) % 4];
    }
    out
}

fn put_party(img: &mut [u8], slot: usize, members: &[[u8; PK3_SIZE]]) {
    put_u32(img, slot + TEAM_SIZE_AT, members.len() as u32);
    for (i, m) in members.iter().enumerate() {
        let at = slot + TEAM_SIZE_AT + 4 + PK3_SIZE * i;
        img[at..at + PK3_SIZE].copy_from_slice(m);
    }
}

/// A two-member party in slot B (the newer one): a Squirtle, then a Pidgey,
/// both stored obfuscated; slot A holds an older party of one.
fn two_member_save() -> Vec<u8> {
    let mut img = image(11, 12);
    let squirtle = plain_record(2368673094, 1798070812, 7, 7);
    let pidgey = plain_record(1000, 54321, 16, 5);
    put_party(
        &mut img,
        SLOT_B,
        &[obfuscate(&squirtle, [44, 32, 56, 68]), obfuscate(&pidgey, [56, 68, 32, 44])],
    );
    put_party(&mut img, 0, &[obfuscate(&pidgey, [56, 68, 32, 44])]);
    img
}

#[test]
fn verify_parsing_party_size() {
    let save = validate_game_save(two_member_save()).unwrap();
    assert_eq!(save.len(), GAME_SAVE_DATA_LENGTH);
    let team = get_team_pokemon(&save).unwrap();
    assert_eq!(team.len(), 2);
}

#[test]
fn verify_parsing_party() {
    let save = validate_game_save(two_member_save()).unwrap();
    let team = get_team_pokemon(&save).unwrap();
    assert_eq!(team.len(), 2);

    let team: Vec<_> = team
        .into_iter()
        .map(|data| {
            let data: [u8; PK3_SIZE] = data[..PK3_SIZE].try_into().unwrap();
            Pokemon::from_bytes_with_encryption(&data).unwrap()
        })
        .collect();
    assert_eq!(team[0].species, Species::Squirtle);
    assert_eq!(team[1].species, Species::Pidgey);
    assert_eq!(team[0].level, 7);
    assert_eq!(team[1].level, 5);
}

#[test]
fn party_records_are_copied_verbatim() {
    let save = two_member_save();
    let team = get_team_pokemon(&save).unwrap();
    let first = SLOT_B + TEAM_SIZE_AT + 4;
    assert_eq!(team[0], save[first..first + PK3_SIZE].to_vec());
    assert_eq!(team[1], save[first + PK3_SIZE..first + 2 * PK3_SIZE].to_vec());
}

#[test]
fn larger_counter_a_wins() {
    assert_eq!(determine_latest_game_save(&image(5, 4)), GameSave::A);
    assert_eq!(determine_latest_game_save(&image(0xFFFF_FFFE, 0)), GameSave::A);
}

#[test]
fn selection_is_stable() {
    let img = image(9, 3);
    let first = determine_latest_game_save(&img);
    assert_eq!(determine_latest_game_save(&img), first);
    assert_eq!(determine_latest_game_save(&img), GameSave::A);
}

#[test]
fn equal_or_smaller_counter_a_loses() {
    assert_eq!(determine_latest_game_save(&image(4, 4)), GameSave::B);
    assert_eq!(determine_latest_game_save(&image(3, 4)), GameSave::B);
}

#[test]
fn erased_a_selects_b() {
    assert_eq!(determine_latest_game_save(&image(ERASED_COUNTER, 0)), GameSave::B);
    assert_eq!(determine_latest_game_save(&image(ERASED_COUNTER, 7)), GameSave::B);
    assert_eq!(determine_latest_game_save(&image(ERASED_COUNTER, ERASED_COUNTER)), GameSave::B);
}

#[test]
fn erased_b_selects_a() {
    assert_eq!(determine_latest_game_save(&image(0, ERASED_COUNTER)), GameSave::A);
    assert_eq!(determine_latest_game_save(&image(3, ERASED_COUNTER)), GameSave::A);
}

#[test]
fn empty_party_is_empty() {
    let img = image(1, 0);
    assert_eq!(get_team_pokemon(&img), Ok(vec![]));
}

#[test]
fn party_read_from_slot_a_when_newer() {
    let mut img = image(2, 1);
    let rec = plain_record(1, 2, 16, 3);
    put_party(&mut img, 0, &[rec; 6]);
    let team = get_team_pokemon(&img).unwrap();
    assert_eq!(team.len(), 6);
    for m in &team {
        assert_eq!(m, &rec.to_vec());
    }
}

#[test]
fn oversized_party_is_malformed() {
    let mut img = image(2, 1);
    put_u32(&mut img, TEAM_SIZE_AT, 7);
    assert_eq!(get_team_pokemon(&img), Err(SaveError::MalformedSave));
    put_u32(&mut img, TEAM_SIZE_AT, 0xFFFF_FFFF);
    assert_eq!(get_team_pokemon(&img), Err(SaveError::MalformedSave));
}

#[test]
fn wrong_image_size_is_rejected() {
    assert_eq!(get_team_pokemon(&vec![0u8; 100]), Err(SaveError::InvalidImageSize));
    assert_eq!(validate_game_save(vec![0u8; GAME_SAVE_DATA_LENGTH - 1]), Err(SaveError::InvalidImageSize));
    assert_eq!(validate_game_save(vec![0u8; GAME_SAVE_DATA_LENGTH + 1]), Err(SaveError::InvalidImageSize));
    assert_eq!(validate_game_save(vec![]), Err(SaveError::InvalidImageSize));
    assert!(validate_game_save(vec![0u8; GAME_SAVE_DATA_LENGTH]).is_ok());
}

#[test]
fn slot_offsets_and_sections() {
    assert_eq!(GameSave::A.offset(), 0);
    assert_eq!(GameSave::B.offset(), SAVE_B_OFFSET);
    assert_eq!(Section::TrainerInfo.ordinal(), 0);
    assert_eq!(Section::TeamAndItems.ordinal(), 1);
    assert_eq!(Section::PCBufferI.ordinal(), 13);
}
