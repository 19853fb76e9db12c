//! Third-generation creature records: the cipher over their payload and the
//! decoding of their fields.
use vstd::prelude::*;

use crate::bytes::{le_u16, le_u32, read_u16_le, read_u32_le, u32_from_le};
use crate::species::{species_from_code, Species};

verus! {

/// Length in bytes of one record.
pub const PK3_SIZE: usize = 100;

/// First byte of the obfuscated payload.
pub const PAYLOAD_START: usize = 32;

/// One past the last byte of the obfuscated payload.
pub const PAYLOAD_END: usize = 80;

/// Length in bytes of one of the four sub-blocks of the payload.
pub const SUB_BLOCK_SIZE: usize = 12;

/// Number of distinct sub-block orderings.
pub const ORDER_COUNT: u32 = 24;

/// Where the growth sub-block is stored, for each ordering.
pub open spec fn growth_offset(order: u32) -> usize {
    if order <= 5 {
        32
    } else if order == 6 || order == 7 || order == 12 || order == 13 || order == 18 || order == 19 {
        44
    } else if order == 8 || order == 10 || order == 14 || order == 16 || order == 20 || order == 22 {
        56
    } else {
        68
    }
}

/// Where the attack sub-block is stored, for each ordering.
pub open spec fn attack_offset(order: u32) -> usize {
    if 6 <= order <= 11 {
        32
    } else if order == 0 || order == 1 || order == 14 || order == 15 || order == 20 || order == 21 {
        44
    } else if order == 2 || order == 4 || order == 12 || order == 17 || order == 18 || order == 23 {
        56
    } else {
        68
    }
}

/// Where the condition sub-block is stored, for each ordering.
pub open spec fn condition_offset(order: u32) -> usize {
    if 12 <= order <= 17 {
        32
    } else if order == 2 || order == 3 || order == 8 || order == 9 || order == 22 || order == 23 {
        44
    } else if order == 0 || order == 5 || order == 6 || order == 11 || order == 19 || order == 21 {
        56
    } else {
        68
    }
}

/// Where the miscellaneous sub-block is stored, for each ordering.
pub open spec fn misc_offset(order: u32) -> usize {
    if 18 <= order {
        32
    } else if order == 4 || order == 5 || order == 10 || order == 11 || order == 16 || order == 17 {
        44
    } else if order == 1 || order == 3 || order == 7 || order == 9 || order == 13 || order == 15 {
        56
    } else {
        68
    }
}

/// Where sub-block `block` (growth, attack, condition, miscellaneous: 0 to 3)
/// is stored under ordering `order`.
pub open spec fn sub_block_offset(block: int, order: u32) -> usize {
    if block == 0 {
        growth_offset(order)
    } else if block == 1 {
        attack_offset(order)
    } else if block == 2 {
        condition_offset(order)
    } else {
        misc_offset(order)
    }
}

/// Personality value of a record.
pub open spec fn personality_of(raw: Seq<u8>) -> u32 {
    le_u32(raw, 0)
}

/// Original-trainer ID of a record.
pub open spec fn trainer_id_of(raw: Seq<u8>) -> u32 {
    le_u32(raw, 4)
}

/// The payload's XOR key: personality value xor trainer ID.
pub open spec fn payload_key(raw: Seq<u8>) -> u32 {
    personality_of(raw) ^ trainer_id_of(raw)
}

/// The key's little-endian bytes.
pub open spec fn key_bytes(key: u32) -> Seq<u8> {
    seq![
        (key & 0xff) as u8,
        ((key >> 8u32) & 0xff) as u8,
        ((key >> 16u32) & 0xff) as u8,
        ((key >> 24u32) & 0xff) as u8,
    ]
}

/// Which of the 24 orderings the payload of a record is stored in.
pub open spec fn order_index(raw: Seq<u8>) -> u32 {
    personality_of(raw) % ORDER_COUNT
}

/// The byte at payload position `p` once the key is XORed over the payload,
/// the key repeating every four bytes from the payload's start.
pub open spec fn unmasked(raw: Seq<u8>, p: int) -> u8 {
    raw[p] ^ key_bytes(payload_key(raw))[(p - PAYLOAD_START) % 4]
}

/// A record with its payload unmasked and its sub-blocks put back in
/// growth, attack, condition, miscellaneous order; other bytes unchanged.
pub open spec fn decrypted(raw: Seq<u8>) -> Seq<u8> {
    Seq::new(
        raw.len(),
        |i: int|
            if PAYLOAD_START <= i < PAYLOAD_END {
                let j = i - PAYLOAD_START;
                unmasked(
                    raw,
                    sub_block_offset(j / SUB_BLOCK_SIZE as int, order_index(raw)) + j
                        % SUB_BLOCK_SIZE as int,
                )
            } else {
                raw[i]
            },
    )
}

/// Physical offset of sub-block `block` under ordering `order`.
fn stored_offset(block: usize, order: u32) -> (r: usize)
    requires
        block < 4,
    ensures
        r == sub_block_offset(block as int, order),
        r == 32 || r == 44 || r == 56 || r == 68,
{
    if block == 0 {
        if order <= 5 {
            32
        } else if order == 6 || order == 7 || order == 12 || order == 13 || order == 18 || order
            == 19 {
            44
        } else if order == 8 || order == 10 || order == 14 || order == 16 || order == 20 || order
            == 22 {
            56
        } else {
            68
        }
    } else if block == 1 {
        if 6 <= order && order <= 11 {
            32
        } else if order == 0 || order == 1 || order == 14 || order == 15 || order == 20 || order
            == 21 {
            44
        } else if order == 2 || order == 4 || order == 12 || order == 17 || order == 18 || order
            == 23 {
            56
        } else {
            68
        }
    } else if block == 2 {
        if 12 <= order && order <= 17 {
            32
        } else if order == 2 || order == 3 || order == 8 || order == 9 || order == 22 || order
            == 23 {
            44
        } else if order == 0 || order == 5 || order == 6 || order == 11 || order == 19 || order
            == 21 {
            56
        } else {
            68
        }
    } else {
        if 18 <= order {
            32
        } else if order == 4 || order == 5 || order == 10 || order == 11 || order == 16 || order
            == 17 {
            44
        } else if order == 1 || order == 3 || order == 7 || order == 9 || order == 13 || order
            == 15 {
            56
        } else {
            68
        }
    }
}

/// Reverses the game's obfuscation of a record's payload, in place: XORs the
/// key over the payload and restores the canonical sub-block order. Applying
/// it to a record that is not obfuscated yields meaningless payload bytes.
pub fn decrypt_pokemon(pk3_data: &mut Vec<u8>)
    requires
        old(pk3_data)@.len() == PK3_SIZE,
    ensures
        final(pk3_data)@ == decrypted(old(pk3_data)@),
{
    let ghost raw = pk3_data@;
    let personality_value = read_u32_le(pk3_data.as_slice(), 0);
    let original_trainer_id = read_u32_le(pk3_data.as_slice(), 4);
    let decryption_key = personality_value ^ original_trainer_id;
    let decryption_key_buf: [u8; 4] = [
        (decryption_key & 0xff) as u8,
        ((decryption_key >> 8u32) & 0xff) as u8,
        ((decryption_key >> 16u32) & 0xff) as u8,
        ((decryption_key >> 24u32) & 0xff) as u8,
    ];
    assert(decryption_key_buf@ =~= key_bytes(payload_key(raw)));
    let order = personality_value % ORDER_COUNT;

    let mut rearranged_data: Vec<u8> = Vec::with_capacity(PAYLOAD_END - PAYLOAD_START);
    let mut t: usize = 0;
    while t < PAYLOAD_END - PAYLOAD_START
        invariant
            pk3_data@ == raw,
            raw.len() == PK3_SIZE,
            order == order_index(raw),
            decryption_key_buf@ == key_bytes(payload_key(raw)),
            t <= PAYLOAD_END - PAYLOAD_START,
            rearranged_data@.len() == t,
            forall|s: int|
                0 <= s < t ==> #[trigger] rearranged_data@[s] == unmasked(
                    raw,
                    sub_block_offset(s / SUB_BLOCK_SIZE as int, order) + s % SUB_BLOCK_SIZE as int,
                ),
        decreases PAYLOAD_END - PAYLOAD_START - t,
    {
        let src = stored_offset(t / SUB_BLOCK_SIZE, order) + t % SUB_BLOCK_SIZE;
        rearranged_data.push(pk3_data[src] ^ decryption_key_buf[(src - PAYLOAD_START) % 4]);
        t += 1;
    }

    let mut t: usize = 0;
    while t < PAYLOAD_END - PAYLOAD_START
        invariant
            raw.len() == PK3_SIZE,
            pk3_data@.len() == PK3_SIZE,
            rearranged_data@.len() == PAYLOAD_END - PAYLOAD_START,
            t <= PAYLOAD_END - PAYLOAD_START,
            forall|p: int|
                PAYLOAD_START <= p < PAYLOAD_START + t ==> #[trigger] pk3_data@[p]
                    == rearranged_data@[p - PAYLOAD_START],
            forall|p: int|
                0 <= p < PK3_SIZE && !(PAYLOAD_START <= p < PAYLOAD_START + t) ==> #[trigger] pk3_data@[p]
                    == raw[p],
        decreases PAYLOAD_END - PAYLOAD_START - t,
    {
        pk3_data[PAYLOAD_START + t] = rearranged_data[t];
        t += 1;
    }
    assert(pk3_data@ =~= decrypted(raw));
}

/// An owned copy of a record.
fn copy_record(data: &[u8; PK3_SIZE]) -> (r: Vec<u8>)
    ensures
        r@ == data@,
{
    let mut out: Vec<u8> = Vec::with_capacity(PK3_SIZE);
    let mut i: usize = 0;
    while i < PK3_SIZE
        invariant
            i <= PK3_SIZE,
            out@ == data@.subrange(0, i as int),
        decreases PK3_SIZE - i,
    {
        out.push(data[i]);
        i += 1;
        assert(out@ =~= data@.subrange(0, i as int));
    }
    assert(out@ =~= data@);
    out
}

/// A decrypted copy of a stored record; the stored record is left as it is.
pub fn decrypt(raw: &[u8; PK3_SIZE]) -> (r: Vec<u8>)
    ensures
        r@ == decrypted(raw@),
{
    let mut out = copy_record(raw);
    decrypt_pokemon(&mut out);
    out
}

/// Effort values, one per stat.
#[derive(Clone, Copy, Debug, PartialEq, Eq, Structural)]
pub struct Stats {
    pub hp: u16,
    pub attack: u16,
    pub defense: u16,
    pub speed: u16,
    pub special_attack: u16,
    pub special_defense: u16,
}

/// Contest condition values.
#[derive(Clone, Copy, Debug, PartialEq, Eq, Structural)]
pub struct ContestStats {
    pub coolness: u8,
    pub beauty: u8,
    pub cuteness: u8,
    pub smartness: u8,
    pub toughness: u8,
    pub feel: u8,
}

/// Pokérus infection state: strain in the high nibble of its byte, days left
/// in the low nibble.
#[derive(Clone, Copy, Debug, PartialEq, Eq, Structural)]
pub struct PokerusStatus {
    pub days_left: u8,
    pub strain: u8,
}

/// A held item, by its nonzero item code.
#[derive(Clone, Copy, Debug, PartialEq, Eq, Structural)]
pub struct HeldItem {
    pub code: u16,
}

/// Language a creature was caught in.
#[derive(Clone, Copy, Debug, PartialEq, Eq, Structural)]
pub enum Language {
    Japanese,
    English,
    French,
    Italian,
    German,
    Korean,
    Spanish,
}

/// The language whose code is `code`, if it is a known one.
pub open spec fn language_from_code(code: u16) -> Option<Language> {
    if code == 0x0201 {
        Some(Language::Japanese)
    } else if code == 0x0202 {
        Some(Language::English)
    } else if code == 0x0203 {
        Some(Language::French)
    } else if code == 0x0204 {
        Some(Language::Italian)
    } else if code == 0x0205 {
        Some(Language::German)
    } else if code == 0x0206 {
        Some(Language::Korean)
    } else if code == 0x0207 {
        Some(Language::Spanish)
    } else {
        None
    }
}

impl Language {
    pub open spec fn spec_code(self) -> u16 {
        match self {
            Language::Japanese => 0x0201,
            Language::English => 0x0202,
            Language::French => 0x0203,
            Language::Italian => 0x0204,
            Language::German => 0x0205,
            Language::Korean => 0x0206,
            Language::Spanish => 0x0207,
        }
    }

    /// The language with code `code`, or `None` for an unknown one.
    pub fn from_u16(code: u16) -> (r: Option<Language>)
        ensures
            r == language_from_code(code),
    {
        if code == 0x0201 {
            Some(Language::Japanese)
        } else if code == 0x0202 {
            Some(Language::English)
        } else if code == 0x0203 {
            Some(Language::French)
        } else if code == 0x0204 {
            Some(Language::Italian)
        } else if code == 0x0205 {
            Some(Language::German)
        } else if code == 0x0206 {
            Some(Language::Korean)
        } else if code == 0x0207 {
            Some(Language::Spanish)
        } else {
            None
        }
    }

    /// Code of the language as stored in a record.
    pub fn code(&self) -> (r: u16)
        ensures
            r == self.spec_code(),
            language_from_code(r) == Some(*self),
    {
        match self {
            Language::Japanese => 0x0201,
            Language::English => 0x0202,
            Language::French => 0x0203,
            Language::Italian => 0x0204,
            Language::German => 0x0205,
            Language::Korean => 0x0206,
            Language::Spanish => 0x0207,
        }
    }
}

/// A decoded creature record.
#[derive(Debug)]
pub struct Pokemon {
    pub personality_value: u32,
    pub original_trainer_id: u32,
    pub nickname: [u8; 10],
    pub language: Language,
    pub original_trainer_name: [u8; 7],
    pub markings: u8,
    pub species: Species,
    pub level: u8,
    pub friendship: u8,
    pub experience: u32,
    pub pp_bonuses: u8,
    pub held_item: Option<HeldItem>,
    pub moves: [u16; 4],
    pub power_points: [u8; 4],
    pub effort_values: Stats,
    pub contest_stats: ContestStats,
    pub pokerus: PokerusStatus,
}

/// The held item of code `code`: none for 0.
pub open spec fn held_item_from_code(code: u16) -> Option<HeldItem> {
    if code == 0 {
        None
    } else {
        Some(HeldItem { code })
    }
}

/// The Pokérus state stored in byte `b`.
pub open spec fn pokerus_from_byte(b: u8) -> PokerusStatus {
    PokerusStatus { days_left: b & 0x0f, strain: (b & 0xf0) >> 4u8 }
}

/// Whether a plain record names a known species and a known language.
pub open spec fn is_decodable(d: Seq<u8>) -> bool {
    &&& species_from_code(le_u16(d, 32)) is Some
    &&& language_from_code(le_u16(d, 18)) is Some
}

/// Whether `p` holds the fields of the plain record `d`.
pub open spec fn decodes_to(d: Seq<u8>, p: Pokemon) -> bool {
    &&& p.personality_value == le_u32(d, 0)
    &&& p.original_trainer_id == le_u32(d, 4)
    &&& p.nickname@ == d.subrange(8, 18)
    &&& language_from_code(le_u16(d, 18)) == Some(p.language)
    &&& p.original_trainer_name@ == d.subrange(20, 27)
    &&& p.markings == d[27]
    &&& species_from_code(le_u16(d, 32)) == Some(p.species)
    &&& p.held_item == held_item_from_code(le_u16(d, 34))
    &&& p.experience == le_u32(d, 36)
    &&& p.pp_bonuses == d[40]
    &&& p.friendship == d[41]
    &&& p.moves@ == seq![le_u16(d, 44), le_u16(d, 46), le_u16(d, 48), le_u16(d, 50)]
    &&& p.power_points@ == d.subrange(52, 56)
    &&& p.effort_values == (Stats {
        hp: d[56] as u16,
        attack: d[57] as u16,
        defense: d[58] as u16,
        speed: d[59] as u16,
        special_attack: d[60] as u16,
        special_defense: d[61] as u16,
    })
    &&& p.contest_stats == (ContestStats {
        coolness: d[62],
        beauty: d[63],
        cuteness: d[64],
        smartness: d[65],
        toughness: d[66],
        feel: d[67],
    })
    &&& p.pokerus == pokerus_from_byte(d[68])
    &&& p.level == d[84]
}

/// The plain record a stored record stands for.
pub open spec fn plain_record(data: Seq<u8>, should_decrypt: bool) -> Seq<u8> {
    if should_decrypt {
        decrypted(data)
    } else {
        data
    }
}

impl Pokemon {
    /// Decodes a plain (not obfuscated) record; `None` when its species or
    /// its language is not a known one.
    pub fn from_bytes(data: &[u8; PK3_SIZE]) -> (r: Option<Self>)
        ensures
            r is Some <==> is_decodable(data@),
            r matches Some(p) ==> decodes_to(data@, p),
    {
        Self::from_bytes_impl(data, false)
    }

    /// Decodes a record whose payload is obfuscated as the game stores it;
    /// `None` when its species or its language is not a known one.
    pub fn from_bytes_with_encryption(data: &[u8; PK3_SIZE]) -> (r: Option<Self>)
        ensures
            r is Some <==> is_decodable(decrypted(data@)),
            r matches Some(p) ==> decodes_to(decrypted(data@), p),
    {
        Self::from_bytes_impl(data, true)
    }

    fn from_bytes_impl(data: &[u8; PK3_SIZE], should_decrypt: bool) -> (r: Option<Self>)
        ensures
            r is Some <==> is_decodable(plain_record(data@, should_decrypt)),
            r matches Some(p) ==> decodes_to(plain_record(data@, should_decrypt), p),
    {
        let vec_data = if should_decrypt {
            decrypt(data)
        } else {
            copy_record(data)
        };
        let ghost d = vec_data@;
        assert(d == plain_record(data@, should_decrypt));
        let buf = vec_data.as_slice();

        let personality_value = read_u32_le(buf, 0);
        let original_trainer_id = read_u32_le(buf, 4);
        let nickname: [u8; 10] = [
            buf[8],
            buf[9],
            buf[10],
            buf[11],
            buf[12],
            buf[13],
            buf[14],
            buf[15],
            buf[16],
            buf[17],
        ];
        assert(nickname@ =~= d.subrange(8, 18));
        let language = match Language::from_u16(read_u16_le(buf, 18)) {
            Some(language) => language,
            None => return None,
        };
        let original_trainer_name: [u8; 7] = [
            buf[20],
            buf[21],
            buf[22],
            buf[23],
            buf[24],
            buf[25],
            buf[26],
        ];
        assert(original_trainer_name@ =~= d.subrange(20, 27));
        let markings = buf[27];

        let species = match Species::from_u16(read_u16_le(buf, 32)) {
            Some(species) => species,
            None => return None,
        };
        let held_item = match read_u16_le(buf, 34) {
            0 => None,
            code => Some(HeldItem { code }),
        };
        let experience = read_u32_le(buf, 36);
        let pp_bonuses = buf[40];
        let friendship = buf[41];

        let moves: [u16; 4] = [
            read_u16_le(buf, 44),
            read_u16_le(buf, 46),
            read_u16_le(buf, 48),
            read_u16_le(buf, 50),
        ];
        assert(moves@ =~= seq![le_u16(d, 44), le_u16(d, 46), le_u16(d, 48), le_u16(d, 50)]);
        let power_points: [u8; 4] = [buf[52], buf[53], buf[54], buf[55]];
        assert(power_points@ =~= d.subrange(52, 56));

        let effort_values = Stats {
            hp: buf[56] as u16,
            attack: buf[57] as u16,
            defense: buf[58] as u16,
            speed: buf[59] as u16,
            special_attack: buf[60] as u16,
            special_defense: buf[61] as u16,
        };
        let contest_stats = ContestStats {
            coolness: buf[62],
            beauty: buf[63],
            cuteness: buf[64],
            smartness: buf[65],
            toughness: buf[66],
            feel: buf[67],
        };
        let pokerus_data = buf[68];
        let pokerus = PokerusStatus {
            days_left: pokerus_data & 0x0f,
            strain: (pokerus_data & 0xf0) >> 4u8,
        };
        let level = buf[84];

        Some(
            Pokemon {
                personality_value,
                original_trainer_id,
                nickname,
                language,
                original_trainer_name,
                markings,
                species,
                level,
                friendship,
                experience,
                pp_bonuses,
                held_item,
                moves,
                power_points,
                effort_values,
                contest_stats,
                pokerus,
            },
        )
    }
}

/// For every ordering, the four sub-blocks are stored at four distinct
/// offsets, which together are exactly the four payload slices.
pub proof fn lemma_orderings_are_permutations(order: u32)
    requires
        order < ORDER_COUNT,
    ensures
        forall|b1: int, b2: int|
            0 <= b1 < 4 && 0 <= b2 < 4 && b1 != b2 ==> #[trigger] sub_block_offset(b1, order)
                != #[trigger] sub_block_offset(b2, order),
        set![
            growth_offset(order),
            attack_offset(order),
            condition_offset(order),
            misc_offset(order),
        ] == set![32usize, 44usize, 56usize, 68usize],
{
    assert(set![
        growth_offset(order),
        attack_offset(order),
        condition_offset(order),
        misc_offset(order),
    ] =~= set![32usize, 44usize, 56usize, 68usize]);
}

/// Decryption is not an involution: some record is not given back by
/// decrypting it twice.
pub proof fn lemma_decrypt_not_involution()
    ensures
        exists|raw: Seq<u8>| raw.len() == PK3_SIZE && #[trigger] decrypted(decrypted(raw)) != raw,
{
    let raw = Seq::new(
        PK3_SIZE as nat,
        |i: int|
            if i == 0 || i == 4 {
                3u8
            } else if i == 44 {
                1u8
            } else {
                0u8
            },
    );
    assert(u32_from_le(3u8, 0u8, 0u8, 0u8) == 3u32) by (bit_vector);
    assert(3u32 ^ 3u32 == 0u32) by (bit_vector);
    assert(key_bytes(0u32) =~= seq![0u8, 0u8, 0u8, 0u8]) by {
        assert((0u32 & 0xff) == 0u32) by (bit_vector);
        assert(((0u32 >> 8u32) & 0xff) == 0u32) by (bit_vector);
        assert(((0u32 >> 16u32) & 0xff) == 0u32) by (bit_vector);
        assert(((0u32 >> 24u32) & 0xff) == 0u32) by (bit_vector);
    }
    assert(forall|b: u8| b ^ 0u8 == b) by (bit_vector);
    assert(personality_of(raw) == 3);
    assert(payload_key(raw) == 0);
    let once = decrypted(raw);
    assert(once[44] == 0u8);
    assert(once[56] == 1u8);
    assert(once.subrange(0, 8) =~= raw.subrange(0, 8));
    assert(personality_of(once) == 3);
    assert(payload_key(once) == 0);
    let twice = decrypted(once);
    assert(twice[68] == once[56]);
    assert(twice[68] != raw[68]);
}

} // verus!
