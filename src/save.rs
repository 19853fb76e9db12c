//! Save image layout: two slots of fourteen sections each, the choice of the
//! most recently written slot, and the party table of that slot.
use vstd::prelude::*;

use crate::bytes::{le_u32, read_u32_le};
use crate::pk3::PK3_SIZE;

verus! {

/// Length in bytes of a whole save image.
pub const GAME_SAVE_DATA_LENGTH: usize = 131072;

/// Offset of a slot's save counter, within the slot's first section.
pub const SAVE_INDEX_OFFSET: usize = 0x0FFC;

/// Offset of slot A in the image.
pub const SAVE_A_OFFSET: usize = 0x0000;

/// Offset of slot B in the image.
pub const SAVE_B_OFFSET: usize = 0xE000;

/// Length in bytes of one section.
pub const SECTION_SIZE: usize = 0x1000;

/// Offset of the party-size counter within the team section.
pub const TEAM_SIZE_OFFSET: usize = 0x0034;

/// Largest number of creatures a party holds.
pub const MAX_PARTY_SIZE: usize = 6;

/// Counter value of a slot that was never written.
pub const ERASED_COUNTER: u32 = 0xFFFF_FFFF;

/// One of the two save slots of an image.
#[derive(Clone, Copy, Debug, PartialEq, Eq, Structural)]
pub enum GameSave {
    A,
    B,
}

impl GameSave {
    pub open spec fn spec_offset(self) -> usize {
        match self {
            GameSave::A => SAVE_A_OFFSET,
            GameSave::B => SAVE_B_OFFSET,
        }
    }

    /// Byte offset of this slot in the image.
    pub fn offset(&self) -> (r: usize)
        ensures
            r == self.spec_offset(),
    {
        match self {
            GameSave::A => SAVE_A_OFFSET,
            GameSave::B => SAVE_B_OFFSET,
        }
    }
}

/// The sections of a slot, in their order within the slot.
#[derive(Clone, Copy, Debug, PartialEq, Eq, Structural)]
pub enum Section {
    TrainerInfo,
    TeamAndItems,
    GameState,
    MiscData,
    RivalInfo,
    PCBufferA,
    PCBufferB,
    PCBufferC,
    PCBufferD,
    PCBufferE,
    PCBufferF,
    PCBufferG,
    PCBufferH,
    PCBufferI,
}

impl Section {
    pub open spec fn spec_ordinal(self) -> usize {
        match self {
            Section::TrainerInfo => 0,
            Section::TeamAndItems => 1,
            Section::GameState => 2,
            Section::MiscData => 3,
            Section::RivalInfo => 4,
            Section::PCBufferA => 5,
            Section::PCBufferB => 6,
            Section::PCBufferC => 7,
            Section::PCBufferD => 8,
            Section::PCBufferE => 9,
            Section::PCBufferF => 10,
            Section::PCBufferG => 11,
            Section::PCBufferH => 12,
            Section::PCBufferI => 13,
        }
    }

    /// Position of this section within its slot, from 0 to 13.
    pub fn ordinal(&self) -> (r: usize)
        ensures
            r == self.spec_ordinal(),
            r < 14,
    {
        match self {
            Section::TrainerInfo => 0,
            Section::TeamAndItems => 1,
            Section::GameState => 2,
            Section::MiscData => 3,
            Section::RivalInfo => 4,
            Section::PCBufferA => 5,
            Section::PCBufferB => 6,
            Section::PCBufferC => 7,
            Section::PCBufferD => 8,
            Section::PCBufferE => 9,
            Section::PCBufferF => 10,
            Section::PCBufferG => 11,
            Section::PCBufferH => 12,
            Section::PCBufferI => 13,
        }
    }
}

/// Why a save image was rejected.
#[derive(Clone, Copy, Debug, PartialEq, Eq, Structural)]
pub enum SaveError {
    /// The image is not exactly `GAME_SAVE_DATA_LENGTH` bytes long.
    InvalidImageSize,
    /// The declared party size exceeds `MAX_PARTY_SIZE`.
    MalformedSave,
}

/// Save counter of slot A.
pub open spec fn counter_a(save: Seq<u8>) -> u32 {
    le_u32(save, (SAVE_A_OFFSET + SAVE_INDEX_OFFSET) as int)
}

/// Save counter of slot B.
pub open spec fn counter_b(save: Seq<u8>) -> u32 {
    le_u32(save, (SAVE_B_OFFSET + SAVE_INDEX_OFFSET) as int)
}

/// The most recently written slot, given both save counters: an erased
/// counter never wins, and otherwise the strictly larger counter names A.
pub open spec fn latest_slot(a: u32, b: u32) -> GameSave {
    if a == ERASED_COUNTER {
        GameSave::B
    } else if b == ERASED_COUNTER {
        GameSave::A
    } else if a > b {
        GameSave::A
    } else {
        GameSave::B
    }
}

/// The most recently written slot of a save image.
pub open spec fn latest_game_save(save: Seq<u8>) -> GameSave {
    latest_slot(counter_a(save), counter_b(save))
}

/// Offset of the party-size counter of the active slot.
pub open spec fn team_size_pos(save: Seq<u8>) -> int {
    latest_game_save(save).spec_offset() + SECTION_SIZE * Section::TeamAndItems.spec_ordinal()
        + TEAM_SIZE_OFFSET
}

/// Declared number of party members in the active slot.
pub open spec fn party_size(save: Seq<u8>) -> u32 {
    le_u32(save, team_size_pos(save))
}

/// The `i`-th raw record of the party table of the active slot.
pub open spec fn party_record(save: Seq<u8>, i: int) -> Seq<u8> {
    let start = team_size_pos(save) + 4 + PK3_SIZE * i;
    save.subrange(start, start + PK3_SIZE)
}

/// Whether `team` holds exactly the declared party records of `save`, in order.
pub open spec fn is_party_of(team: Seq<Vec<u8>>, save: Seq<u8>) -> bool {
    &&& team.len() == party_size(save)
    &&& forall|i: int| 0 <= i < team.len() ==> #[trigger] team[i]@ == party_record(save, i)
}

/// Accepts a loaded image exactly when its length is that of a save image.
pub fn validate_game_save(contents: Vec<u8>) -> (r: Result<Vec<u8>, SaveError>)
    ensures
        contents@.len() == GAME_SAVE_DATA_LENGTH ==> (r matches Ok(v) && v@ == contents@),
        contents@.len() != GAME_SAVE_DATA_LENGTH ==> r == Err::<Vec<u8>, SaveError>(
            SaveError::InvalidImageSize,
        ),
{
    if contents.len() == GAME_SAVE_DATA_LENGTH {
        Ok(contents)
    } else {
        Err(SaveError::InvalidImageSize)
    }
}

/// Picks the slot that holds the most recent save.
pub fn determine_latest_game_save(save: &[u8]) -> (r: GameSave)
    requires
        save@.len() == GAME_SAVE_DATA_LENGTH,
    ensures
        r == latest_game_save(save@),
{
    let save_index_a = read_u32_le(save, SAVE_A_OFFSET + SAVE_INDEX_OFFSET);
    let save_index_b = read_u32_le(save, SAVE_B_OFFSET + SAVE_INDEX_OFFSET);
    if save_index_a == ERASED_COUNTER {
        GameSave::B
    } else if save_index_b == ERASED_COUNTER {
        GameSave::A
    } else if save_index_a > save_index_b {
        GameSave::A
    } else {
        GameSave::B
    }
}

/// Copies the raw party records out of the active slot of a save image.
pub fn get_team_pokemon(save_data: &[u8]) -> (r: Result<Vec<Vec<u8>>, SaveError>)
    ensures
        save_data@.len() != GAME_SAVE_DATA_LENGTH ==> r == Err::<Vec<Vec<u8>>, SaveError>(
            SaveError::InvalidImageSize,
        ),
        save_data@.len() == GAME_SAVE_DATA_LENGTH && party_size(save_data@) > MAX_PARTY_SIZE
            ==> r == Err::<Vec<Vec<u8>>, SaveError>(SaveError::MalformedSave),
        save_data@.len() == GAME_SAVE_DATA_LENGTH && party_size(save_data@) <= MAX_PARTY_SIZE
            ==> (r matches Ok(team) && is_party_of(team@, save_data@)),
{
    if save_data.len() != GAME_SAVE_DATA_LENGTH {
        return Err(SaveError::InvalidImageSize);
    }
    let save_offset = determine_latest_game_save(save_data).offset();
    let size_pos = save_offset + SECTION_SIZE * Section::TeamAndItems.ordinal() + TEAM_SIZE_OFFSET;
    let team_size = read_u32_le(save_data, size_pos);
    if team_size as usize > MAX_PARTY_SIZE {
        return Err(SaveError::MalformedSave);
    }
    let mut team_data: Vec<Vec<u8>> = Vec::new();
    let mut n: usize = 0;
    while n < team_size as usize
        invariant
            save_data@.len() == GAME_SAVE_DATA_LENGTH,
            size_pos == team_size_pos(save_data@),
            team_size == party_size(save_data@),
            team_size <= MAX_PARTY_SIZE,
            n <= team_size,
            team_data@.len() == n,
            forall|i: int| 0 <= i < n ==> #[trigger] team_data@[i]@ == party_record(save_data@, i),
        decreases team_size - n,
    {
        let start = size_pos + 4 + PK3_SIZE * n;
        let mut record: Vec<u8> = Vec::with_capacity(PK3_SIZE);
        let mut k: usize = 0;
        while k < PK3_SIZE
            invariant
                save_data@.len() == GAME_SAVE_DATA_LENGTH,
                start + PK3_SIZE <= GAME_SAVE_DATA_LENGTH,
                k <= PK3_SIZE,
                record@ == save_data@.subrange(start as int, start + k),
            decreases PK3_SIZE - k,
        {
            record.push(save_data[start + k]);
            k += 1;
            assert(record@ =~= save_data@.subrange(start as int, start + k));
        }
        team_data.push(record);
        n += 1;
    }
    Ok(team_data)
}


/// Slot A is chosen whenever its counter is not the erased value and is
/// strictly larger than slot B's.
pub proof fn lemma_larger_counter_selects_a(save: Seq<u8>)
    requires
        save.len() == GAME_SAVE_DATA_LENGTH,
        counter_a(save) != ERASED_COUNTER,
        counter_a(save) > counter_b(save),
    ensures
        latest_game_save(save) == GameSave::A,
{
}

/// The chosen slot depends on the two save counters alone: images that agree
/// on both counters, the same image read twice among them, give the same slot.
pub proof fn lemma_selection_depends_on_counters(s1: Seq<u8>, s2: Seq<u8>)
    requires
        s1.len() == GAME_SAVE_DATA_LENGTH,
        s2.len() == GAME_SAVE_DATA_LENGTH,
        counter_a(s1) == counter_a(s2),
        counter_b(s1) == counter_b(s2),
    ensures
        latest_game_save(s1) == latest_game_save(s2),
{
}

/// An erased counter in slot A selects slot B, whatever slot B's counter is,
/// erased included.
pub proof fn lemma_erased_a_selects_b(save: Seq<u8>)
    requires
        save.len() == GAME_SAVE_DATA_LENGTH,
        counter_a(save) == ERASED_COUNTER,
    ensures
        latest_game_save(save) == GameSave::B,
{
}

/// A declared party size of zero is accepted, and the only party it
/// describes is the empty one.
pub proof fn lemma_empty_party(save: Seq<u8>)
    requires
        save.len() == GAME_SAVE_DATA_LENGTH,
        party_size(save) == 0,
    ensures
        party_size(save) <= MAX_PARTY_SIZE,
        forall|team: Seq<Vec<u8>>| #[trigger] is_party_of(team, save) <==> team == Seq::<Vec<u8>>::empty(),
{
    assert forall|team: Seq<Vec<u8>>| #[trigger] is_party_of(team, save) <==> team == Seq::<Vec<u8>>::empty() by {
        if team == Seq::<Vec<u8>>::empty() {
            assert(is_party_of(team, save));
        }
        if is_party_of(team, save) {
            assert(team =~= Seq::<Vec<u8>>::empty());
        }
    }
}

} // verus!
