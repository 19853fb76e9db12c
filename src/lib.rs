//! Extraction of party creature records from third-generation handheld save
//! images: active slot selection, party table navigation, record decryption
//! and record decoding.
pub mod bytes;
pub mod pk3;
pub mod pk4;
pub mod save;
pub mod species;

pub use save::{
    determine_latest_game_save, get_team_pokemon, validate_game_save, GameSave, SaveError, Section,
    GAME_SAVE_DATA_LENGTH,
};
pub use species::Species;
