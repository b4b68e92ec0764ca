//! Saved games: what is kept of a game, how saves are named and ordered,
//! and what can go wrong. Times are nanoseconds since the Unix epoch.

use vstd::prelude::*;
use crate::search::{
    arranged, belongs_behind, lemma_first_where_at, lemma_first_where_none, place_in,
};
use crate::systems::game::GameState;
use crate::text::join2;

verus! {

/// A game as it is kept in a file.
#[derive(Debug, Clone)]
pub struct SaveGame {
    pub game_state: GameState,
    pub save_name: String,
    pub timestamp: i64,
    pub version: String,
}

/// Why a game was not saved or loaded.
#[derive(Debug)]
pub enum SaveError {
    IoError(String),
    SerializationError(String),
    InvalidSaveFile,
    SaveNotFound,
}

/// The rules of saving.
pub struct SaveSystem;

/// What a list of saves shows of one save.
#[derive(Debug)]
pub struct SaveInfo {
    pub name: String,
    pub timestamp: i64,
    pub turn: u32,
    pub money: u32,
    pub location: String,
    pub file_name: String,
}

impl Clone for SaveInfo {
    fn clone(&self) -> (r: Self)
        ensures
            r == *self,
    {
        SaveInfo {
            name: self.name.clone(),
            timestamp: self.timestamp,
            turn: self.turn,
            money: self.money,
            location: self.location.clone(),
            file_name: self.file_name.clone(),
        }
    }
}

impl SaveError {
    /// The error in words.
    pub open spec fn text(self) -> Seq<char> {
        match self {
            SaveError::IoError(e) => "IO error: "@ + e@,
            SaveError::SerializationError(e) => "Serialization error: "@ + e@,
            SaveError::InvalidSaveFile => "Invalid save file format"@,
            SaveError::SaveNotFound => "Save file not found"@,
        }
    }

    /// The error in words.
    pub fn message(&self) -> (r: String)
        ensures
            r@ == self.text(),
    {
        match self {
            SaveError::IoError(e) => join2("IO error: ", e.as_str()),
            SaveError::SerializationError(e) => join2("Serialization error: ", e.as_str()),
            SaveError::InvalidSaveFile => "Invalid save file format".to_string(),
            SaveError::SaveNotFound => "Save file not found".to_string(),
        }
    }
}

/// The rule by which saves are listed: a save belongs behind another if it
/// is older.
pub open spec fn is_saved_earlier() -> spec_fn(SaveInfo, SaveInfo) -> bool {
    |x: SaveInfo, item: SaveInfo| x.timestamp < item.timestamp
}

/// A list of saves from newest to oldest; of two saves of one time the one
/// listed first comes first.
pub open spec fn newest_saves_first(saves: Seq<SaveInfo>) -> Seq<SaveInfo> {
    arranged(saves, is_saved_earlier())
}

impl SaveSystem {
    /// The name of the file that holds a save.
    pub fn save_file_name(save_name: &str) -> (r: String)
        ensures
            r@ == save_name@ + ".json"@,
    {
        join2(save_name, ".json")
    }

    /// What a list of saves shows of a save that was read from a file.
    pub fn describe_save(save: &SaveGame, file_name: String) -> (r: SaveInfo)
        ensures
            r.name == save.save_name,
            r.timestamp == save.timestamp,
            r.turn == save.game_state.turn_number,
            r.money == save.game_state.player.money,
            r.location == save.game_state.player.current_airport,
            r.file_name == file_name,
    {
        SaveInfo {
            name: save.save_name.clone(),
            timestamp: save.timestamp,
            turn: save.game_state.turn_number,
            money: save.game_state.player.money,
            location: save.game_state.player.current_airport.clone(),
            file_name,
        }
    }

    fn place(ordered: &mut Vec<SaveInfo>, save: SaveInfo)
        ensures
            final(ordered)@ == old(ordered)@.insert(
                place_in(old(ordered)@, save, is_saved_earlier()),
                save,
            ),
    {
        let ghost older = belongs_behind(save, is_saved_earlier());
        let mut at: usize = 0;
        while at < ordered.len() && ordered[at].timestamp >= save.timestamp
            invariant
                at <= ordered.len(),
                ordered@ == old(ordered)@,
                older == belongs_behind(save, is_saved_earlier()),
                forall|j: int| 0 <= j < at ==> !older(#[trigger] ordered@[j]),
            decreases ordered.len() - at,
        {
            at += 1;
        }
        proof {
            if at < ordered.len() {
                assert(older(ordered@[at as int]));
                lemma_first_where_at(ordered@, older, at as int);
            } else {
                lemma_first_where_none(ordered@, older);
            }
        }
        ordered.insert(at, save);
    }

    /// Orders a list of saves from newest to oldest.
    pub fn order_saves(saves: Vec<SaveInfo>) -> (r: Vec<SaveInfo>)
        ensures
            r@ == newest_saves_first(saves@),
    {
        let mut ordered: Vec<SaveInfo> = Vec::new();
        let mut i: usize = 0;
        while i < saves.len()
            invariant
                i <= saves.len(),
                ordered@ == newest_saves_first(saves@.subrange(0, i as int)),
            decreases saves.len() - i,
        {
            proof {
                assert(saves@.subrange(0, i + 1).drop_last() =~= saves@.subrange(0, i as int));
            }
            Self::place(&mut ordered, saves[i].clone());
            i += 1;
        }
        proof {
            assert(saves@.subrange(0, i as int) =~= saves@);
        }
        ordered
    }
}

} // verus!
