//! Reading maps, settings and characters from files and writing maps to them.

use vstd::prelude::*;

use crate::models::stored::{Character, GameMap, Settings};
use crate::text::{ends_with, has_suffix, join};

verus! {

/// The name of the file that a map is written to.
pub fn export_name(map: &Option<GameMap>) -> (res: String)
    ensures
        res@ == match map {
            Some(map) => map.name@,
            None => seq![],
        } + ".json"@,
{
    match map {
        Some(map) => join(map.name.as_str(), ".json"),
        None => {
            let name: &str = "";
            proof {
                reveal_strlit("");
                assert(name@ =~= seq![]);
            }
            join(name, ".json")
        },
    }
}

/// Whether a file of a folder is read.
pub fn is_importable(file_name: &str) -> (res: bool)
    ensures
        res == has_suffix(file_name@, ".json"@),
{
    ends_with(file_name, ".json")
}

/// What a file is found to hold.
#[derive(Debug)]
pub enum Imported {
    GameMap(GameMap),
    Settings(Settings),
    Character(Character),
    Unrecognized,
}

/// What a file holds, given what it can be read as. A map comes first, as not everything can be
/// read as one, and a character last. Settings are detached from their row, so that those in use are
/// replaced.
pub fn classify(
    map: Option<GameMap>,
    settings: Option<Settings>,
    character: Option<Character>,
) -> (res: Imported)
    ensures
        res == if map is Some {
            Imported::GameMap(map.unwrap())
        } else if settings is Some {
            Imported::Settings((Settings { id: None, ..settings.unwrap() }))
        } else if character is Some {
            Imported::Character(character.unwrap())
        } else {
            Imported::Unrecognized
        },
{
    if let Some(map) = map {
        return Imported::GameMap(map);
    }
    if let Some(settings) = settings {
        let mut settings: Settings = settings;
        settings.id = None;
        return Imported::Settings(settings);
    }
    if let Some(character) = character {
        return Imported::Character(character);
    }
    Imported::Unrecognized
}

/// A map is written to a file that is read with its folder.
pub proof fn law_exported_maps_can_be_imported(name: Seq<char>)
    ensures
        has_suffix(name + ".json"@, ".json"@),
{
    assert((name + ".json"@).skip(name.len() as int) =~= ".json"@);
}

} // verus!
