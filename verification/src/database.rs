//! What is asked of the database and what is made of its answers.
//!
//! Each table has two columns, the id of a row and its data as text. The statements are executed
//! elsewhere; what they have done comes back as [`Executed`].

use vstd::prelude::*;

use crate::models::actions::{Action, Bound, RotationMode};
use crate::models::stored::{
    Character, GameMap, GameMapContent, Identifiable, Localization, Seeds, Settings,
};
use crate::text::join3;

verus! {

#[derive(Clone, Copy, PartialEq, Eq, Debug, Structural)]
pub enum Table {
    Maps,
    Characters,
    Settings,
    Seeds,
    Localizations,
}

/// What a statement has done.
#[derive(Clone, Copy, PartialEq, Eq, Debug, Structural)]
pub struct Executed {
    /// How many rows were changed.
    pub changed: usize,
    /// The id of the row that was inserted last.
    pub last_insert_rowid: i64,
}

#[derive(Clone, Copy, PartialEq, Eq, Debug, Structural)]
pub enum DatabaseError {
    /// A statement could not be executed.
    Statement,
    NoRowUpdated,
    NoRowInserted,
    NoRowDeleted,
}

#[derive(Debug)]
pub enum DatabaseEvent {
    MapUpdated(GameMap),
    MapDeleted(i64),
    SettingsUpdated(Settings),
    LocalizationUpdated(Localization),
    CharacterUpdated(Character),
    CharacterDeleted(i64),
}

impl Table {
    pub open spec fn label(self) -> Seq<char> {
        match self {
            Table::Maps => "maps"@,
            Table::Characters => "characters"@,
            Table::Settings => "settings"@,
            Table::Seeds => "seeds"@,
            Table::Localizations => "localizations"@,
        }
    }

    pub fn name(&self) -> (res: &'static str)
        ensures
            res@ == self.label(),
    {
        match self {
            Table::Maps => "maps",
            Table::Characters => "characters",
            Table::Settings => "settings",
            Table::Seeds => "seeds",
            Table::Localizations => "localizations",
        }
    }

    /// The statement that makes sure that the table is there.
    pub fn create_statement(&self) -> (res: String)
        ensures
            res@ == "CREATE TABLE IF NOT EXISTS "@ + self.label()
                + " (id INTEGER PRIMARY KEY, data TEXT NOT NULL);"@,
    {
        join3(
            "CREATE TABLE IF NOT EXISTS ",
            self.name(),
            " (id INTEGER PRIMARY KEY, data TEXT NOT NULL);",
        )
    }

    /// The statement that reads all rows.
    pub fn select_statement(&self) -> (res: String)
        ensures
            res@ == "SELECT id, data FROM "@ + self.label() + ";"@,
    {
        join3("SELECT id, data FROM ", self.name(), ";")
    }

    /// The statement that inserts the row with the id given first and the data given second, or
    /// updates it where it is there already. Without an id a new row is inserted.
    pub fn upsert_statement(&self) -> (res: String)
        ensures
            res@ == "INSERT INTO "@ + self.label()
                + " (id, data) VALUES (?1, ?2) ON CONFLICT (id) DO UPDATE SET data = ?2;"@,
    {
        join3(
            "INSERT INTO ",
            self.name(),
            " (id, data) VALUES (?1, ?2) ON CONFLICT (id) DO UPDATE SET data = ?2;",
        )
    }

    /// The statement that deletes the row with the id given first.
    pub fn delete_statement(&self) -> (res: String)
        ensures
            res@ == "DELETE FROM "@ + self.label() + " WHERE id = ?1;"@,
    {
        join3("DELETE FROM ", self.name(), " WHERE id = ?1;")
    }
}

impl DatabaseError {
    /// What went wrong.
    pub fn message(&self) -> (res: &'static str)
        ensures
            res@ == match self {
                DatabaseError::Statement => "statement failed"@,
                DatabaseError::NoRowUpdated => "no row was updated"@,
                DatabaseError::NoRowInserted => "no row was inserted"@,
                DatabaseError::NoRowDeleted => "no row was deleted"@,
            },
    {
        match self {
            DatabaseError::Statement => "statement failed",
            DatabaseError::NoRowUpdated => "no row was updated",
            DatabaseError::NoRowInserted => "no row was inserted",
            DatabaseError::NoRowDeleted => "no row was deleted",
        }
    }
}

/// A row as it was read: its data, or the default where that could not be made sense of, under
/// its id.
pub fn row_value<T: Identifiable>(id: i64, parsed: Option<T>, default: T) -> (res: T)
    ensures
        res.row() == Some(id),
        res.content() == match parsed {
            Some(value) => value.content(),
            None => default.content(),
        },
{
    let mut value: T = match parsed {
        Some(value) => value,
        None => default,
    };
    value.set_id(id);
    value
}

/// Why an insertion or update has failed, if it has.
pub open spec fn upsert_failure(row: Option<i64>, executed: Option<Executed>) -> Option<DatabaseError> {
    match executed {
        None => Some(DatabaseError::Statement),
        Some(executed) => if executed.changed > 0 {
            None
        } else if row is Some {
            Some(DatabaseError::NoRowUpdated)
        } else {
            Some(DatabaseError::NoRowInserted)
        },
    }
}

/// The row that something is kept in after it was inserted or updated.
pub open spec fn upserted_row(row: Option<i64>, executed: Option<Executed>) -> Option<i64> {
    if row is None && upsert_failure(row, executed) is None {
        Some(executed->0.last_insert_rowid)
    } else {
        row
    }
}

/// Whether `after` is what an insertion or update makes of something: it has a row now, unless that
/// has failed. In that case it is as it was.
pub open spec fn upserted<T: Identifiable>(before: T, after: T, executed: Option<Executed>) -> bool {
    &&& after.content() == before.content()
    &&& after.row() == upserted_row(before.row(), executed)
    &&& upsert_failure(before.row(), executed) is Some ==> after == before
}

/// Concludes an insertion or update: what was inserted gets the id of its row.
pub fn upsert_to_table<T: Identifiable>(data: &mut T, executed: Option<Executed>) -> (res: Result<
    (),
    DatabaseError,
>)
    ensures
        upserted(*old(data), *final(data), executed),
        match res {
            Ok(_) => upsert_failure(old(data).row(), executed) is None,
            Err(error) => upsert_failure(old(data).row(), executed) == Some(error),
        },
{
    let executed: Executed = match executed {
        Some(executed) => executed,
        None => {
            return Err(DatabaseError::Statement);
        },
    };
    match data.id() {
        Some(_) => {
            if executed.changed > 0 {
                Ok(())
            } else {
                Err(DatabaseError::NoRowUpdated)
            }
        },
        None => {
            if executed.changed > 0 {
                data.set_id(executed.last_insert_rowid);
                Ok(())
            } else {
                Err(DatabaseError::NoRowInserted)
            }
        },
    }
}

/// Why a deletion has failed, if it has.
pub open spec fn delete_failure(row: Option<i64>, executed: Option<Executed>) -> Option<DatabaseError> {
    match (row, executed) {
        (Some(_), Some(executed)) => if executed.changed > 0 {
            None
        } else {
            Some(DatabaseError::NoRowDeleted)
        },
        (Some(_), None) => Some(DatabaseError::Statement),
        (None, _) => Some(DatabaseError::NoRowDeleted),
    }
}

/// Concludes a deletion. What was never kept cannot be deleted, and nothing is executed for it.
pub fn delete_from_table<T: Identifiable>(data: &T, executed: Option<Executed>) -> (res: Result<
    i64,
    DatabaseError,
>)
    ensures
        match res {
            Ok(id) => delete_failure(data.row(), executed) is None && data.row() == Some(id),
            Err(error) => delete_failure(data.row(), executed) == Some(error),
        },
{
    match data.id() {
        None => Err(DatabaseError::NoRowDeleted),
        Some(id) => match executed {
            None => Err(DatabaseError::Statement),
            Some(executed) => if executed.changed > 0 {
                Ok(id)
            } else {
                Err(DatabaseError::NoRowDeleted)
            },
        },
    }
}

/// The first row, or the default where there is none.
pub open spec fn first_or<T>(rows: Seq<T>, default: T) -> T {
    if rows.len() > 0 {
        rows[0]
    } else {
        default
    }
}

/// The first of the rows that were read, or the default where there is none.
pub fn first_or_default<T: Identifiable>(rows: &Vec<T>, default: T) -> (res: T)
    ensures
        res.row() == first_or(rows@, default).row(),
        res.content() == first_or(rows@, default).content(),
{
    if rows.len() > 0 {
        rows[0].duplicate()
    } else {
        default
    }
}

/// Whether `res` is the first row or the default, which is stored only where it was not before.
pub open spec fn queried<T: Identifiable>(
    rows: Seq<T>,
    default: T,
    executed: Option<Executed>,
    res: T,
) -> bool {
    let first = first_or(rows, default);
    &&& res.content() == first.content()
    &&& res.row() == if first.row() is None {
        upserted_row(None, executed)
    } else {
        first.row()
    }
}

/// The seeds, which are stored again each time that they are read.
pub fn query_and_upsert_seeds(rows: &Vec<Seeds>, default: Seeds, executed: Executed) -> (res: Seeds)
    requires
        executed.changed > 0,
    ensures
        upserted(first_or(rows@, default), res, Some(executed)),
{
    let mut seeds: Seeds = first_or_default(rows, default);
    let _ = upsert_to_table(&mut seeds, Some(executed));
    seeds
}

/// The localization, which is stored only where it was not before.
pub fn query_or_upsert_localization(
    rows: &Vec<Localization>,
    default: Localization,
    executed: Option<Executed>,
) -> (res: Localization)
    requires
        first_or(rows@, default).row() is None ==> executed is Some && executed->0.changed > 0,
    ensures
        queried(rows@, default, executed, res),
{
    let mut localization: Localization = first_or_default(rows, default);
    if localization.id.is_none() {
        let _ = upsert_to_table(&mut localization, executed);
    }
    localization
}

pub fn upsert_localization(localization: &mut Localization, executed: Option<Executed>) -> (res:
    Result<DatabaseEvent, DatabaseError>)
    ensures
        upserted(*old(localization), *final(localization), executed),
        match res {
            Ok(DatabaseEvent::LocalizationUpdated(stored)) => upsert_failure(
                old(localization).row(),
                executed,
            ) is None && stored.row() == final(localization).row() && stored.content() == final(localization).content(),
            Ok(_) => false,
            Err(error) => upsert_failure(old(localization).row(), executed) == Some(error),
        },
{
    match upsert_to_table(localization, executed) {
        Ok(_) => Ok(DatabaseEvent::LocalizationUpdated(localization.duplicate())),
        Err(error) => Err(error),
    }
}

/// The row that settings are kept in: there is only one, so that settings without a row are kept
/// in the row that is there already.
pub open spec fn settings_row(settings: Settings, existing: Option<Seq<Settings>>) -> Option<i64> {
    match existing {
        Some(rows) if settings.id is None && rows.len() > 0 => rows[0].id,
        _ => settings.id,
    }
}

/// Finds out which row the settings are to be kept in.
///
/// Settings is a singleton table: the existing row is always updated rather than inserting a new
/// one.
pub fn assign_settings_row(settings: &mut Settings, existing: &Option<Vec<Settings>>)
    ensures
        *final(settings) == (Settings {
            id: settings_row(*old(settings), match existing {
                Some(rows) => Some(rows@),
                None => None,
            }),
            ..*old(settings)
        }),
{
    if settings.id.is_none() {
        if let Some(rows) = existing {
            if rows.len() > 0 {
                settings.id = rows[0].id;
            }
        }
    }
}

/// Concludes storing the settings, once the statement was executed for the row that
/// [`assign_settings_row`] gives. Settings that could not be stored stay as they were.
pub fn upsert_settings(
    settings: &mut Settings,
    existing: &Option<Vec<Settings>>,
    executed: Option<Executed>,
) -> (res: Result<DatabaseEvent, DatabaseError>)
    ensures
        ({
            let row = settings_row(*old(settings), match existing {
                Some(rows) => Some(rows@),
                None => None,
            });
            &&& upsert_failure(row, executed) is None ==> *final(settings) == (Settings {
                id: upserted_row(row, executed),
                ..*old(settings)
            })
            &&& upsert_failure(row, executed) is Some ==> *final(settings) == *old(settings)
            &&& match res {
                Ok(DatabaseEvent::SettingsUpdated(stored)) => upsert_failure(row, executed) is None
                    && stored == *final(settings),
                Ok(_) => false,
                Err(error) => upsert_failure(row, executed) == Some(error),
            }
        }),
{
    let original: Settings = *settings;
    assign_settings_row(settings, existing);
    match upsert_to_table(settings, executed) {
        Ok(_) => Ok(DatabaseEvent::SettingsUpdated(*settings)),
        Err(error) => {
            *settings = original;
            Err(error)
        },
    }
}

/// The settings, which are stored only where they were not before.
pub fn query_settings(rows: &Vec<Settings>, default: Settings, executed: Option<Executed>) -> (res: (
    Settings,
    Option<DatabaseEvent>,
))
    requires
        first_or(rows@, default).id is None ==> executed is Some && executed->0.changed > 0,
    ensures
        ({
            let stored = first_or(rows@, default).id is None;
            &&& queried(rows@, default, executed, res.0)
            &&& match res.1 {
                Some(DatabaseEvent::SettingsUpdated(settings)) => stored && settings == res.0,
                Some(_) => false,
                None => !stored,
            }
        }),
{
    let mut settings: Settings = first_or_default(rows, default);
    if settings.id.is_some() {
        return (settings, None);
    }
    match upsert_settings(&mut settings, &None, executed) {
        Ok(event) => (settings, Some(event)),
        Err(_) => (settings, None),
    }
}

pub fn upsert_character(character: &mut Character, executed: Option<Executed>) -> (res: Result<
    DatabaseEvent,
    DatabaseError,
>)
    ensures
        upserted(*old(character), *final(character), executed),
        match res {
            Ok(DatabaseEvent::CharacterUpdated(stored)) => upsert_failure(
                old(character).row(),
                executed,
            ) is None && stored.row() == final(character).row() && stored.content() == final(character).content(),
            Ok(_) => false,
            Err(error) => upsert_failure(old(character).row(), executed) == Some(error),
        },
{
    match upsert_to_table(character, executed) {
        Ok(_) => Ok(DatabaseEvent::CharacterUpdated(character.duplicate())),
        Err(error) => Err(error),
    }
}

pub fn delete_character(character: &Character, executed: Option<Executed>) -> (res: Result<
    DatabaseEvent,
    DatabaseError,
>)
    ensures
        match res {
            Ok(DatabaseEvent::CharacterDeleted(id)) => delete_failure(
                character.row(),
                executed,
            ) is None && character.row() == Some(id),
            Ok(_) => false,
            Err(error) => delete_failure(character.row(), executed) == Some(error),
        },
{
    match delete_from_table(character, executed) {
        Ok(id) => Ok(DatabaseEvent::CharacterDeleted(id)),
        Err(error) => Err(error),
    }
}

pub fn upsert_map(map: &mut GameMap, executed: Option<Executed>) -> (res: Result<
    DatabaseEvent,
    DatabaseError,
>)
    ensures
        upserted(*old(map), *final(map), executed),
        match res {
            Ok(DatabaseEvent::MapUpdated(stored)) => upsert_failure(old(map).row(), executed)
                is None && stored.row() == final(map).row() && stored.content() == final(map).content(),
            Ok(_) => false,
            Err(error) => upsert_failure(old(map).row(), executed) == Some(error),
        },
{
    match upsert_to_table(map, executed) {
        Ok(_) => Ok(DatabaseEvent::MapUpdated(map.duplicate())),
        Err(error) => Err(error),
    }
}

pub fn delete_map(map: &GameMap, executed: Option<Executed>) -> (res: Result<
    DatabaseEvent,
    DatabaseError,
>)
    ensures
        match res {
            Ok(DatabaseEvent::MapDeleted(id)) => delete_failure(map.row(), executed) is None
                && map.row() == Some(id),
            Ok(_) => false,
            Err(error) => delete_failure(map.row(), executed) == Some(error),
        },
{
    match delete_from_table(map, executed) {
        Ok(id) => Ok(DatabaseEvent::MapDeleted(id)),
        Err(error) => Err(error),
    }
}

/// The character to try things out with.
pub fn test_character() -> (res: Character)
    ensures
        res.id is None,
        res.name@ == "Test"@,
        res.actions@.len() == 0,
{
    Character { id: None, name: "Test".to_owned(), actions: Vec::new() }
}

/// A map to try things out with: there is nothing on it but one preset, which has no actions.
pub open spec fn test_map_content() -> GameMapContent {
    GameMapContent {
        name: "Test"@,
        width: 0,
        height: 0,
        platforms: seq![],
        rotation_mode: RotationMode::StartToEnd,
        rotation_ping_pong_bound: Bound { x: 0, y: 0, width: 0, height: 0 },
        rotation_auto_mob_bound: Bound { x: 0, y: 0, width: 0, height: 0 },
        actions: seq![("Test"@, seq![])],
    }
}

/// The map to try things out with.
pub fn test_map() -> (res: GameMap)
    ensures
        res.id is None,
        res.content() == test_map_content(),
        res.wf(),
{
    let mut actions: Vec<(String, Vec<Action>)> = Vec::new();
    actions.push(("Test".to_owned(), Vec::new()));
    let bound: Bound = Bound { x: 0, y: 0, width: 0, height: 0 };
    let map: GameMap = GameMap {
        id: None,
        name: "Test".to_owned(),
        width: 0,
        height: 0,
        platforms: Vec::new(),
        rotation_mode: RotationMode::StartToEnd,
        rotation_ping_pong_bound: bound,
        rotation_auto_mob_bound: bound,
        actions,
    };
    assert(map.actions@[0].1@ =~= seq![]);
    assert(map.content() =~= test_map_content());
    map
}

/// The characters that were read. Where there is none, one to try things out with is stored,
/// provided that `seeding` is on.
pub fn query_characters(
    rows: Result<Vec<Character>, DatabaseError>,
    seeding: bool,
    executed: Option<Executed>,
) -> (res: Result<(Vec<Character>, Option<DatabaseEvent>), DatabaseError>)
    requires
        seeding && rows is Ok && rows->Ok_0@.len() == 0 ==> executed is Some
            && executed->0.changed > 0,
    ensures
        match (rows, res) {
            (Err(error), Err(returned)) => returned == error,
            (Ok(rows), Ok((characters, event))) => if seeding && rows@.len() == 0 {
                &&& characters@.len() == 1
                &&& characters@[0].id == Some(executed->0.last_insert_rowid)
                &&& characters@[0].name@ == "Test"@
                &&& characters@[0].actions@.len() == 0
                &&& event matches Some(DatabaseEvent::CharacterUpdated(stored))
                &&& stored.row() == characters@[0].row()
                &&& stored.content() == characters@[0].content()
            } else {
                characters == rows && event is None
            },
            _ => false,
        },
{
    let mut characters: Vec<Character> = match rows {
        Ok(rows) => rows,
        Err(error) => {
            return Err(error);
        },
    };
    if !seeding || characters.len() > 0 {
        return Ok((characters, None));
    }
    let mut character: Character = test_character();
    let event: Option<DatabaseEvent> = match upsert_character(&mut character, executed) {
        Ok(event) => Some(event),
        Err(_) => None,
    };
    characters.push(character);
    Ok((characters, event))
}

/// The maps that were read. Where there is none, one to try things out with is stored, provided
/// that `seeding` is on.
pub fn query_maps(
    rows: Result<Vec<GameMap>, DatabaseError>,
    seeding: bool,
    executed: Option<Executed>,
) -> (res: Result<(Vec<GameMap>, Option<DatabaseEvent>), DatabaseError>)
    requires
        seeding && rows is Ok && rows->Ok_0@.len() == 0 ==> executed is Some
            && executed->0.changed > 0,
    ensures
        match (rows, res) {
            (Err(error), Err(returned)) => returned == error,
            (Ok(rows), Ok((maps, event))) => if seeding && rows@.len() == 0 {
                &&& maps@.len() == 1
                &&& maps@[0].id == Some(executed->0.last_insert_rowid)
                &&& maps@[0].content() == test_map_content()
                &&& event matches Some(DatabaseEvent::MapUpdated(stored))
                &&& stored.row() == maps@[0].row()
                &&& stored.content() == maps@[0].content()
            } else {
                maps == rows && event is None
            },
            _ => false,
        },
{
    let mut maps: Vec<GameMap> = match rows {
        Ok(rows) => rows,
        Err(error) => {
            return Err(error);
        },
    };
    if !seeding || maps.len() > 0 {
        return Ok((maps, None));
    }
    let mut map: GameMap = test_map();
    let event: Option<DatabaseEvent> = match upsert_map(&mut map, executed) {
        Ok(event) => Some(event),
        Err(_) => None,
    };
    maps.push(map);
    Ok((maps, event))
}

/// Storing something twice keeps it in the same row.
pub proof fn law_storing_again_updates_the_row(
    row: Option<i64>,
    first: Option<Executed>,
    second: Option<Executed>,
)
    requires
        upsert_failure(row, first) is None,
    ensures
        upserted_row(upserted_row(row, first), second) == upserted_row(row, first),
{
}

/// As long as settings are stored, settings without a row are never stored in another one.
pub proof fn law_settings_are_kept_in_one_row(
    rows: Seq<Settings>,
    settings: Settings,
    executed: Option<Executed>,
)
    requires
        rows.len() > 0,
        rows[0].id is Some,
        settings.id is None,
    ensures
        upserted_row(settings_row(settings, Some(rows)), executed) == rows[0].id,
{
}

/// What was stored can be deleted.
pub proof fn law_stored_rows_can_be_deleted(
    row: Option<i64>,
    stored: Option<Executed>,
    deleted: Executed,
)
    requires
        upsert_failure(row, stored) is None,
        deleted.changed > 0,
    ensures
        delete_failure(upserted_row(row, stored), Some(deleted)) is None,
{
}

/// An insertion or update succeeds just when the statement was executed and has changed a row. Where it
/// was executed in vain, it is told apart whether a row was to be updated or inserted. What had a row
/// keeps it, and what had none gets the one that it was inserted in.
pub proof fn law_changed_rows_make_a_success(row: Option<i64>, executed: Option<Executed>)
    ensures
        upsert_failure(row, executed) is None <==> executed is Some && executed->0.changed > 0,
        upsert_failure(row, executed) == Some(DatabaseError::Statement) <==> executed is None,
        upsert_failure(row, executed) == Some(DatabaseError::NoRowUpdated) <==> executed is Some
            && executed->0.changed == 0 && row is Some,
        upsert_failure(row, executed) == Some(DatabaseError::NoRowInserted) <==> executed is Some
            && executed->0.changed == 0 && row is None,
        row is Some ==> upserted_row(row, executed) == row,
        row is None && executed is Some && executed->0.changed > 0 ==> upserted_row(row, executed)
            == Some(executed->0.last_insert_rowid),
        row is None && (executed is None || executed->0.changed == 0) ==> upserted_row(
            row,
            executed,
        ) is None,
{
}

/// A deletion succeeds just when there was a row to delete and it was deleted.
pub proof fn law_deletion_needs_a_row(row: Option<i64>, executed: Option<Executed>)
    ensures
        delete_failure(row, executed) is None <==> row is Some && executed is Some
            && executed->0.changed > 0,
        delete_failure(row, executed) == Some(DatabaseError::Statement) <==> row is Some
            && executed is None,
        delete_failure(row, executed) is Some ==> delete_failure(row, executed) == Some(
            DatabaseError::Statement,
        ) || delete_failure(row, executed) == Some(DatabaseError::NoRowDeleted),
{
}

/// Settings with a row stay in it, and without any rows settings without one have none.
pub proof fn law_settings_stay_in_their_row(settings: Settings, existing: Option<Seq<Settings>>)
    ensures
        settings.id is Some ==> settings_row(settings, existing) == settings.id,
        settings.id is None && (existing is None || existing->0.len() == 0) ==> settings_row(
            settings,
            existing,
        ) is None,
        settings.id is None && existing is Some && existing->0.len() > 0 ==> settings_row(
            settings,
            existing,
        ) == existing->0[0].id,
{
}

/// Of the rows that were read the first one counts, and the default only where there are none.
pub proof fn law_first_row_counts<T>(first: T, rest: Seq<T>, default: T)
    ensures
        first_or(seq![first] + rest, default) == first,
        first_or(Seq::<T>::empty(), default) == default,
{
}

/// Each table has a name of its own.
pub proof fn law_tables_are_named(table: Table)
    ensures
        table.label() == match table {
            Table::Maps => "maps"@,
            Table::Characters => "characters"@,
            Table::Settings => "settings"@,
            Table::Seeds => "seeds"@,
            Table::Localizations => "localizations"@,
        },
{
}

/// The map to try things out with goes from start to end and has no actions in its only preset, which
/// is called as the map is.
pub proof fn law_test_map_does_nothing()
    ensures
        ({
            let map = test_map_content();
            &&& map.name == "Test"@
            &&& map.width == 0 && map.height == 0
            &&& map.platforms.len() == 0
            &&& map.rotation_mode is StartToEnd
            &&& map.rotation_ping_pong_bound == (Bound { x: 0, y: 0, width: 0, height: 0 })
            &&& map.rotation_auto_mob_bound == map.rotation_ping_pong_bound
            &&& map.actions.len() == 1
            &&& map.actions[0].0 == map.name
            &&& map.actions[0].1.len() == 0
        }),
{
}

} // verus!
