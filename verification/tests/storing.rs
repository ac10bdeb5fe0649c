use std::path::Path;

use komari::database::{
    assign_settings_row, delete_character, delete_from_table, delete_map, first_or_default,
    query_and_upsert_seeds, query_characters, query_maps, query_or_upsert_localization,
    query_settings, row_value, test_character, test_map, upsert_character, upsert_localization,
    upsert_map, upsert_settings, upsert_to_table, DatabaseError, DatabaseEvent, Executed, Table,
};
use komari::models::keys::{KeyBinding, KeyBindingConfiguration};
use komari::models::stored::{Character, Identifiable, Localization, Seeds, Settings};
use komari::recording::{new_recording_path, recording_path};
use komari::text::{
    decimal_text, ends_with, join, join3, same_text, signed_text, starts_with, two_digit_text,
};
use komari::utils::{
    epoch_millis_as_string, image_path, is_image_path, join_paths, DatasetDir,
};
use rusqlite::Connection;

const STORED: Option<Executed> = Some(Executed { changed: 1, last_insert_rowid: 9 });

const UNCHANGED: Option<Executed> = Some(Executed { changed: 0, last_insert_rowid: 9 });

fn settings(id: Option<i64>, key: KeyBinding) -> Settings {
    Settings { id, toggle_actions_key: KeyBindingConfiguration { key, enabled: true } }
}

#[test]
fn statements_name_their_table() {
    assert_eq!(
        Table::Maps.create_statement(),
        "CREATE TABLE IF NOT EXISTS maps (id INTEGER PRIMARY KEY, data TEXT NOT NULL);"
    );
    assert_eq!(Table::Seeds.select_statement(), "SELECT id, data FROM seeds;");
    assert_eq!(
        Table::Settings.upsert_statement(),
        "INSERT INTO settings (id, data) VALUES (?1, ?2) ON CONFLICT (id) DO UPDATE SET data = ?2;"
    );
    assert_eq!(
        Table::Localizations.delete_statement(),
        "DELETE FROM localizations WHERE id = ?1;"
    );
    assert_eq!(Table::Characters.name(), "characters");
}

#[test]
fn new_row_is_remembered() {
    let mut map = test_map();
    match upsert_map(&mut map, STORED) {
        Ok(DatabaseEvent::MapUpdated(stored)) => assert_eq!(stored.id, Some(9)),
        other => panic!("{other:?}"),
    }
    assert_eq!(map.id, Some(9));
    // Stored again it stays where it is.
    let again = Some(Executed { changed: 1, last_insert_rowid: 33 });
    assert!(upsert_map(&mut map, again).is_ok());
    assert_eq!(map.id, Some(9));
    assert!(matches!(delete_map(&map, STORED), Ok(DatabaseEvent::MapDeleted(9))));
}

#[test]
fn failures_are_told_apart() {
    let mut character = test_character();
    assert_eq!(upsert_to_table(&mut character, None), Err(DatabaseError::Statement));
    assert_eq!(upsert_to_table(&mut character, UNCHANGED), Err(DatabaseError::NoRowInserted));
    assert_eq!(character.id, None);
    assert_eq!(delete_from_table(&character, STORED), Err(DatabaseError::NoRowDeleted));
    character.id = Some(2);
    assert_eq!(upsert_to_table(&mut character, UNCHANGED), Err(DatabaseError::NoRowUpdated));
    assert_eq!(delete_from_table(&character, UNCHANGED), Err(DatabaseError::NoRowDeleted));
    assert_eq!(delete_from_table(&character, None), Err(DatabaseError::Statement));
    assert_eq!(delete_from_table(&character, STORED), Ok(2));
    assert_eq!(DatabaseError::NoRowUpdated.message(), "no row was updated");
}

#[test]
fn characters_are_stored_and_deleted() {
    let mut character = test_character();
    assert!(matches!(
        upsert_character(&mut character, STORED),
        Ok(DatabaseEvent::CharacterUpdated(_))
    ));
    assert!(matches!(
        delete_character(&character, STORED),
        Ok(DatabaseEvent::CharacterDeleted(9))
    ));
}

#[test]
fn unreadable_row_is_the_default() {
    let read = row_value(5, Some(settings(None, KeyBinding::B)), settings(None, KeyBinding::A));
    assert_eq!((read.id, read.toggle_actions_key.key), (Some(5), KeyBinding::B));
    let unread = row_value(5, None, settings(None, KeyBinding::A));
    assert_eq!((unread.id, unread.toggle_actions_key.key), (Some(5), KeyBinding::A));
}

#[test]
fn settings_stay_in_one_row() {
    let existing = Some(vec![settings(Some(3), KeyBinding::A), settings(Some(4), KeyBinding::A)]);
    let mut new = settings(None, KeyBinding::C);
    assign_settings_row(&mut new, &existing);
    assert_eq!(new.id, Some(3));
    let mut kept = settings(Some(8), KeyBinding::C);
    assign_settings_row(&mut kept, &existing);
    assert_eq!(kept.id, Some(8));

    let mut new = settings(None, KeyBinding::C);
    match upsert_settings(&mut new, &existing, STORED) {
        Ok(DatabaseEvent::SettingsUpdated(stored)) => assert_eq!(stored.id, Some(3)),
        other => panic!("{other:?}"),
    }
    let mut first = settings(None, KeyBinding::C);
    assert!(upsert_settings(&mut first, &Some(vec![]), STORED).is_ok());
    assert_eq!(first.id, Some(9));
}

#[test]
fn settings_that_are_not_stored_stay_as_they_were() {
    let existing = Some(vec![settings(Some(3), KeyBinding::A)]);
    let unchanged = Some(Executed { changed: 0, last_insert_rowid: 9 });
    let mut new = settings(None, KeyBinding::C);
    assert!(matches!(
        upsert_settings(&mut new, &existing, unchanged),
        Err(DatabaseError::NoRowUpdated)
    ));
    assert_eq!(new, settings(None, KeyBinding::C));
    assert!(matches!(upsert_settings(&mut new, &existing, None), Err(DatabaseError::Statement)));
    assert_eq!(new, settings(None, KeyBinding::C));
    assert!(matches!(
        upsert_settings(&mut new, &None, unchanged),
        Err(DatabaseError::NoRowInserted)
    ));
    assert_eq!(new, settings(None, KeyBinding::C));
}

#[test]
fn missing_rows_are_stored() {
    let (read, event) = query_settings(&vec![], settings(None, KeyBinding::A), STORED);
    assert_eq!(read.id, Some(9));
    assert!(matches!(event, Some(DatabaseEvent::SettingsUpdated(_))));
    let rows = vec![settings(Some(1), KeyBinding::D)];
    let (read, event) = query_settings(&rows, settings(None, KeyBinding::A), None);
    assert_eq!(read.toggle_actions_key.key, KeyBinding::D);
    assert!(event.is_none());

    let default = Seeds { id: None, rng_seed: 1, perlin_seed: 2 };
    let seeds = query_and_upsert_seeds(
        &vec![],
        default,
        Executed { changed: 1, last_insert_rowid: 1 },
    );
    assert_eq!((seeds.id, seeds.rng_seed, seeds.perlin_seed), (Some(1), 1, 2));

    let default = Localization { id: None, templates: vec![] };
    let mut localization = query_or_upsert_localization(&vec![], default, STORED);
    assert_eq!(localization.id, Some(9));
    localization.templates.push(("a".to_string(), "b".to_string()));
    assert!(matches!(
        upsert_localization(&mut localization, STORED),
        Ok(DatabaseEvent::LocalizationUpdated(stored)) if stored.templates.len() == 1
    ));
}

#[test]
fn something_to_try_out_is_stored_first() {
    let (maps, event) = query_maps(Ok(vec![]), true, STORED).unwrap();
    assert_eq!(maps.len(), 1);
    assert_eq!(maps[0].id, Some(9));
    assert_eq!(maps[0].actions[0].0, "Test");
    assert!(matches!(event, Some(DatabaseEvent::MapUpdated(_))));
    assert_eq!(query_maps(Ok(vec![]), false, None).unwrap().0.len(), 0);
    assert_eq!(
        query_maps(Err(DatabaseError::Statement), false, None).unwrap_err(),
        DatabaseError::Statement
    );

    let (characters, _) = query_characters(Ok(vec![]), true, STORED).unwrap();
    assert_eq!(characters[0].name, "Test");
    let (characters, event) = query_characters(Ok(characters), true, None).unwrap();
    assert_eq!(characters.len(), 1);
    assert!(event.is_none());
}

#[test]
fn first_row_counts() {
    let rows = vec![settings(Some(1), KeyBinding::B), settings(Some(2), KeyBinding::C)];
    assert_eq!(first_or_default(&rows, settings(None, KeyBinding::A)).id(), Some(1));
    let copy = rows[1].duplicate();
    assert_eq!(copy.id, Some(2));
}

#[test]
fn images_are_saved_under_their_path() {
    assert_eq!(DatasetDir::Root.to_folder(), "dataset");
    assert_eq!(DatasetDir::Rune.to_folder(), "dataset/rune");
    assert!(is_image_path("a/b.png"));
    assert!(!is_image_path("a/b"));
    assert_eq!(epoch_millis_as_string(1_700_000_000_123), "1700000000123");
    assert_eq!(image_path(DatasetDir::Rune, "x.png", 5), "dataset/rune/x.png");
    assert_eq!(image_path(DatasetDir::Rune, "x", 5), "dataset/rune/x/5.png");
}

#[test]
fn paths_are_joined_and_read_like_paths() {
    for path in ["a.png", "a.png/", "a.png/.", "a.png/././", "..png", ".a.png"] {
        assert!(is_image_path(path), "{path}");
    }
    for path in ["", ".", ".png", "a/.png", "a.png/..", "a.png/b", "a.PNG", "apng", "./."] {
        assert!(!is_image_path(path), "{path}");
    }
    // The extension is the one that std sees.
    for path in ["a.png/.", "a.png/..", "a/.png", "..png", "x/./y.png", "a.png./", "/.png"] {
        let image = Path::new(path).extension().is_some_and(|extension| extension == "png");
        assert_eq!(is_image_path(path), image, "{path}");
    }
    for (base, path) in [("a", "b"), ("a/", "b"), ("a", ""), ("", "b"), ("a", "/b"), ("/", "b/")] {
        assert_eq!(join_paths(base, path), Path::new(base).join(path).to_str().unwrap());
    }
    for (base, path, expected) in [
        ("dataset", "C:/x", "C:/x"),
        ("dataset", "c:x", "c:x"),
        ("dataset", r"\\server\share\x", r"\\server\share\x"),
        ("dataset", "1:x", "dataset/1:x"),
        ("dataset", "C", "dataset/C"),
        ("D:/a", "/x", "D:/x"),
        ("D:/a", "x", "D:/a/x"),
        ("D:", "x", "D:x"),
        (r"\\server\share\a", r"\x", r"\\server\share\x"),
        (r"D:\a", r"\\server", r"D:\\server"),
    ] {
        assert_eq!(join_paths(base, path), expected);
    }
    assert!(is_image_path("C:a.png"));
    assert!(!is_image_path("C:.png"));
    assert!(!is_image_path(r"\\server\share.png"));
    assert!(is_image_path(r"\\server\share\a.png"));
    assert_eq!(image_path(DatasetDir::Root, "C:/x.png", 5), "C:/x.png");
    assert_eq!(image_path(DatasetDir::Root, "C:", 5), "C:5.png");
    assert_eq!(image_path(DatasetDir::Root, "", 5), "dataset/5.png");
    assert_eq!(image_path(DatasetDir::Root, "x/", 5), "dataset/x/5.png");
    assert_eq!(image_path(DatasetDir::Root, "/x.png", 5), "/x.png");
    assert_eq!(image_path(DatasetDir::Root, "/x", 5), "/x/5.png");
    assert_eq!(image_path(DatasetDir::Root, "x.png/.", 5), "dataset/x.png/.");
}

#[test]
fn recordings_get_new_names() {
    assert_eq!(recording_path("ld_", "abc"), "dataset/recordings/ld_abc.mp4");
    let path = new_recording_path("ld_");
    let id = path
        .strip_prefix("dataset/recordings/ld_")
        .and_then(|rest| rest.strip_suffix(".mp4"))
        .unwrap();
    assert_eq!(id.len(), 8);
    assert!(id.chars().all(|c| c.is_ascii_alphanumeric()));
    assert_ne!(path, new_recording_path("ld_"));
}

#[test]
fn texts_are_put_together_and_taken_apart() {
    assert_eq!(decimal_text(0), "0");
    assert_eq!(decimal_text(1_020), "1020");
    assert_eq!(decimal_text(u128::MAX), u128::MAX.to_string());
    assert_eq!(signed_text(i32::MIN), "-2147483648");
    assert_eq!(signed_text(12), "12");
    assert_eq!(two_digit_text(7), "07");
    assert_eq!(two_digit_text(107), "107");
    assert_eq!(join("a", "b"), "ab");
    assert_eq!(join3("a", "", "c"), "ac");
    assert!(starts_with("abc", "ab") && !starts_with("ab", "abc") && starts_with("a", ""));
    assert!(ends_with("abc", "bc") && !ends_with("bc", "abc") && !ends_with("abc", "bd"));
    assert!(same_text("abc", "abc") && !same_text("abc", "abd") && !same_text("a", ""));
}

fn open(table: Table) -> Connection {
    let connection = Connection::open_in_memory().unwrap();
    connection.execute_batch(&table.create_statement()).unwrap();
    connection
}

fn execute_upsert(
    connection: &Connection,
    table: Table,
    id: Option<i64>,
    data: &str,
) -> Option<Executed> {
    let changed = connection.execute(&table.upsert_statement(), (id, data)).ok()?;
    Some(Executed { changed, last_insert_rowid: connection.last_insert_rowid() })
}

fn execute_delete(connection: &Connection, table: Table, id: Option<i64>) -> Option<Executed> {
    let changed = connection.execute(&table.delete_statement(), [id?]).ok()?;
    Some(Executed { changed, last_insert_rowid: connection.last_insert_rowid() })
}

fn rows_of(connection: &Connection, table: Table) -> Vec<(i64, String)> {
    let mut statement = connection.prepare(&table.select_statement()).unwrap();
    let rows = statement.query_map([], |row| Ok((row.get(0)?, row.get(1)?))).unwrap();
    rows.map(|row| row.unwrap()).collect()
}

fn character(name: &str) -> Character {
    Character { id: None, name: name.to_string(), actions: vec![] }
}

#[test]
fn stored_rows_are_read_back_and_deleted() {
    let connection = open(Table::Characters);
    let mut first = character("first");
    let mut second = character("second");
    for character in [&mut first, &mut second] {
        let executed =
            execute_upsert(&connection, Table::Characters, character.id, &character.name);
        assert!(upsert_character(character, executed).is_ok());
    }
    let before = rows_of(&connection, Table::Characters);
    assert_eq!(
        before,
        vec![(first.id.unwrap(), "first".to_string()), (second.id.unwrap(), "second".to_string())]
    );

    // Storing again changes nothing, nor does a third one that is deleted again.
    let executed = execute_upsert(&connection, Table::Characters, first.id, &first.name);
    assert!(upsert_character(&mut first, executed).is_ok());
    assert_eq!(rows_of(&connection, Table::Characters), before);
    let mut third = character("third");
    third.id = Some(70);
    let executed = execute_upsert(&connection, Table::Characters, third.id, &third.name);
    assert!(upsert_character(&mut third, executed).is_ok());
    assert_eq!(third.id, Some(70));
    assert_eq!(rows_of(&connection, Table::Characters)[2], (70, "third".to_string()));
    let executed = execute_delete(&connection, Table::Characters, third.id);
    assert!(matches!(
        delete_character(&third, executed),
        Ok(DatabaseEvent::CharacterDeleted(70))
    ));
    assert_eq!(rows_of(&connection, Table::Characters), before);
    let executed = execute_delete(&connection, Table::Characters, third.id);
    assert!(matches!(delete_character(&third, executed), Err(DatabaseError::NoRowDeleted)));
    assert!(delete_character(&character("fourth"), None).is_err());
    assert_eq!(rows_of(&connection, Table::Characters), before);
}

fn read_seeds(connection: &Connection) -> Vec<Seeds> {
    let rows = rows_of(connection, Table::Seeds).into_iter();
    rows.map(|(id, data)| {
        let (rng_seed, perlin_seed) = data.split_once(' ').unwrap();
        let seeds = Seeds {
            id: None,
            rng_seed: rng_seed.parse().unwrap(),
            perlin_seed: perlin_seed.parse().unwrap(),
        };
        row_value(id, Some(seeds), Seeds { id: None, rng_seed: 0, perlin_seed: 0 })
    })
    .collect()
}

#[test]
fn seeds_stay_the_same() {
    let connection = open(Table::Seeds);
    let mut results = vec![];
    for seed in [5, 6] {
        let rows = read_seeds(&connection);
        let default = Seeds { id: None, rng_seed: seed, perlin_seed: 7 };
        let seeds = first_or_default(&rows, default);
        let data = format!("{} {}", seeds.rng_seed, seeds.perlin_seed);
        let executed = execute_upsert(&connection, Table::Seeds, seeds.id, &data).unwrap();
        results.push(query_and_upsert_seeds(&rows, default, executed));
    }
    assert_eq!(results[0], results[1]);
    assert_eq!((results[0].rng_seed, results[0].perlin_seed), (5, 7));
    assert!(results[0].id.is_some());
    assert_eq!(rows_of(&connection, Table::Seeds).len(), 1);
}

#[test]
fn queried_settings_stay_the_same() {
    let connection = open(Table::Settings);
    let mut results = vec![];
    for _ in 0..2 {
        let rows: Vec<Settings> = rows_of(&connection, Table::Settings)
            .into_iter()
            .map(|(id, _)| settings(Some(id), KeyBinding::C))
            .collect();
        let executed = if rows.is_empty() {
            execute_upsert(&connection, Table::Settings, None, "C")
        } else {
            None
        };
        results.push(query_settings(&rows, settings(None, KeyBinding::C), executed).0);
    }
    assert_eq!(results[0], results[1]);
    assert!(results[0].id.is_some());
    assert_eq!(rows_of(&connection, Table::Settings).len(), 1);
}
