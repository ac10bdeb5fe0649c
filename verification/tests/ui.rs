use komari::api::{BoundQuadrant, Operation, OperationUpdate, State};
use komari::clock::{Duration, Instant};
use komari::database::{test_character, test_map, DatabaseEvent};
use komari::models::actions::{
    Action, ActionCondition, ActionKey, ActionKeyDirection, ActionKeyWith, ActionMove, Bound,
    Position, RotationMode, WaitAfterBuffered,
};
use komari::models::keys::{KeyBinding, KeyBindingConfiguration, LinkKeyBinding};
use komari::models::stored::{GameMap, Settings};
use komari::ui::buttons::{
    is_disabled, is_suspend_resume_disabled, kind, start_or_stop, start_stop_text,
    suspend_or_resume, suspend_resume_text,
};
use komari::ui::canvas::{action_views, moved_to, rotation_bound_and_type, show, MinimapState};
use komari::ui::import::{classify, export_name, is_importable, Imported};
use komari::ui::info::{duration_from, GameStateInfo};
use komari::ui::maps::{
    after_creating, after_deleting, after_storing_created, after_storing_imported, begin,
    is_map_event, map_index, map_names, select_at, select_initial, MapWork, MinimapUpdate,
    Selection,
};
use komari::ui::tabs::{is_logged, screen_of, tabs, Screen};

fn named(name: &str, id: i64) -> GameMap {
    let mut map = test_map();
    map.name = name.to_string();
    map.id = Some(id);
    map
}

fn nothing_selected() -> Selection {
    Selection { map: None, preset: None }
}

fn name_of(map: &Option<GameMap>) -> Option<&str> {
    map.as_ref().map(|map| map.name.as_str())
}

#[test]
fn every_tab_shows_its_screen() {
    assert_eq!(tabs(false), vec!["Actions", "Characters", "Settings", "Localization"]);
    assert_eq!(tabs(true).last().map(String::as_str), Some("Debug"));
    assert_eq!(screen_of("Settings", false), Some(Screen::Settings));
    assert_eq!(screen_of("Debug", true), Some(Screen::Debug));
    assert_eq!(screen_of("Debug", false), None);
    assert_eq!(screen_of("settings", true), None);
    for tab in tabs(true) {
        assert_eq!(screen_of(&tab, true).unwrap().tab(), tab);
    }
}

#[test]
fn only_own_messages_are_logged() {
    assert!(is_logged("backend/player"));
    assert!(is_logged("ui::minimap"));
    assert!(is_logged("platforms"));
    assert!(!is_logged("tokio"));
    assert!(!is_logged("back"));
}

#[test]
fn first_map_is_selected_once() {
    let maps = Some(vec![named("One", 1), named("Two", 2)]);
    let mut selection = nothing_selected();
    assert!(!select_initial(&mut selection, &None));
    assert!(!select_initial(&mut selection, &Some(vec![])));
    assert!(select_initial(&mut selection, &maps));
    assert_eq!(name_of(&selection.map), Some("One"));
    assert_eq!(selection.preset.as_deref(), Some("Test"));
    assert!(!select_initial(&mut selection, &maps));
    select_at(&mut selection, maps.as_ref().unwrap(), 1);
    assert_eq!(name_of(&selection.map), Some("Two"));
    assert_eq!(map_index(&maps, &selection.map), Some(1));
    assert_eq!(map_names(&maps), vec!["One", "Two"]);
    assert_eq!(map_names(&None), Vec::<String>::new());
    assert_eq!(map_index(&maps, &Some(named("Three", 3))), None);
    assert_eq!(map_index(&None, &selection.map), None);
}

#[test]
fn created_map_is_selected_once_it_is_stored() {
    let mut selection = Selection { map: Some(named("Old", 1)), preset: Some("P".to_string()) };
    let work = begin(&selection, MinimapUpdate::Create("New".to_string()));
    assert!(matches!(work, MapWork::Create(name) if name == "New"));
    assert!(matches!(after_creating(None), MapWork::Nothing));
    assert!(matches!(after_creating(Some(test_map())), MapWork::StoreCreated(_)));

    assert!(matches!(after_storing_created(&mut selection, None), MapWork::Nothing));
    assert_eq!(name_of(&selection.map), Some("Old"));

    let work = after_storing_created(&mut selection, Some(named("New", 2)));
    assert!(matches!(work, MapWork::Apply(Some(map), None) if map.id == Some(2)));
    assert_eq!(name_of(&selection.map), Some("New"));
    assert_eq!(selection.preset, None);
}

#[test]
fn imported_map_is_selected_even_where_it_is_not_stored() {
    let mut selection = Selection { map: Some(named("Old", 1)), preset: Some("P".to_string()) };
    let work = begin(&selection, MinimapUpdate::Import(named("New", 2)));
    assert!(matches!(work, MapWork::StoreImported(map) if map.name == "New"));
    let work = after_storing_imported(&mut selection, Some(named("New", 2)));
    assert!(matches!(work, MapWork::Apply(Some(_), None)));
    assert_eq!(name_of(&selection.map), Some("New"));
    let work = after_storing_imported(&mut selection, None);
    assert!(matches!(work, MapWork::Apply(None, None)));
    assert!(selection.map.is_none());
}

#[test]
fn deleted_map_is_no_longer_selected() {
    let mut selection = Selection { map: Some(named("Old", 1)), preset: Some("P".to_string()) };
    assert!(matches!(begin(&nothing_selected(), MinimapUpdate::Delete), MapWork::Nothing));
    let work = begin(&selection, MinimapUpdate::Delete);
    assert!(matches!(work, MapWork::Delete(map) if map.id == Some(1)));
    assert!(matches!(after_deleting(&mut selection, false), MapWork::Nothing));
    assert!(selection.map.is_some());
    assert!(matches!(after_deleting(&mut selection, true), MapWork::Apply(None, None)));
    assert!(selection.map.is_none() && selection.preset.is_none());
}

#[test]
fn selection_is_applied_as_it_is() {
    let selection = Selection { map: Some(named("Old", 1)), preset: Some("P".to_string()) };
    match begin(&selection, MinimapUpdate::Use) {
        MapWork::Apply(map, preset) => {
            assert_eq!(name_of(&map), Some("Old"));
            assert_eq!(preset.as_deref(), Some("P"));
        }
        other => panic!("{other:?}"),
    }
}

#[test]
fn maps_are_read_again_when_they_change() {
    assert!(is_map_event(&DatabaseEvent::MapUpdated(test_map())));
    assert!(is_map_event(&DatabaseEvent::MapDeleted(1)));
    assert!(!is_map_event(&DatabaseEvent::CharacterDeleted(1)));
}

#[test]
fn bound_is_that_of_the_mode() {
    let mut map = test_map();
    map.rotation_auto_mob_bound = Bound { x: 1, y: 2, width: 3, height: 4 };
    map.rotation_ping_pong_bound = Bound { x: 5, y: 6, width: 7, height: 8 };
    assert_eq!(rotation_bound_and_type(&None), None);
    assert_eq!(rotation_bound_and_type(&Some(test_map())), None);
    map.rotation_mode = RotationMode::AutoMobbing;
    let auto = rotation_bound_and_type(&Some(map)).unwrap();
    assert_eq!(auto, (Bound { x: 1, y: 2, width: 3, height: 4 }, "AutoMobbing"));
    let mut map = test_map();
    map.rotation_ping_pong_bound = Bound { x: 5, y: 6, width: 7, height: 8 };
    map.rotation_mode = RotationMode::PingPong;
    let ping = rotation_bound_and_type(&Some(map)).unwrap();
    assert_eq!(ping, (Bound { x: 5, y: 6, width: 7, height: 8 }, "PingPong"));
}

fn key_at(position: Option<Position>) -> Action {
    Action::Key(ActionKey {
        key: KeyBinding::A,
        key_hold_millis: 0,
        key_hold_buffered_to_wait_after: false,
        link_key: LinkKeyBinding::Unlinked,
        count: 1,
        position,
        condition: ActionCondition::EveryMillis(10),
        direction: ActionKeyDirection::Any,
        with: ActionKeyWith::Any,
        wait_before_use_millis: 0,
        wait_before_use_millis_random_range: 0,
        wait_after_use_millis: 0,
        wait_after_use_millis_random_range: 0,
        wait_after_buffered: WaitAfterBuffered::Unbuffered,
        queue_to_front: None,
    })
}

#[test]
fn actions_with_a_position_are_drawn() {
    let position = Position { x: 3, x_random_range: 0, y: 4, allow_adjusting: false };
    let step = Action::Move(ActionMove {
        position: Position { x: 5, ..position },
        condition: ActionCondition::Any,
        wait_after_move_millis: 0,
    });
    let mut map = test_map();
    map.actions = vec![
        ("Other".to_string(), vec![step]),
        ("Mine".to_string(), vec![key_at(Some(position)), key_at(None), step]),
    ];
    let drawn = |preset: Option<&str>| {
        action_views(&map, &preset.map(str::to_string))
            .into_iter()
            .map(|view| (view.x, view.y, view.condition))
            .collect::<Vec<_>>()
    };
    assert_eq!(
        drawn(Some("Mine")),
        vec![(3, 4, "EveryMillis".to_string()), (5, 4, "Any".to_string())]
    );
    assert_eq!(drawn(Some("Nobody's")), vec![]);
    assert_eq!(drawn(None), vec![]);
}

fn mock_state(frame: Option<(Vec<u8>, usize, usize)>) -> State {
    State {
        position: Some((-3, 7)),
        health: Some((50, 100)),
        state: "Idle".to_string(),
        normal_action: None,
        priority_action: Some("Solve".to_string()),
        erda_shower_state: "Idle".to_string(),
        input_state: "Default".to_string(),
        gpu_enabled: true,
        lie_detector_count: 12,
        total_runtime: Duration { nanos: 3_725_000_000_000 },
        destinations: vec![(1, 2)],
        operation: Operation::Running,
        frame,
        portals: vec![Bound { x: 1, y: 1, width: 2, height: 2 }],
        auto_mob_quadrant: Some(BoundQuadrant::BottomLeft),
    }
}

#[test]
fn nothing_is_drawn_without_a_frame() {
    let (shown, drawing) = show(mock_state(None), None);
    assert!(drawing.is_none());
    assert_eq!(shown.detected_size, None);
    assert_eq!(shown.lie_detector_count, 12);

    let bound = Some(Bound { x: 9, y: 9, width: 9, height: 9 });
    let (shown, drawing) = show(mock_state(Some((vec![1, 2, 3, 4], 1, 1))), bound);
    let drawing = drawing.unwrap();
    assert_eq!(shown.detected_size, Some((1, 1)));
    assert_eq!(drawing.frame, vec![1, 2, 3, 4]);
    assert_eq!(drawing.destinations, vec![(1, 2)]);
    assert_eq!(drawing.portals.len(), 1);
    assert_eq!(drawing.quadrant, Some("BottomLeft"));
    assert_eq!(drawing.bound, bound);
}

#[test]
fn position_is_shown_when_it_changes() {
    assert_eq!(moved_to((1, 2), Some((1, 2))), None);
    assert_eq!(moved_to((1, 2), Some((1, 3))), Some((1, 3)));
    assert_eq!(moved_to((1, 2), None), Some((0, 0)));
    assert_eq!(moved_to((0, 0), None), None);
}

fn mock_shown() -> MinimapState {
    show(mock_state(Some((vec![], 20, 10))), None).0
}

#[test]
fn info_describes_the_state() {
    let now = Instant { nanos: 5_000_000_000 };
    let info = GameStateInfo::new(&Some(mock_shown()), &Some(test_map()), now);
    assert_eq!(info.position, "-3, 7");
    assert_eq!(info.health, "50 / 100");
    assert_eq!(info.state, "Idle");
    assert_eq!(info.normal_action, "None");
    assert_eq!(info.priority_action, "Solve");
    assert_eq!(info.gpu_enabled, "true");
    assert_eq!(info.lie_detector_count, "12");
    assert_eq!(info.detected_map_size, "20px x 10px");
    assert_eq!(info.selected_map_size, "0px x 0px");
    assert_eq!(info.time_until_stop, "None");
    assert_eq!(info.run_time, "01:02:05");

    let mut shown = mock_shown();
    shown.operation = Operation::RunUntil(Instant { nanos: 65_000_000_000 });
    let info = GameStateInfo::new(&Some(shown), &None, now);
    assert_eq!(info.time_until_stop, "00:01:00");
    assert_eq!(info.selected_map_size, "Unknown");

    let mut shown = mock_shown();
    shown.operation = Operation::TemporaryHalting(Duration { nanos: 59_999_999_999 });
    let info = GameStateInfo::new(&Some(shown), &None, now);
    assert_eq!(info.time_until_stop, "00:00:59");
}

#[test]
fn info_is_unknown_at_first() {
    let info = GameStateInfo::new(&None, &None, Instant { nanos: 0 });
    assert_eq!(info.position, "Unknown");
    assert_eq!(info.health, "Unknown");
    assert_eq!(info.normal_action, "None");
    assert_eq!(info.lie_detector_count, "0");
    assert_eq!(info.time_until_stop, "None");
    assert_eq!(info.run_time, "0s");
}

#[test]
fn durations_are_written_like_a_clock() {
    let secs = |secs: u128| duration_from(Duration { nanos: secs * 1_000_000_000 });
    assert_eq!(secs(0), "00:00:00");
    assert_eq!(secs(3_599), "00:59:59");
    assert_eq!(secs(3_600), "01:00:00");
    assert_eq!(secs(360_000), "100:00:00");
}

#[test]
fn buttons_follow_the_operation() {
    let left = Duration { nanos: 1 };
    let end = Instant { nanos: 1 };
    assert_eq!(kind(None), OperationUpdate::Halt);
    assert_eq!(kind(Some(Operation::RunUntil(end))), OperationUpdate::Run);
    assert_eq!(kind(Some(Operation::TemporaryHalting(left))), OperationUpdate::TemporaryHalt);
    assert_eq!(start_stop_text(OperationUpdate::Halt), "Start");
    assert_eq!(start_stop_text(OperationUpdate::TemporaryHalt), "Stop");
    assert_eq!(start_or_stop(OperationUpdate::Halt), OperationUpdate::Run);
    assert_eq!(start_or_stop(OperationUpdate::Run), OperationUpdate::Halt);
    assert_eq!(suspend_or_resume(OperationUpdate::Run), OperationUpdate::TemporaryHalt);
    assert_eq!(suspend_or_resume(OperationUpdate::TemporaryHalt), OperationUpdate::Run);
    assert_eq!(suspend_resume_text(Some(Operation::TemporaryHalting(left))), "Resume");
    assert_eq!(suspend_resume_text(None), "Suspend");
    assert!(is_disabled(true, false) && is_disabled(false, true) && !is_disabled(true, true));
    assert!(is_suspend_resume_disabled(true, Some(Operation::RunUntil(end))));
    assert!(!is_suspend_resume_disabled(false, Some(Operation::RunUntil(end))));
    assert!(is_suspend_resume_disabled(false, Some(Operation::Running)));
    assert!(!is_suspend_resume_disabled(false, None));
}

fn mock_settings() -> Settings {
    let key = KeyBindingConfiguration { key: KeyBinding::F1, enabled: true };
    Settings { id: Some(4), toggle_actions_key: key }
}

#[test]
fn files_are_recognized() {
    assert_eq!(export_name(&Some(named("Oasis", 1))), "Oasis.json");
    assert_eq!(export_name(&None), ".json");
    assert!(is_importable("Oasis.json"));
    assert!(!is_importable("Oasis.jso") && !is_importable("json"));

    let all = classify(Some(named("M", 1)), Some(mock_settings()), Some(test_character()));
    assert!(matches!(all, Imported::GameMap(map) if map.id == Some(1)));
    match classify(None, Some(mock_settings()), Some(test_character())) {
        Imported::Settings(settings) => {
            assert_eq!(settings.id, None);
            assert_eq!(settings.toggle_actions_key.key, KeyBinding::F1);
        }
        other => panic!("{other:?}"),
    }
    let character = classify(None, None, Some(test_character()));
    assert!(matches!(character, Imported::Character(character) if character.name == "Test"));
    assert!(matches!(classify(None, None, None), Imported::Unrecognized));
}
