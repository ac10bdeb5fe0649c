use std::sync::Arc;

use komari::api::{
    BoundQuadrant, Operation, OperationUpdate, Request, ResponseKind, TransparentShapeDifficulty,
};
use komari::bridge::KeyKind;
use komari::clock::{Duration, Instant};
use komari::detect::Detector;
use komari::ecs::{
    Minimap, MinimapEntity, MinimapIdle, OperationState, PlayerEntity, Resources, Skill,
    SolvedArrow, World, WorldEvent,
};
use komari::geometry::{Point, Rect};
use komari::models::actions::Bound;
use komari::models::keys::{KeyBinding, KeyBindingConfiguration, LinkKeyBinding, MobbingKey};
use komari::models::stored::Settings;
use komari::player::context::{PlayerConfiguration, PlayerContext, Quadrant};
use komari::player::Player;
use komari::run::{
    count_tick, frame_sleep_nanos, is_capturing_normally, start_once, CaptureOutcome, EventWatch,
    Snapshot, SystemsLoop, WatchUpdates,
};
use komari::services::debug::{
    is_cropped, pad_frame_to_game_screen, picked_video_name, test_video_name, Border, DebugService,
    RecordStep, ShapeTest, ShapeTestStep,
};
use komari::services::input::{InputEvent, InputEventHandler};
use komari::services::mediator::{
    broadcast_state, handle_ui_request, minimap_frame_from, ServiceCommand, Shown,
};
use komari::task::Update;

fn mock_world() -> World {
    World {
        minimap: MinimapEntity {
            state: Minimap::Detecting,
            portals: vec![Bound { x: 1, y: 2, width: 3, height: 4 }],
        },
        player: PlayerEntity {
            state: Player::Idle,
            context: PlayerContext::new(PlayerConfiguration {
                jump_key: KeyKind::Space,
                teleport_key: None,
                familiar_key: None,
                has_extended_teleport_range: false,
                disable_teleport_on_fall: false,
                move_timeout: 5,
                grappling_threshold: 24,
                familiars_swap_fail_limit: 3,
            }),
            last_destinations: None,
            can_override_state: false,
            can_override_state_anywhere: false,
        },
        erda_shower: Skill::Detecting,
        buffs: vec![],
    }
}

fn idle() -> Minimap {
    Minimap::Idle(MinimapIdle {
        bbox: Rect::new(0, 0, 10, 10),
        rune: None,
        has_any_other_player: false,
    })
}

fn mock_detector() -> Arc<Detector> {
    Arc::new(Detector {
        lie_detector_shape_preparing: false,
        lie_detector_shape: None,
        familiar_menu_opened: false,
        familiar_slots: vec![],
        familiar_free_boxes: vec![],
        familiar_level_button: None,
        familiar_hover_level: None,
        familiar_cards: vec![],
        familiar_scrollbar: None,
        familiar_save_button: None,
    })
}

fn mock_resources() -> Resources {
    Resources::new(Some(mock_detector()), OperationState::Running, Instant { nanos: 100 })
}

const QUIET: WatchUpdates = WatchUpdates {
    lie_detector_shape: Update::Pending,
    lie_detector_violetta: Update::Pending,
    elite_boss: Update::Pending,
};

#[test]
fn time_is_counted_while_running() {
    let mut resources = mock_resources();
    count_tick(&mut resources, Instant { nanos: 150 });
    assert_eq!((resources.tick, resources.total_runtime.nanos), (1, 50));
    resources.operation = OperationState::Halting;
    count_tick(&mut resources, Instant { nanos: 250 });
    assert_eq!((resources.tick, resources.total_runtime.nanos), (2, 50));
    resources.operation = OperationState::RunUntil(Instant { nanos: 999 });
    count_tick(&mut resources, Instant { nanos: 260 });
    assert_eq!((resources.tick, resources.total_runtime.nanos), (3, 60));
}

#[test]
fn cash_shop_is_no_place_to_capture() {
    assert!(is_capturing_normally(CaptureOutcome::Captured, true));
    assert!(is_capturing_normally(CaptureOutcome::Failed, false));
    assert!(!is_capturing_normally(CaptureOutcome::Failed, true));
    assert!(!is_capturing_normally(CaptureOutcome::WindowNotFound, false));
    assert!(!is_capturing_normally(CaptureOutcome::WindowInvalidSize, false));
}

#[test]
fn capture_failure_is_reported_once() {
    let mut run = SystemsLoop::new();
    let mut resources = mock_resources();
    let world = mock_world();
    let player = Player::Idle;
    // Nothing was ever captured.
    assert_eq!(run.end_tick_without_frame(CaptureOutcome::WindowNotFound, &player), vec![]);

    assert!(run.begin_tick(&mut resources, CaptureOutcome::Captured, Instant { nanos: 200 }));
    let before = Snapshot::take(&resources, &world);
    assert_eq!(run.end_tick(before, &resources, &world, QUIET), vec![]);

    let outcome = CaptureOutcome::WindowNotFound;
    assert!(!run.begin_tick(&mut resources, outcome, Instant { nanos: 300 }));
    assert_eq!(run.end_tick_without_frame(outcome, &player), vec![WorldEvent::CaptureFailed]);
    assert_eq!(run.end_tick_without_frame(outcome, &player), vec![]);
}

#[test]
fn changes_are_reported() {
    let mut run = SystemsLoop::new();
    let mut resources = mock_resources();
    let mut world = mock_world();
    world.minimap.state = idle();
    resources.operation = OperationState::RunUntil(Instant { nanos: 5 });
    let before = Snapshot::take(&resources, &world);

    resources.operation = OperationState::Halting;
    world.player.context.is_dead = true;
    let appeared = WatchUpdates { elite_boss: Update::Answer(true), ..QUIET };
    let events = run.end_tick(before, &resources, &world, appeared);
    assert_eq!(
        events,
        vec![WorldEvent::RunTimerEnded, WorldEvent::PlayerDied, WorldEvent::EliteBossAppeared]
    );

    let before = Snapshot::take(&resources, &world);
    assert_eq!(run.end_tick(before, &resources, &world, appeared), vec![]);
}

#[test]
fn appearing_is_reported_again_after_disappearing() {
    let mut watch = EventWatch::new(WorldEvent::LieDetectorShapeAppeared);
    for (update, appeared) in [
        (Update::Answer(true), true),
        (Update::Answer(true), false),
        (Update::Failed, false),
        (Update::Pending, false),
        (Update::Answer(false), false),
        (Update::Answer(true), true),
    ] {
        let mut events = vec![];
        watch.hear(update, &mut events);
        assert_eq!(events.contains(&WorldEvent::LieDetectorShapeAppeared), appeared);
    }
}

#[test]
fn rest_of_a_frame_is_slept() {
    assert_eq!(frame_sleep_nanos(30, 0), Some(33_333_333));
    assert_eq!(frame_sleep_nanos(30, 33_333_333), Some(0));
    assert_eq!(frame_sleep_nanos(30, 33_333_334), None);
    let mut started = false;
    assert!(start_once(&mut started));
    assert!(!start_once(&mut started));
}

#[test]
fn toggle_key_halts_and_resumes() {
    let key = KeyBindingConfiguration { key: KeyBinding::F1, enabled: true };
    let settings = Settings { id: None, toggle_actions_key: key };
    let mut resources = mock_resources();
    let handle = |resources: &Resources, settings: &Settings, key| {
        InputEventHandler.handle(resources, settings, InputEvent::KeyReceived(key))
    };
    assert_eq!(
        handle(&resources, &settings, KeyKind::F1),
        Some(OperationUpdate::TemporaryHalt)
    );
    assert_eq!(handle(&resources, &settings, KeyKind::F2), None);
    resources.operation = OperationState::TemporaryHalting(Duration { nanos: 1 });
    assert_eq!(handle(&resources, &settings, KeyKind::F1), Some(OperationUpdate::Run));
    let key = KeyBindingConfiguration { key: KeyBinding::F1, enabled: false };
    let settings = Settings { id: None, toggle_actions_key: key };
    assert_eq!(handle(&resources, &settings, KeyKind::F1), None);
}

#[test]
fn requests_are_answered_in_kind() {
    let mut debug = komari::ecs::Debug::new();
    let update = Request::UpdateOperation(OperationUpdate::Run);
    let (response, commands) = handle_ui_request(&update, true, true, &mut debug);
    assert_eq!(response, ResponseKind::UpdateOperation);
    assert_eq!(commands, vec![ServiceCommand::UpdateOperation(OperationUpdate::Run)]);
    assert_eq!(handle_ui_request(&update, true, false, &mut debug).1, vec![]);

    let (response, commands) =
        handle_ui_request(&Request::UpdateMap(None, None), false, false, &mut debug);
    assert_eq!(response, ResponseKind::UpdateMap);
    assert_eq!(
        commands,
        vec![
            ServiceCommand::SelectMap,
            ServiceCommand::ApplyMap,
            ServiceCommand::RotateMap,
            ServiceCommand::ApplyRotation,
        ]
    );

    let (_, commands) =
        handle_ui_request(&Request::RefreshCaptureHandles, false, false, &mut debug);
    assert_eq!(
        commands,
        vec![
            ServiceCommand::UpdateWindows,
            ServiceCommand::SelectWindow(None),
            ServiceCommand::CaptureWindow,
            ServiceCommand::InputToWindow,
        ]
    );

    let (response, commands) =
        handle_ui_request(&Request::AutoSaveRune(true), false, false, &mut debug);
    assert_eq!(response, ResponseKind::AutoSaveRune);
    assert!(commands.is_empty());
    assert!(debug.auto_save_rune && !debug.auto_record_lie_detector);
}

fn mock_shown() -> Shown {
    Shown {
        health: Some((1, 2)),
        state: "Idle".to_string(),
        normal_action: None,
        priority_action: None,
        erda_shower_state: "Detecting".to_string(),
        input_state: "Default".to_string(),
        gpu_enabled: false,
        frame: Some((vec![1, 2, 3, 4], 1, 1)),
    }
}

#[test]
fn state_is_shown_once_it_was_picked_up() {
    let mut resources = mock_resources();
    let mut world = mock_world();
    assert!(broadcast_state(&resources, &world, mock_shown(), false).is_none());

    let state = broadcast_state(&resources, &world, mock_shown(), true).unwrap();
    assert_eq!(state.position, None);
    assert!(state.portals.is_empty());
    assert!(state.frame.is_none());
    assert!(state.destinations.is_empty());

    world.player.last_destinations = Some(vec![Point::new(5, 6), Point::new(7, 8)]);
    world.minimap.state = idle();
    world.player.context.last_known_pos = Some(Point::new(3, 4));
    world.player.context.auto_mob_last_quadrant = Some(Quadrant::TopRight);
    resources.operation = OperationState::Halting;
    let state = broadcast_state(&resources, &world, mock_shown(), true).unwrap();
    assert_eq!(state.position, Some((3, 4)));
    assert_eq!(state.destinations, vec![(5, 6), (7, 8)]);
    assert_eq!(state.portals.len(), 1);
    assert_eq!(state.auto_mob_quadrant, Some(BoundQuadrant::TopRight));
    assert_eq!(state.operation, Operation::Halting);
    assert_eq!(state.frame, Some((vec![1, 2, 3, 4], 1, 1)));
    assert_eq!(BoundQuadrant::TopRight.name(), "TopRight");
}

#[test]
fn minimap_is_shown_in_its_colors() {
    let bgra = vec![1, 2, 3, 4, 5, 6, 7, 8];
    let (rgba, width, height) = minimap_frame_from(Rect::new(0, 0, 2, 1), 2, 1, &bgra);
    assert_eq!(rgba, vec![3, 2, 1, 255, 7, 6, 5, 255]);
    assert_eq!((width, height), (2, 1));

    // Of a frame of three by two pixels the last two of the second row.
    let bgra: Vec<u8> = (0..24).collect();
    let (rgba, width, height) = minimap_frame_from(Rect::new(1, 1, 2, 1), 3, 2, &bgra);
    assert_eq!(rgba, vec![18, 17, 16, 255, 22, 21, 20, 255]);
    assert_eq!((width, height), (2, 1));

    let (rgba, width, height) = minimap_frame_from(Rect::new(3, 2, 0, 0), 3, 2, &bgra);
    assert!(rgba.is_empty() && width == 0 && height == 0);
}

#[test]
fn recording_needs_a_frame() {
    let mut service = DebugService::default();
    let mut resources = mock_resources();
    match service.record_video(&resources, true) {
        RecordStep::Start(path) => assert!(path.ends_with(".mp4")),
        other => panic!("{other:?}"),
    }
    let poll = service.poll(&resources, true);
    assert!(poll.write_frame);
    assert!(poll.state.unwrap().is_recording);
    assert!(service.poll(&resources, false).state.is_none());
    assert!(matches!(service.record_video(&resources, false), RecordStep::Stop));
    resources.detector = None;
    assert!(matches!(service.record_video(&resources, true), RecordStep::Ignore));
    assert!(!service.poll(&resources, true).write_frame);
}

#[test]
fn recordings_of_lie_detectors_are_told_apart() {
    let mut debug = komari::ecs::Debug::new();
    let path = debug.new_recording();
    assert!(path.starts_with("dataset/recordings/ld_") && path.ends_with(".mp4"));
    assert_eq!(path.len(), "dataset/recordings/ld_12345678.mp4".len());

    let arrows = [SolvedArrow::Up, SolvedArrow::Down, SolvedArrow::Left, SolvedArrow::Right];
    debug.set_last_rune_result(mock_detector(), arrows);
    assert!(debug.save_last_rune_result().is_none());
    debug.auto_save_rune = true;
    assert_eq!(debug.save_last_rune_result().unwrap().1, arrows);
}

#[test]
fn cropped_frames_are_padded() {
    assert!(is_cropped(999, 768) && is_cropped(1366, 699) && !is_cropped(1000, 700));
    assert_eq!(pad_frame_to_game_screen(1366, 768), None);
    assert_eq!(
        pad_frame_to_game_screen(755, 505),
        Some(Border { top: 131, bottom: 132, left: 305, right: 306 })
    );
    assert_eq!(
        pad_frame_to_game_screen(1400, 700),
        Some(Border { top: 34, bottom: 34, left: 0, right: 0 })
    );
    assert_eq!(
        test_video_name(TransparentShapeDifficulty::Hard),
        "transparent_shape_test_hard.mp4"
    );
    assert_eq!(picked_video_name(None), "test_video.mp4");
    assert_eq!(picked_video_name(Some("a.mp4".to_string())), "a.mp4");
}

#[test]
fn frames_are_shown_until_a_shape_is_followed() {
    let mut test = ShapeTest::new();
    assert!(test.begin_frame(755, 505).is_some());
    assert_eq!(
        test.end_frame(None),
        ShapeTestStep { show_frame: true, report: false, move_to: None }
    );
    let cursor = Some(Point::new(1, 2));
    assert!(test.begin_frame(1366, 768).is_none());
    assert_eq!(
        test.end_frame(cursor),
        ShapeTestStep { show_frame: false, report: false, move_to: cursor }
    );
    for _ in 0..28 {
        test.begin_frame(1366, 768);
    }
    let step = test.end_frame(None);
    assert!(!step.show_frame && step.report);
}

#[test]
fn linked_keys_keep_their_timing() {
    let link = LinkKeyBinding::Along(KeyBinding::A);
    assert_eq!(link.with_key(KeyBinding::B), LinkKeyBinding::Along(KeyBinding::B));
    assert_eq!(link.key(), Some(KeyBinding::A));
    assert_eq!(LinkKeyBinding::Unlinked.with_key(KeyBinding::B), LinkKeyBinding::Unlinked);
    assert_eq!(LinkKeyBinding::default().key(), None);
    assert_eq!(MobbingKey::default().count, 1);
}
