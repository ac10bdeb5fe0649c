use std::sync::Arc;

use komari::bridge::{InputCommand, KeyKind, MouseKind};
use komari::clock::Instant;
use komari::detect::Detector;
use komari::ecs::{OperationState, PlayerEntity, Resources};
use komari::geometry::{distance_squared, mid_point, square_root, Point, Rect};
use komari::player::actions::PlayerAction;
use komari::player::context::{PlayerConfiguration, PlayerContext};
use komari::player::solve_shape::{
    update_solving, update_solving_shape_state, update_waiting, ShapeFollowup, ShapeProgress,
    SolvingShape, State, MAX_TITLE_RETRIES, SOLVING_TIMEOUT,
};
use komari::player::timeout::Timeout;
use komari::player::Player;
use komari::solvers::angles::{AngleHistory, ANGLE_WINDOW};
use komari::solvers::shape::{
    background_tracks, find_track_closest_to, leading_rotation, RotationLead, SeenShapes, ShapeTrack,
    TransparentShapeSolver, CURSOR_SMOOTHING_SLOW_FRAMES, SWITCH_FRAMES,
};
use komari::task::Update;
use komari::tracker::assignment::{linear_assignment, pad_costs, Assignment};
use komari::tracker::bytetracker::{
    remove_duplicate_stracks, ByteTracker, FrameMatches, IouGating,
};
use komari::tracker::strack::{MotionStep, STrack, TrackState};

#[test]
fn square_roots_are_rounded_down() {
    for (n, root) in [(0, 0), (1, 1), (3, 1), (4, 2), (99, 9), (100, 10), (u64::MAX, 0xFFFF_FFFF)] {
        assert_eq!(square_root(n), root);
    }
    assert_eq!(distance_squared(Point::new(-1, 2), Point::new(2, -2)), 25);
    assert_eq!(mid_point(Rect::new(10, 20, 5, -5)), Point::new(12, 18));
}

fn matrix(columns: Vec<usize>, within: Vec<Vec<bool>>) -> Assignment {
    Assignment { columns, within }
}

#[test]
fn costs_are_padded_to_a_square() {
    let costs = vec![vec![1, 2, 3], vec![4, 5, 6]];
    assert_eq!(pad_costs(&costs, 9), vec![1, 2, 3, 4, 5, 6, 9, 9, 9]);
    let costs = vec![vec![1], vec![2]];
    assert_eq!(pad_costs(&costs, 9), vec![1, 9, 2, 9]);
}

#[test]
fn rows_and_columns_are_matched_or_left() {
    let assignment = matrix(vec![1, 0, 2], vec![vec![true, true], vec![false, true], vec![true, true]]);
    let (matches, rows, columns) = linear_assignment(&assignment);
    assert_eq!(matches, vec![(0, 1)]);
    assert_eq!(rows, vec![1, 2]);
    assert_eq!(columns, vec![0]);
}

#[test]
fn detections_go_with_one_track() {
    let all = vec![true, true, true];
    let assignment = matrix(vec![2, 0, 1], vec![all.clone(), all.clone(), all]);
    let (matches, rows, columns) = linear_assignment(&assignment);
    assert_eq!(matches, vec![(0, 2), (1, 0), (2, 1)]);
    assert!(rows.is_empty() && columns.is_empty());
}

fn mock_tracker() -> ByteTracker {
    ByteTracker::new(30, 25, 10, 25, IouGating::Ungated)
}

#[test]
fn first_frame_begins_tracks() {
    let mut tracker = mock_tracker();
    let detections = vec![STrack::new(1, 50), STrack::new(2, 15), STrack::new(3, 5)];
    let frame = tracker.start_frame(&detections);
    assert!(frame.begun);
    assert_eq!(frame.high.len(), 1);
    assert_eq!(frame.low.len(), 1);
    assert_eq!(frame.steps, vec![MotionStep::Activate(2), MotionStep::Activate(1)]);
    assert_eq!(tracker.followed.len(), 2);
    assert_eq!(tracker.frame_id, 1);
    assert_eq!(tracker.followed[0].start_frame_id, 1);
}

#[test]
fn tracks_are_followed_lost_and_found_again() {
    let mut tracker = mock_tracker();
    tracker.start_frame(&vec![STrack::new(1, 50)]);

    // Seen again.
    let frame = tracker.start_frame(&vec![STrack::new(2, 60)]);
    assert!(!frame.begun);
    let assignment = matrix(vec![0], vec![vec![true]]);
    let matches = tracker.associate_high_detections(&frame.high, &assignment);
    assert_eq!(matches.steps, vec![MotionStep::Update(1, 2)]);
    assert_eq!(matches.activated[0].tracklet_len, 1);
    assert!(matches.unmatched_tracks.is_empty());
    let mut activated = matches.activated;
    let mut steps = vec![];
    let none = matrix(vec![], vec![]);
    let lost = tracker.associate_low_detections(
        &matches.unmatched_tracks,
        &frame.low,
        &none,
        &mut activated,
        &mut steps,
    );
    assert!(lost.is_empty());
    let unconfirmed = tracker.associate_unconfirmed(
        &matches.unmatched_detections,
        &none,
        &mut activated,
        &mut steps,
    );
    tracker.finish_frame(&activated, &lost, unconfirmed, &vec![vec![]]);
    assert_eq!(tracker.followed.len(), 1);

    // Not seen.
    let frame = tracker.start_frame(&vec![]);
    let unseen = matrix(vec![0], vec![vec![]]);
    let matches = tracker.associate_high_detections(&frame.high, &unseen);
    assert_eq!(matches.unmatched_tracks.len(), 1);
    let mut activated = matches.activated;
    let lost = tracker.associate_low_detections(
        &matches.unmatched_tracks,
        &frame.low,
        &unseen,
        &mut activated,
        &mut steps,
    );
    assert_eq!(lost.len(), 1);
    assert_eq!(lost[0].state, TrackState::Lost);
    let unconfirmed = tracker.associate_unconfirmed(&vec![], &none, &mut activated, &mut steps);
    tracker.finish_frame(&activated, &lost, unconfirmed, &vec![]);
    assert!(tracker.followed.is_empty());
    assert_eq!(tracker.lost.len(), 1);

    // Seen once more.
    let frame = tracker.start_frame(&vec![STrack::new(7, 60)]);
    let matches = tracker.associate_high_detections(&frame.high, &assignment);
    assert_eq!(matches.steps, vec![MotionStep::Reactivate(1, 7)]);
    assert_eq!(matches.activated[0].state, TrackState::Followed);
}

#[test]
fn whole_frames_are_gone_through() {
    let none = || matrix(vec![], vec![]);
    let mut tracker = mock_tracker();
    let matches =
        FrameMatches { high: none(), low: none(), unconfirmed: none(), near_rows: vec![] };
    let (followed, steps) =
        tracker.update(&vec![STrack::new(1, 50), STrack::new(2, 15)], &matches);
    assert_eq!(followed.len(), 2);
    assert_eq!(steps, vec![MotionStep::Activate(2), MotionStep::Activate(1)]);

    // The first track is seen surely, the second one not so, and a third one begins.
    let matches = FrameMatches {
        high: matrix(vec![1, 0], vec![vec![false, false], vec![true, false]]),
        low: matrix(vec![0], vec![vec![true]]),
        unconfirmed: none(),
        near_rows: vec![vec![], vec![]],
    };
    let detections = vec![STrack::new(3, 60), STrack::new(4, 70), STrack::new(5, 20)];
    let (followed, steps) = tracker.update(&detections, &matches);
    assert_eq!(followed.iter().map(|track| track.motion).collect::<Vec<_>>(), vec![1, 2]);
    assert_eq!(
        steps,
        vec![MotionStep::Update(1, 3), MotionStep::Update(2, 5), MotionStep::Activate(4)]
    );
    assert_eq!(tracker.unconfirmed.len(), 1);
    assert!(tracker.lost.is_empty());

    // Nothing is seen any more.
    let matches = FrameMatches {
        high: matrix(vec![0, 1], vec![vec![], vec![]]),
        low: matrix(vec![0, 1], vec![vec![], vec![]]),
        unconfirmed: matrix(vec![0], vec![vec![]]),
        near_rows: vec![],
    };
    let (followed, steps) = tracker.update(&vec![], &matches);
    assert!(followed.is_empty() && steps.is_empty());
    assert_eq!(tracker.lost.len(), 2);
    assert!(tracker.unconfirmed.is_empty());
    assert_eq!(tracker.frame_id, 3);
}

#[test]
fn new_tracks_have_to_be_confirmed() {
    let mut tracker = mock_tracker();
    tracker.start_frame(&vec![STrack::new(1, 50)]);
    tracker.followed.clear();
    let frame = tracker.start_frame(&vec![STrack::new(2, 60)]);
    let mut activated = vec![];
    let mut steps = vec![];
    let none = matrix(vec![], vec![]);
    let unconfirmed =
        tracker.associate_unconfirmed(&frame.high, &none, &mut activated, &mut steps);
    assert_eq!(unconfirmed.len(), 1);
    assert!(activated.is_empty());
    tracker.finish_frame(&activated, &vec![], unconfirmed, &vec![]);
    assert_eq!(tracker.unconfirmed.len(), 1);

    let frame = tracker.start_frame(&vec![STrack::new(3, 60)]);
    let matched = matrix(vec![0], vec![vec![true]]);
    let unconfirmed =
        tracker.associate_unconfirmed(&frame.high, &matched, &mut activated, &mut steps);
    assert!(unconfirmed.is_empty());
    assert_eq!(activated.len(), 1);
}

#[test]
fn older_of_two_near_tracks_survives() {
    let older = STrack { start_frame_id: 1, frame_id: 9, ..STrack::new(1, 50) };
    let newer = STrack { start_frame_id: 5, frame_id: 9, ..STrack::new(2, 50) };
    let (a, b) = remove_duplicate_stracks(&vec![older], &vec![newer], &vec![vec![true]]);
    assert_eq!((a.len(), b.len()), (1, 0));
    let (a, b) = remove_duplicate_stracks(&vec![newer], &vec![older], &vec![vec![true]]);
    assert_eq!((a.len(), b.len()), (0, 1));
    let (a, b) = remove_duplicate_stracks(&vec![newer], &vec![older], &vec![vec![false]]);
    assert_eq!((a.len(), b.len()), (1, 1));
}

#[test]
fn angles_are_remembered_for_a_while() {
    let mut history = AngleHistory::new();
    assert_eq!(history.last(1), None);
    for i in 0..=ANGLE_WINDOW {
        history.push(1, i);
    }
    history.push(2, 77);
    assert_eq!(history.len_of(1), ANGLE_WINDOW);
    assert_eq!(history.last(1), Some(ANGLE_WINDOW));
    assert_eq!(history.last(2), Some(77));
    assert!(history.has_window_of(ANGLE_WINDOW));
    history.retain(&vec![2]);
    assert_eq!(history.len_of(1), 0);
    assert_eq!(history.len_of(2), 1);
    assert!(!history.has_window_of(2));
}

fn track(track_id: u64, x: i32, y: i32) -> ShapeTrack {
    ShapeTrack {
        track_id,
        rect: Rect::new(x, y, 10, 10),
        tracklet_len: 9,
        step: Point::new(2, 1),
        drift: 0,
    }
}

const REGION: Rect = Rect { x: 1000, y: 500, width: 100, height: 80 };

#[test]
fn solver_begins_in_the_middle() {
    let tracks = vec![track(1, 0, 0), track(2, 40, 30), track(3, 45, 35)];
    assert_eq!(find_track_closest_to(Point::new(50, 40), &tracks), Some(2));
    assert_eq!(find_track_closest_to(Point::new(50, 40), &vec![]), None);

    let mut solver = TransparentShapeSolver::default();
    solver.update_initial_track_if_needed(REGION, &tracks, false);
    assert_eq!(solver.current_track_id, Some(3));
    assert_eq!(solver.last_cursor, Some(Point::new(50, 40)));

    // Whatever rotates most strongly is preferred, the last one among equals.
    let mut rotating = tracks.clone();
    rotating[0].drift = 5;
    rotating[1].drift = 5;
    let mut solver = TransparentShapeSolver::default();
    solver.update_initial_track_if_needed(REGION, &rotating, true);
    assert_eq!(solver.current_track_id, Some(2));

    // The shape to begin with is chosen once.
    solver.update_initial_track_if_needed(REGION, &tracks, false);
    assert_eq!(solver.current_track_id, Some(2));
}

#[test]
fn solver_follows_a_rotating_shape() {
    assert_eq!(leading_rotation(&vec![(1, 5), (2, 9), (3, 9)]), Some(1));
    assert_eq!(leading_rotation(&vec![]), None);
    let lead = Some(RotationLead { track_id: 2, clear: true });
    let settled = TransparentShapeSolver {
        current_track_id: Some(1),
        current_track_tenure: ANGLE_WINDOW as u32 + 1,
        ..TransparentShapeSolver::default()
    };
    let mut solver = settled;
    solver.check_rotation(14, lead);
    assert_eq!(solver, settled);
    solver.check_rotation(15, Some(RotationLead { track_id: 2, clear: false }));
    assert_eq!(solver, settled);
    solver.check_rotation(15, lead);
    assert_eq!(solver.current_track_id, Some(2));
    assert_eq!(solver.current_track_tenure, 0);
    assert_eq!(solver.slow_smoothing_remaining, CURSOR_SMOOTHING_SLOW_FRAMES);
}

#[test]
fn background_is_told_from_shapes_apart_from_the_cursor() {
    let tracks = vec![track(1, 0, 0), track(2, 40, 30), track(3, 90, 0), track(4, 0, 90)];
    let cursor = Some(Point::new(45, 35));
    assert_eq!(background_tracks(cursor, &tracks), Some(vec![0, 2, 3]));
    assert_eq!(background_tracks(None, &tracks), Some(vec![0, 1, 2, 3]));
    let mut young = tracks.clone();
    young[0].tracklet_len = 4;
    assert_eq!(background_tracks(cursor, &young), None);
    // A shape beside the cursor that is closer than it is large says nothing.
    let close = vec![track(1, 0, 0), track(2, 46, 36), track(3, 90, 0), track(4, 0, 90)];
    assert_eq!(background_tracks(cursor, &close), Some(vec![0, 2, 3]));
}

fn following(track_id: u64) -> TransparentShapeSolver {
    TransparentShapeSolver {
        current_track_id: Some(track_id),
        last_cursor: Some(Point::new(45, 35)),
        last_step: Some(Point::new(10, 0)),
        ..TransparentShapeSolver::default()
    }
}

#[test]
fn solver_begins_turns_and_follows_in_one_frame() {
    let mut solver = TransparentShapeSolver::default();
    let mut seen = SeenShapes {
        tracks: vec![track(1, 40, 30), track(2, 0, 0)],
        has_history: false,
        call: 0,
        lead: Some(RotationLead { track_id: 2, clear: true }),
        scores: vec![Some(5), Some(9)],
    };
    assert!(solver.solve_frame(REGION, &seen, 3).is_some());
    assert_eq!(solver.current_track_id, Some(1));
    assert_eq!(solver.candidate_track_id, Some(2));

    // Another one that rotates more strongly is followed at once.
    solver.current_track_tenure = ANGLE_WINDOW as u32 + 1;
    seen.call = 15;
    let cursor = solver.solve_frame(REGION, &seen, 3);
    assert_eq!(solver.current_track_id, Some(2));
    assert_eq!(cursor, Some(REGION.tl().shift(mid_point(seen.tracks[1].rect))));
}

#[test]
fn solver_stays_with_its_shape() {
    let tracks = vec![track(1, 40, 30), track(2, 0, 0)];
    let mut solver = following(1);
    let cursor = solver.solve(&tracks, &vec![Some(9), Some(5)], 3, REGION);
    assert_eq!(cursor, Some(Point::new(1045, 535)));
    assert_eq!(solver.current_track_tenure, 1);

    // Another shape must be the best one for some frames in a row.
    let mut solver = following(1);
    for _ in 0..SWITCH_FRAMES {
        assert_eq!(
            solver.solve(&tracks, &vec![Some(5), Some(9)], 3, REGION),
            Some(Point::new(1045, 535))
        );
        assert_eq!(solver.current_track_id, Some(1));
    }
    let cursor = solver.solve(&tracks, &vec![Some(5), Some(9)], 3, REGION);
    assert_eq!(cursor, Some(Point::new(1005, 505)));
    assert_eq!(solver.current_track_id, Some(2));
    assert_eq!(solver.current_track_tenure, 0);
}

#[test]
fn solver_goes_on_without_its_shape() {
    let mut solver = following(1);
    let far = vec![track(2, 0, 0)];
    // The other shape is not good enough.
    let cursor = solver.solve(&far, &vec![Some(2)], 3, REGION);
    assert_eq!(cursor, Some(Point::new(1055, 535)));
    assert_eq!(solver.last_cursor, Some(Point::new(55, 35)));
    for _ in 0..4 {
        assert!(solver.solve(&vec![], &vec![], 3, REGION).is_some());
    }
    // The cursor does not leave the region.
    assert_eq!(solver.solve(&vec![], &vec![], 3, REGION), None);
    assert_eq!(solver.last_cursor, Some(Point::new(95, 35)));

    let mut idle = TransparentShapeSolver::default();
    assert_eq!(idle.solve(&far, &vec![Some(9)], 3, REGION), None);
}

fn mock_detector() -> Detector {
    Detector {
        lie_detector_shape_preparing: false,
        lie_detector_shape: None,
        familiar_menu_opened: false,
        familiar_slots: vec![],
        familiar_free_boxes: vec![],
        familiar_level_button: None,
        familiar_hover_level: None,
        familiar_cards: vec![],
        familiar_scrollbar: None,
        familiar_save_button: None,
    }
}

fn mock_resources(detector: Detector) -> Resources {
    Resources::new(Some(Arc::new(detector)), OperationState::Running, Instant { nanos: 0 })
}

#[test]
fn title_is_waited_for() {
    let mut shape = SolvingShape::default();
    let mut resources = mock_resources(mock_detector());
    for retry in 1..MAX_TITLE_RETRIES {
        update_waiting(&mut resources, &mut shape);
        assert_eq!(shape.title_retries, retry);
        assert_eq!(shape.state, State::Waiting);
    }
    update_waiting(&mut resources, &mut shape);
    assert_eq!(shape.state, State::Completed);

    let mut shape = SolvingShape { title_retries: 5, ..SolvingShape::default() };
    let mut preparing = mock_detector();
    preparing.lie_detector_shape_preparing = true;
    update_waiting(&mut mock_resources(preparing), &mut shape);
    assert_eq!(shape.title_retries, 0);

    // It is looked for in some ticks only.
    let mut shape = SolvingShape::default();
    resources.tick = 3;
    update_waiting(&mut resources, &mut shape);
    assert_eq!(shape.title_retries, 0);
}

#[test]
fn puzzle_lies_below_its_title() {
    let mut detector = mock_detector();
    detector.lie_detector_shape = Some(Rect::new(100, 50, 300, 20));
    let mut resources = mock_resources(detector);
    resources.debug.auto_record_lie_detector = true;
    let mut shape = SolvingShape::default();
    match update_waiting(&mut resources, &mut shape) {
        ShapeFollowup::StartSolving(region, recorded) => {
            assert_eq!(region, Rect::new(100, 70, 758, 505));
            assert!(recorded);
        }
        other => panic!("{other:?}"),
    }
    assert_eq!(resources.lie_detector_count, 1);
    assert!(matches!(shape.state, State::Solving(_)));
}

#[test]
fn cursor_follows_the_solver() {
    let progress = ShapeProgress { title: Update::Pending, cursor: Some(Point::new(3, 4)) };
    let mut resources = mock_resources(mock_detector());
    let mut shape =
        SolvingShape { state: State::Solving(Timeout::default()), ..SolvingShape::default() };
    let followup = update_solving(&mut resources, &mut shape, progress);
    assert!(matches!(followup, ShapeFollowup::SendFrame(_)));
    assert_eq!(resources.input, vec![InputCommand::Mouse(3, 4, MouseKind::Move)]);

    let over = ShapeProgress { title: Update::Answer(false), cursor: None };
    let followup = update_solving(&mut resources, &mut shape, over);
    assert!(matches!(followup, ShapeFollowup::Nothing));
    assert_eq!(shape.state, State::Completed);

    let timeout = Timeout { current: SOLVING_TIMEOUT, total: 0, started: true };
    let mut shape = SolvingShape { state: State::Solving(timeout), ..SolvingShape::default() };
    update_solving(&mut resources, &mut shape, progress);
    assert_eq!(shape.state, State::Completed);
    assert_eq!(shape.name(), "Completed");
}

#[test]
fn solved_puzzle_ends_its_action() {
    let mut context = PlayerContext::new(PlayerConfiguration {
        jump_key: KeyKind::Space,
        teleport_key: None,
        familiar_key: None,
        has_extended_teleport_range: false,
        disable_teleport_on_fall: false,
        move_timeout: 5,
        grappling_threshold: 24,
        familiars_swap_fail_limit: 3,
    });
    context.set_priority_action(Some(1), PlayerAction::SolveShape);
    let state = State::Solving(Timeout::default());
    let mut player = PlayerEntity {
        state: Player::SolvingShape(SolvingShape { state, ..SolvingShape::default() }),
        context,
        last_destinations: None,
        can_override_state: false,
        can_override_state_anywhere: false,
    };
    let mut resources = mock_resources(mock_detector());
    let on = ShapeProgress { title: Update::Pending, cursor: None };
    update_solving_shape_state(&mut resources, &mut player, on);
    assert!(matches!(player.state, Player::SolvingShape(_)));
    assert!(player.context.has_priority_action());
    let over = ShapeProgress { title: Update::Answer(false), cursor: None };
    update_solving_shape_state(&mut resources, &mut player, over);
    assert!(matches!(player.state, Player::Idle));
    assert!(!player.context.has_priority_action());
}
