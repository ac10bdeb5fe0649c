//! What is drawn on the minimap.

use vstd::prelude::*;

use crate::api::{BoundQuadrant, Operation, State};
use crate::clock::Duration;
use crate::models::actions::{Action, Bound, Position, RotationMode};
use crate::models::stored::{GameMap, Identifiable};
use crate::text::same_text;
use crate::ui::maps::chars;

verus! {

/// An action that is carried out at a position.
#[derive(Debug)]
pub struct ActionView {
    pub x: i32,
    pub y: i32,
    pub condition: String,
}

/// The game as it is shown.
#[derive(Debug)]
pub struct MinimapState {
    pub position: Option<(i32, i32)>,
    pub health: Option<(u32, u32)>,
    pub state: String,
    pub normal_action: Option<String>,
    pub priority_action: Option<String>,
    pub erda_shower_state: String,
    pub input_state: String,
    pub gpu_enabled: bool,
    pub lie_detector_count: u64,
    pub total_runtime: Duration,
    pub operation: Operation,
    pub detected_size: Option<(usize, usize)>,
}

/// What is drawn over the minimap.
#[derive(Debug)]
pub struct Drawing {
    pub frame: Vec<u8>,
    pub width: usize,
    pub height: usize,
    pub destinations: Vec<(i32, i32)>,
    pub bound: Option<Bound>,
    pub quadrant: Option<&'static str>,
    pub portals: Vec<Bound>,
}

/// The bound that a map is rotated in, together with how it is called.
pub open spec fn rotation_bound(map: Option<GameMap>) -> Option<(Bound, Seq<char>)> {
    match map {
        None => None,
        Some(map) => match map.rotation_mode {
            RotationMode::StartToEnd | RotationMode::StartToEndThenReverse => None,
            RotationMode::AutoMobbing => Some((map.rotation_auto_mob_bound, "AutoMobbing"@)),
            RotationMode::PingPong => Some((map.rotation_ping_pong_bound, "PingPong"@)),
        },
    }
}

pub fn rotation_bound_and_type(map: &Option<GameMap>) -> (res: Option<(Bound, &'static str)>)
    ensures
        match res {
            Some((bound, kind)) => rotation_bound(*map) == Some((bound, kind@)),
            None => rotation_bound(*map) is None,
        },
{
    match map {
        None => None,
        Some(map) => match map.rotation_mode {
            RotationMode::StartToEnd | RotationMode::StartToEndThenReverse => None,
            RotationMode::AutoMobbing => Some((map.rotation_auto_mob_bound, "AutoMobbing")),
            RotationMode::PingPong => Some((map.rotation_ping_pong_bound, "PingPong")),
        },
    }
}

/// Where an action is carried out, if it is tied to a position.
pub open spec fn place(action: Action) -> Option<Position> {
    match action {
        Action::Move(action) => Some(action.position),
        Action::Key(action) => action.position,
    }
}

/// How actions are drawn. Those without a position are left out.
pub open spec fn drawn(actions: Seq<Action>) -> Seq<(i32, i32, Seq<char>)>
    decreases actions.len(),
{
    if actions.len() == 0 {
        seq![]
    } else {
        let before = drawn(actions.drop_last());
        match place(actions.last()) {
            Some(position) => before.push(
                (position.x, position.y, actions.last().due().label()),
            ),
            None => before,
        }
    }
}

pub open spec fn drawn_action(action: ActionView) -> (i32, i32, Seq<char>) {
    (action.x, action.y, action.condition@)
}

/// The actions of the preset of that name.
pub open spec fn preset_actions(presets: Seq<(String, Vec<Action>)>, name: Seq<char>) -> Seq<Action>
    decreases presets.len(),
{
    if presets.len() == 0 {
        seq![]
    } else if presets[0].0@ == name {
        presets[0].1@
    } else {
        preset_actions(presets.skip(1), name)
    }
}

fn draw(actions: &Vec<Action>) -> (res: Vec<ActionView>)
    ensures
        res@.map_values(|action: ActionView| drawn_action(action)) == drawn(actions@),
{
    let mut views: Vec<ActionView> = Vec::new();
    let mut i: usize = 0;
    proof {
        assert(actions@.take(0) =~= seq![]);
        assert(views@.map_values(|action: ActionView| drawn_action(action)) =~= seq![]);
    }
    while i < actions.len()
        invariant
            i <= actions@.len(),
            views@.map_values(|action: ActionView| drawn_action(action)) == drawn(
                actions@.take(i as int),
            ),
        decreases actions@.len() - i,
    {
        let action: Action = actions[i];
        let ghost before = views@;
        let position: Option<Position> = match action {
            Action::Move(action) => Some(action.position),
            Action::Key(action) => action.position,
        };
        assert(actions@.take(i + 1).drop_last() =~= actions@.take(i as int));
        match position {
            Some(position) => {
                let condition: String = action.condition().name().to_owned();
                let view: ActionView = ActionView { x: position.x, y: position.y, condition };
                views.push(view);
                assert(views@.map_values(|action: ActionView| drawn_action(action))
                    =~= before.map_values(|action: ActionView| drawn_action(action)).push(
                    drawn_action(view),
                ));
            },
            None => {},
        }
        i = i + 1;
    }
    assert(actions@.take(i as int) =~= actions@);
    views
}

/// The actions to be drawn for a preset of a map. There are none without a preset.
pub fn action_views(map: &GameMap, preset: &Option<String>) -> (res: Vec<ActionView>)
    ensures
        res@.map_values(|action: ActionView| drawn_action(action)) == match chars(*preset) {
            Some(name) => drawn(preset_actions(map.actions@, name)),
            None => seq![],
        },
{
    if let Some(name) = preset {
        let mut i: usize = 0;
        assert(map.actions@.skip(0) =~= map.actions@);
        while i < map.actions.len()
            invariant
                i <= map.actions@.len(),
                *preset == Some(*name),
                preset_actions(map.actions@, name@) == preset_actions(
                    map.actions@.skip(i as int),
                    name@,
                ),
            decreases map.actions@.len() - i,
        {
            let entry: &(String, Vec<Action>) = &map.actions[i];
            assert(map.actions@.skip(i as int)[0] == map.actions@[i as int]);
            if same_text(entry.0.as_str(), name.as_str()) {
                return draw(&entry.1);
            }
            assert(map.actions@.skip(i as int).skip(1) =~= map.actions@.skip(i + 1));
            i = i + 1;
        }
        assert(map.actions@.skip(i as int) =~= seq![]);
    }
    let none: Vec<ActionView> = Vec::new();
    assert(none@.map_values(|action: ActionView| drawn_action(action)) =~= seq![]);
    none
}

fn quadrant_name(quadrant: Option<BoundQuadrant>) -> (res: Option<&'static str>)
    ensures
        res is Some == quadrant is Some,
        res is Some ==> res.unwrap()@ == match quadrant.unwrap() {
            BoundQuadrant::TopLeft => "TopLeft"@,
            BoundQuadrant::TopRight => "TopRight"@,
            BoundQuadrant::BottomRight => "BottomRight"@,
            BoundQuadrant::BottomLeft => "BottomLeft"@,
        },
{
    match quadrant {
        Some(quadrant) => Some(quadrant.name()),
        None => None,
    }
}

/// Parts the state of the bot into what is shown as text and what is drawn. Nothing is drawn where
/// the minimap is not seen.
pub fn show(state: State, bound: Option<Bound>) -> (res: (MinimapState, Option<Drawing>))
    ensures
        ({
            let (shown, drawing) = res;
            &&& shown == MinimapState {
                position: state.position,
                health: state.health,
                state: state.state,
                normal_action: state.normal_action,
                priority_action: state.priority_action,
                erda_shower_state: state.erda_shower_state,
                input_state: state.input_state,
                gpu_enabled: state.gpu_enabled,
                lie_detector_count: state.lie_detector_count,
                total_runtime: state.total_runtime,
                operation: state.operation,
                detected_size: match state.frame {
                    Some((_, width, height)) => Some((width, height)),
                    None => None,
                },
            }
            &&& match (state.frame, drawing) {
                (Some((frame, width, height)), Some(drawing)) => {
                    &&& drawing.frame == frame && drawing.width == width && drawing.height
                        == height
                    &&& drawing.destinations == state.destinations
                    &&& drawing.portals == state.portals
                    &&& drawing.bound == bound
                    &&& drawing.quadrant is Some == state.auto_mob_quadrant is Some
                    &&& drawing.quadrant is Some ==> drawing.quadrant.unwrap()@
                        == match state.auto_mob_quadrant.unwrap() {
                        BoundQuadrant::TopLeft => "TopLeft"@,
                        BoundQuadrant::TopRight => "TopRight"@,
                        BoundQuadrant::BottomRight => "BottomRight"@,
                        BoundQuadrant::BottomLeft => "BottomLeft"@,
                    }
                },
                (None, None) => true,
                _ => false,
            }
        }),
{
    let quadrant: Option<&'static str> = quadrant_name(state.auto_mob_quadrant);
    let detected_size: Option<(usize, usize)> = match &state.frame {
        Some((_, width, height)) => Some((*width, *height)),
        None => None,
    };
    let shown: MinimapState = MinimapState {
        position: state.position,
        health: state.health,
        state: state.state,
        normal_action: state.normal_action,
        priority_action: state.priority_action,
        erda_shower_state: state.erda_shower_state,
        input_state: state.input_state,
        gpu_enabled: state.gpu_enabled,
        lie_detector_count: state.lie_detector_count,
        total_runtime: state.total_runtime,
        operation: state.operation,
        detected_size,
    };
    let drawing: Option<Drawing> = match state.frame {
        Some((frame, width, height)) => Some(
            Drawing {
                frame,
                width,
                height,
                destinations: state.destinations,
                bound,
                quadrant,
                portals: state.portals,
            },
        ),
        None => None,
    };
    (shown, drawing)
}

/// The position that is shown to be the player's, if it has changed. Where the player is not seen
/// it is the bottom left corner.
pub fn moved_to(current: (i32, i32), position: Option<(i32, i32)>) -> (res: Option<(i32, i32)>)
    ensures
        ({
            let now = match position {
                Some(position) => position,
                None => (0, 0),
            };
            res == if current == now {
                None
            } else {
                Some(now)
            }
        }),
{
    let (x, y): (i32, i32) = match position {
        Some(position) => position,
        None => (0, 0),
    };
    if current.0 == x && current.1 == y {
        None
    } else {
        Some((x, y))
    }
}

/// Every action that is drawn is tied to a position, and in the order of the actions: drawing two
/// lists one after the other is drawing them both.
pub proof fn law_actions_are_drawn_in_order(a: Seq<Action>, b: Seq<Action>)
    ensures
        drawn(a + b) == drawn(a) + drawn(b),
    decreases b.len(),
{
    if b.len() == 0 {
        assert(a + b =~= a);
        assert(drawn(a) + drawn(b) =~= drawn(a));
    } else {
        assert((a + b).drop_last() =~= a + b.drop_last());
        assert((a + b).last() == b.last());
        law_actions_are_drawn_in_order(a, b.drop_last());
        assert(drawn(a + b) =~= drawn(a) + drawn(b));
    }
}

/// Every preset of a map can be drawn: its name leads to its own actions and to no others.
pub proof fn law_presets_are_found_by_name(map: GameMap, index: int)
    requires
        map.wf(),
        0 <= index < map.actions@.len(),
    ensures
        preset_actions(map.actions@, map.actions@[index].0@) == map.actions@[index].1@,
{
    lemma_preset_found(map, index, 0);
    assert(map.actions@.skip(0) =~= map.actions@);
}

proof fn lemma_preset_found(map: GameMap, index: int, from: int)
    requires
        map.wf(),
        0 <= from <= index < map.actions@.len(),
    ensures
        preset_actions(map.actions@.skip(from), map.actions@[index].0@)
            == map.actions@[index].1@,
    decreases index - from,
{
    assert(map.actions@.skip(from)[0] == map.actions@[from]);
    if from < index {
        assert(map.content().actions[from].0 != map.content().actions[index].0);
        assert(map.actions@.skip(from).skip(1) =~= map.actions@.skip(from + 1));
        lemma_preset_found(map, index, from + 1);
    }
}

/// A map has a bound to be drawn just where it is mobbed or gone back and forth on, and it is the one
/// for that.
pub proof fn law_bound_belongs_to_its_mode(map: GameMap)
    ensures
        ({
            let bound = rotation_bound(Some(map));
            &&& bound is Some <==> map.rotation_mode is AutoMobbing || map.rotation_mode
                is PingPong
            &&& map.rotation_mode is AutoMobbing ==> bound == Some(
                (map.rotation_auto_mob_bound, "AutoMobbing"@),
            )
            &&& map.rotation_mode is PingPong ==> bound == Some(
                (map.rotation_ping_pong_bound, "PingPong"@),
            )
        }),
        rotation_bound(None) is None,
{
}

/// Just those actions are drawn that have a position, each where it is carried out and with what it
/// waits for.
pub proof fn law_actions_with_a_position_are_drawn(action: Action)
    ensures
        ({
            let position = match action {
                Action::Move(action) => Some(action.position),
                Action::Key(action) => action.position,
            };
            let condition = match action {
                Action::Move(action) => action.condition,
                Action::Key(action) => action.condition,
            };
            drawn(seq![action]) == match position {
                Some(position) => seq![(position.x, position.y, condition.label())],
                None => seq![],
            }
        }),
        drawn(seq![]) == Seq::<(i32, i32, Seq<char>)>::empty(),
{
    let one = seq![action];
    assert(one.drop_last() =~= seq![]);
    assert(one.last() == action);
    assert(drawn(one.drop_last()) =~= seq![]);
}

/// A name that no preset has leads to no actions.
pub proof fn law_unknown_presets_are_empty(presets: Seq<(String, Vec<Action>)>, name: Seq<char>)
    requires
        forall|i: int| 0 <= i < presets.len() ==> (#[trigger] presets[i]).0@ != name,
    ensures
        preset_actions(presets, name).len() == 0,
    decreases presets.len(),
{
    if presets.len() > 0 {
        assert(presets[0].0@ != name);
        assert forall|i: int| 0 <= i < presets.skip(1).len() implies (#[trigger] presets.skip(
            1,
        )[i]).0@ != name by {
            assert(presets.skip(1)[i] == presets[i + 1]);
        }
        law_unknown_presets_are_empty(presets.skip(1), name);
    }
}

} // verus!
