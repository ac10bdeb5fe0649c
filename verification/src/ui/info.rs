//! What is shown of the game as text.

use vstd::prelude::*;

use crate::api::Operation;
use crate::clock::{Duration, Instant};
use crate::models::stored::GameMap;
use crate::text::{
    decimal, decimal_text, join, join3, signed_decimal, signed_text, two_digit_text, two_digits,
};
use crate::ui::canvas::MinimapState;

verus! {

/// A span of time in hours, minutes and seconds.
pub open spec fn clock_text(duration: Duration) -> Seq<char> {
    let secs = duration.secs() as nat;
    two_digits(secs / 3600) + ":"@ + two_digits(secs / 60 % 60) + ":"@ + two_digits(secs % 60)
}

pub fn duration_from(duration: Duration) -> (res: String)
    ensures
        res@ == clock_text(duration),
{
    let secs: u128 = duration.as_secs();
    let seconds: u128 = secs % 60;
    let minutes: u128 = (secs / 60) % 60;
    let hours: u128 = (secs / 60) / 60;
    let front: String = join3(
        two_digit_text(hours).as_str(),
        ":",
        two_digit_text(minutes).as_str(),
    );
    join3(front.as_str(), ":", two_digit_text(seconds).as_str())
}

/// The lines of text about the game.
#[derive(Debug)]
pub struct GameStateInfo {
    pub position: String,
    pub health: String,
    pub state: String,
    pub normal_action: String,
    pub priority_action: String,
    pub erda_shower_state: String,
    pub input_state: String,
    pub gpu_enabled: String,
    pub lie_detector_count: String,
    pub detected_map_size: String,
    pub selected_map_size: String,
    pub time_until_stop: String,
    pub run_time: String,
}

/// Two lengths in pixels.
pub open spec fn size_text(width: Seq<char>, height: Seq<char>) -> Seq<char> {
    width + "px x "@ + height + "px"@
}

fn size(width: &str, height: &str) -> (res: String)
    ensures
        res@ == size_text(width@, height@),
{
    let front: String = join3(width, "px x ", height);
    join(front.as_str(), "px")
}

/// The time until the bot stops by itself.
pub open spec fn time_until_stop(operation: Operation, now: Instant) -> Seq<char> {
    match operation {
        Operation::Halting | Operation::Running => "None"@,
        Operation::TemporaryHalting(left) => clock_text(left),
        Operation::RunUntil(end) => clock_text(end.since(now)),
    }
}

fn time_until_stop_text(operation: Operation, now: Instant) -> (res: String)
    ensures
        res@ == time_until_stop(operation, now),
{
    match operation {
        Operation::Halting | Operation::Running => "None".to_owned(),
        Operation::TemporaryHalting(left) => duration_from(left),
        Operation::RunUntil(end) => duration_from(end.duration_since(now)),
    }
}

/// The size of a map.
pub open spec fn selected_size(map: Option<GameMap>) -> Seq<char> {
    match map {
        Some(map) => size_text(
            signed_decimal(map.width as int),
            signed_decimal(map.height as int),
        ),
        None => "Unknown"@,
    }
}

fn selected_size_text(map: &Option<GameMap>) -> (res: String)
    ensures
        res@ == selected_size(*map),
{
    match map {
        Some(map) => size(signed_text(map.width).as_str(), signed_text(map.height).as_str()),
        None => "Unknown".to_owned(),
    }
}

/// An action, if there is one.
pub open spec fn action_text(action: Option<String>) -> Seq<char> {
    match action {
        Some(action) => action@,
        None => "None"@,
    }
}

fn action_or_none(action: &Option<String>) -> (res: String)
    ensures
        res@ == action_text(*action),
{
    match action {
        Some(action) => action.clone(),
        None => "None".to_owned(),
    }
}

impl GameStateInfo {
    /// Whether these are the lines that are shown while the state is not known.
    pub open spec fn is_unknown(&self) -> bool {
        &&& self.position@ == "Unknown"@
        &&& self.health@ == "Unknown"@
        &&& self.state@ == "Unknown"@
        &&& self.normal_action@ == "None"@
        &&& self.priority_action@ == "None"@
        &&& self.erda_shower_state@ == "Unknown"@
        &&& self.input_state@ == "Unknown"@
        &&& self.gpu_enabled@ == "Unknown"@
        &&& self.lie_detector_count@ == "0"@
        &&& self.detected_map_size@ == "Unknown"@
        &&& self.time_until_stop@ == "None"@
        &&& self.run_time@ == "0s"@
    }

    /// Whether these are the lines about a state.
    pub open spec fn describes(&self, state: MinimapState, now: Instant) -> bool {
        &&& self.position@ == match state.position {
            Some((x, y)) => signed_decimal(x as int) + ", "@ + signed_decimal(y as int),
            None => "Unknown"@,
        }
        &&& self.health@ == match state.health {
            Some((current, max)) => decimal(current as nat) + " / "@ + decimal(max as nat),
            None => "Unknown"@,
        }
        &&& self.state@ == state.state@
        &&& self.normal_action@ == action_text(state.normal_action)
        &&& self.priority_action@ == action_text(state.priority_action)
        &&& self.erda_shower_state@ == state.erda_shower_state@
        &&& self.input_state@ == state.input_state@
        &&& self.gpu_enabled@ == if state.gpu_enabled {
            "true"@
        } else {
            "false"@
        }
        &&& self.lie_detector_count@ == decimal(state.lie_detector_count as nat)
        &&& self.detected_map_size@ == match state.detected_size {
            Some((width, height)) => size_text(decimal(width as nat), decimal(height as nat)),
            None => "Unknown"@,
        }
        &&& self.time_until_stop@ == time_until_stop(state.operation, now)
        &&& self.run_time@ == clock_text(state.total_runtime)
    }

    fn unknown(map: &Option<GameMap>) -> (res: Self)
        ensures
            res.is_unknown(),
            res.selected_map_size@ == selected_size(*map),
    {
        GameStateInfo {
            position: "Unknown".to_owned(),
            health: "Unknown".to_owned(),
            state: "Unknown".to_owned(),
            normal_action: "None".to_owned(),
            priority_action: "None".to_owned(),
            erda_shower_state: "Unknown".to_owned(),
            input_state: "Unknown".to_owned(),
            gpu_enabled: "Unknown".to_owned(),
            lie_detector_count: "0".to_owned(),
            detected_map_size: "Unknown".to_owned(),
            selected_map_size: selected_size_text(map),
            time_until_stop: "None".to_owned(),
            run_time: "0s".to_owned(),
        }
    }

    /// The lines of text about a game and the map that is selected.
    pub fn new(state: &Option<MinimapState>, map: &Option<GameMap>, now: Instant) -> (res: Self)
        ensures
            match state {
                Some(state) => res.describes(*state, now),
                None => res.is_unknown(),
            },
            res.selected_map_size@ == selected_size(*map),
    {
        let mut info: GameStateInfo = GameStateInfo::unknown(map);
        if let Some(state) = state {
            info.state = state.state.clone();
            info.erda_shower_state = state.erda_shower_state.clone();
            info.input_state = state.input_state.clone();
            info.gpu_enabled = if state.gpu_enabled {
                "true".to_owned()
            } else {
                "false".to_owned()
            };
            info.lie_detector_count = decimal_text(state.lie_detector_count as u128);
            info.time_until_stop = time_until_stop_text(state.operation, now);
            info.run_time = duration_from(state.total_runtime);
            if let Some((x, y)) = state.position {
                info.position = join3(signed_text(x).as_str(), ", ", signed_text(y).as_str());
            }
            if let Some((current, max)) = state.health {
                info.health = join3(
                    decimal_text(current as u128).as_str(),
                    " / ",
                    decimal_text(max as u128).as_str(),
                );
            }
            info.normal_action = action_or_none(&state.normal_action);
            info.priority_action = action_or_none(&state.priority_action);
            if let Some((width, height)) = state.detected_size {
                info.detected_map_size = size(
                    decimal_text(width as u128).as_str(),
                    decimal_text(height as u128).as_str(),
                );
            }
        }
        info
    }
}

/// The hours, minutes and seconds of a span of time add up to its seconds.
pub proof fn law_clock_adds_up(secs: nat)
    ensures
        secs / 3600 * 3600 + secs / 60 % 60 * 60 + secs % 60 == secs,
{
}

/// A span of so many hours, minutes and seconds is shown as just these, with two digits each at least.
/// What is left of a second is not shown.
pub proof fn law_clock_shows_hours_minutes_and_seconds(
    duration: Duration,
    hours: nat,
    minutes: nat,
    seconds: nat,
    rest: nat,
)
    requires
        minutes < 60,
        seconds < 60,
        rest < 1_000_000_000,
        duration.nanos == ((hours * 60 + minutes) * 60 + seconds) * 1_000_000_000 + rest,
    ensures
        clock_text(duration) == two_digits(hours) + ":"@ + two_digits(minutes) + ":"@ + two_digits(
            seconds,
        ),
{
    let minutes_in_all: nat = hours * 60 + minutes;
    let secs: nat = minutes_in_all * 60 + seconds;
    assert(duration.secs() == secs) by (nonlinear_arith)
        requires
            duration.nanos == secs * 1_000_000_000 + rest,
            0 <= rest < 1_000_000_000,
            duration.secs() == duration.nanos / 1_000_000_000,
    ;
    assert(secs % 60 == seconds && secs / 60 == minutes_in_all) by (nonlinear_arith)
        requires
            secs == minutes_in_all * 60 + seconds,
            0 <= seconds < 60,
    ;
    assert(minutes_in_all % 60 == minutes && minutes_in_all / 60 == hours) by (nonlinear_arith)
        requires
            minutes_in_all == hours * 60 + minutes,
            0 <= minutes < 60,
    ;
    assert(secs / 3600 == hours) by (nonlinear_arith)
        requires
            secs == minutes_in_all * 60 + seconds,
            minutes_in_all == hours * 60 + minutes,
            0 <= seconds < 60,
            0 <= minutes < 60,
    ;
}

/// The time until the bot stops is what is left of it, and there is none where it is not going to stop
/// or has stopped.
pub proof fn law_time_is_shown_where_the_bot_will_stop(left: Duration, end: Instant, now: Instant)
    ensures
        time_until_stop(Operation::TemporaryHalting(left), now) == clock_text(left),
        end.nanos >= now.nanos ==> time_until_stop(Operation::RunUntil(end), now) == clock_text(
            Duration { nanos: (end.nanos - now.nanos) as u128 },
        ),
        time_until_stop(Operation::Halting, now) == "None"@,
        time_until_stop(Operation::Running, now) == "None"@,
{
}

/// A size is shown as its width and its height in pixels, that of a map by its own, and what is not
/// there is said not to be there.
pub proof fn law_sizes_and_actions_are_shown(
    width: Seq<char>,
    height: Seq<char>,
    map: GameMap,
    action: String,
)
    ensures
        size_text(width, height) == width + "px x "@ + height + "px"@,
        selected_size(Some(map)) == size_text(
            signed_decimal(map.width as int),
            signed_decimal(map.height as int),
        ),
        selected_size(None) == "Unknown"@,
        action_text(Some(action)) == action@,
        action_text(None) == "None"@,
{
}

/// While nothing is known, that is what every line says, and no time has passed.
pub proof fn law_unknown_state_is_shown_as_unknown(info: GameStateInfo)
    requires
        info.is_unknown(),
    ensures
        info.position@ == "Unknown"@,
        info.health@ == "Unknown"@,
        info.state@ == "Unknown"@,
        info.normal_action@ == "None"@,
        info.priority_action@ == "None"@,
        info.erda_shower_state@ == "Unknown"@,
        info.input_state@ == "Unknown"@,
        info.gpu_enabled@ == "Unknown"@,
        info.lie_detector_count@ == "0"@,
        info.detected_map_size@ == "Unknown"@,
        info.time_until_stop@ == "None"@,
        info.run_time@ == "0s"@,
{
}

/// What is known is shown: texts as they are, numbers in decimal notation, and what is missing as
/// missing.
pub proof fn law_known_state_is_shown(info: GameStateInfo, state: MinimapState, now: Instant)
    requires
        info.describes(state, now),
    ensures
        info.state@ == state.state@,
        info.erda_shower_state@ == state.erda_shower_state@,
        info.input_state@ == state.input_state@,
        state.gpu_enabled ==> info.gpu_enabled@ == "true"@,
        !state.gpu_enabled ==> info.gpu_enabled@ == "false"@,
        crate::text::number(info.lie_detector_count@) == state.lie_detector_count,
        state.normal_action is None ==> info.normal_action@ == "None"@,
        state.normal_action is Some ==> info.normal_action@ == state.normal_action->0@,
        state.priority_action is None ==> info.priority_action@ == "None"@,
        state.priority_action is Some ==> info.priority_action@ == state.priority_action->0@,
        state.position is None ==> info.position@ == "Unknown"@,
        state.position matches Some((x, y)) ==> info.position@ == signed_decimal(x as int) + ", "@
            + signed_decimal(y as int),
        state.health is None ==> info.health@ == "Unknown"@,
        state.health matches Some((current, max)) ==> info.health@ == decimal(current as nat)
            + " / "@ + decimal(max as nat),
        state.detected_size is None ==> info.detected_map_size@ == "Unknown"@,
        state.detected_size matches Some((width, height)) ==> info.detected_map_size@ == decimal(
            width as nat,
        ) + "px x "@ + decimal(height as nat) + "px"@,
        info.run_time@ == clock_text(state.total_runtime),
        state.operation matches Operation::TemporaryHalting(left) ==> info.time_until_stop@
            == clock_text(left),
{
    crate::text::law_decimal_is_read_back(state.lie_detector_count as nat);
}

} // verus!
