//! Actions that the player carries out.

use vstd::prelude::*;

use crate::bridge::{KeyKind, LinkKeyKind};
use crate::geometry::Rect;
use crate::models::actions::{
    Action, ActionKeyDirection, ActionKeyWith, FamiliarRarities, Position, SwappableFamiliars,
    WaitAfterBuffered,
};

verus! {

/// How often the world is updated per second.
pub const FPS: u32 = 30;

/// The whole milliseconds of one tick.
pub const MS_PER_TICK: u64 = 33;

/// The ticks that pass in so many milliseconds, as far as they fit.
pub open spec fn ticks(millis: u64) -> int {
    (millis as int / 33) % 0x1_0000_0000
}

pub fn ticks_from_millis(millis: u64) -> (res: u32)
    ensures
        res == ticks(millis),
{
    let whole: u64 = millis / MS_PER_TICK;
    assert(#[verifier::truncate] (whole as u32) == whole % 0x1_0000_0000) by (bit_vector);
    #[verifier::truncate] (whole as u32)
}

#[derive(Clone, Copy, PartialEq, Eq, Debug, Structural)]
pub struct Key {
    pub key: KeyKind,
    pub key_hold_ticks: u32,
    pub key_hold_buffered_to_wait_after: bool,
    pub link_key: LinkKeyKind,
    pub count: u32,
    pub position: Option<Position>,
    pub direction: ActionKeyDirection,
    pub with: ActionKeyWith,
    pub wait_before_use_ticks: u32,
    pub wait_before_use_ticks_random_range: u32,
    pub wait_after_use_ticks: u32,
    pub wait_after_use_ticks_random_range: u32,
    pub wait_after_buffered: WaitAfterBuffered,
}

#[derive(Clone, Copy, PartialEq, Eq, Debug, Structural)]
pub struct Move {
    pub position: Position,
    pub wait_after_move_ticks: u32,
}

#[derive(Clone, Copy, PartialEq, Eq, Debug, Structural)]
pub struct AutoMob {
    pub key: KeyKind,
    pub key_hold_ticks: u32,
    pub link_key: LinkKeyKind,
    pub count: u32,
    pub with: ActionKeyWith,
    pub wait_before_ticks: u32,
    pub wait_before_ticks_random_range: u32,
    pub wait_after_ticks: u32,
    pub wait_after_ticks_random_range: u32,
    pub position: Position,
    /// Whether the position is only there to lead the player on.
    pub is_pathing: bool,
}

#[derive(Clone, Copy, PartialEq, Eq, Debug, Structural)]
pub enum PingPongDirection {
    Left,
    Right,
}

#[derive(Clone, Copy, PartialEq, Eq, Debug, Structural)]
pub struct PingPong {
    pub key: KeyKind,
    pub key_hold_ticks: u32,
    pub link_key: LinkKeyKind,
    pub count: u32,
    pub with: ActionKeyWith,
    pub wait_before_ticks: u32,
    pub wait_before_ticks_random_range: u32,
    pub wait_after_ticks: u32,
    pub wait_after_ticks_random_range: u32,
    pub bound: Rect,
    pub direction: PingPongDirection,
}

#[derive(Clone, Copy, PartialEq, Eq, Debug, Structural)]
pub enum PanicTo {
    Channel,
    Town,
}

#[derive(Clone, Copy, PartialEq, Eq, Debug, Structural)]
pub struct Panic {
    pub to: PanicTo,
}

#[derive(Clone, Copy, PartialEq, Eq, Debug, Structural)]
pub struct FamiliarsSwap {
    pub swappable_slots: SwappableFamiliars,
    pub swappable_rarities: FamiliarRarities,
}

#[derive(Clone, Copy, PartialEq, Eq, Debug, Structural)]
pub enum Booster {
    Generic,
    Hexa,
}

#[derive(Clone, Copy, PartialEq, Eq, Debug, Structural)]
pub struct UseBooster {
    pub kind: Booster,
}

#[derive(Clone, Copy, PartialEq, Eq, Debug, Structural)]
pub struct ExchangeBooster {
    pub amount: u32,
    pub all: bool,
}

#[derive(Clone, Copy, PartialEq, Eq, Debug, Structural)]
pub enum PlayerAction {
    Key(Key),
    Move(Move),
    AutoMob(AutoMob),
    PingPong(PingPong),
    FamiliarsSwap(FamiliarsSwap),
    UseBooster(UseBooster),
    ExchangeBooster(ExchangeBooster),
    Panic(Panic),
    SolveRune,
    SolveShape,
    SolveVioletta,
    Unstuck,
}

/// The action that the player carries out for a configured one.
pub open spec fn player_action(action: Action) -> PlayerAction {
    match action {
        Action::Move(action) => PlayerAction::Move(
            Move {
                position: action.position,
                wait_after_move_ticks: ticks(action.wait_after_move_millis) as u32,
            },
        ),
        Action::Key(action) => PlayerAction::Key(
            Key {
                key: action.key,
                key_hold_ticks: ticks(action.key_hold_millis) as u32,
                key_hold_buffered_to_wait_after: action.key_hold_buffered_to_wait_after,
                link_key: action.link_key,
                count: action.count,
                position: action.position,
                direction: action.direction,
                with: action.with,
                wait_before_use_ticks: ticks(action.wait_before_use_millis) as u32,
                wait_before_use_ticks_random_range: ticks(
                    action.wait_before_use_millis_random_range,
                ) as u32,
                wait_after_use_ticks: ticks(action.wait_after_use_millis) as u32,
                wait_after_use_ticks_random_range: ticks(
                    action.wait_after_use_millis_random_range,
                ) as u32,
                wait_after_buffered: action.wait_after_buffered,
            },
        ),
    }
}

impl PlayerAction {
    pub fn from_action(action: Action) -> (res: PlayerAction)
        ensures
            res == player_action(action),
    {
        match action {
            Action::Move(action) => PlayerAction::Move(
                Move {
                    position: action.position,
                    wait_after_move_ticks: ticks_from_millis(action.wait_after_move_millis),
                },
            ),
            Action::Key(action) => PlayerAction::Key(
                Key {
                    key: action.key,
                    key_hold_ticks: ticks_from_millis(action.key_hold_millis),
                    key_hold_buffered_to_wait_after: action.key_hold_buffered_to_wait_after,
                    link_key: action.link_key,
                    count: action.count,
                    position: action.position,
                    direction: action.direction,
                    with: action.with,
                    wait_before_use_ticks: ticks_from_millis(action.wait_before_use_millis),
                    wait_before_use_ticks_random_range: ticks_from_millis(
                        action.wait_before_use_millis_random_range,
                    ),
                    wait_after_use_ticks: ticks_from_millis(action.wait_after_use_millis),
                    wait_after_use_ticks_random_range: ticks_from_millis(
                        action.wait_after_use_millis_random_range,
                    ),
                    wait_after_buffered: action.wait_after_buffered,
                },
            ),
        }
    }
}

/// There are thirty ticks in a second, each of as many whole milliseconds as fit.
pub proof fn law_ticks_make_up_a_second()
    ensures
        FPS == 30,
        MS_PER_TICK * FPS <= 1000 < (MS_PER_TICK + 1) * FPS,
{
}

} // verus!
