//! The player: what it is doing and what it has been told to do.

use vstd::prelude::*;

use crate::geometry::Point;
use crate::player::actions::Key;
use crate::player::fall::Falling;
use crate::player::familiars_swap::FamiliarsSwapping;
use crate::player::moving::MovingIntermediates;
use crate::player::solve_shape::SolvingShape;

pub mod actions;
pub mod context;
pub mod fall;
pub mod fall_laws;
pub mod familiars_swap;
pub mod moving;
pub mod solve_shape;
pub mod swap_laws;
pub mod timeout;

verus! {

/// What the player is doing.
#[derive(Debug)]
pub enum Player {
    Idle,
    /// On the way to a point, exactly or not, with what follows it.
    Moving(Point, bool, Option<MovingIntermediates>),
    Falling(Falling),
    UseKey(Key),
    FamiliarsSwapping(FamiliarsSwapping),
    SolvingShape(SolvingShape),
    CashShopThenExit,
}

} // verus!
