//! Rotation of player actions and the state machines behind them.

pub mod api;
pub mod bridge;
pub mod clock;
pub mod database;
pub mod detect;
pub mod ecs;
pub mod geometry;
pub mod models;
pub mod player;
pub mod recording;
pub mod rotator;
pub mod run;
pub mod services;
pub mod solvers;
pub mod tables;
pub mod task;
pub mod text;
pub mod tracker;
pub mod ui;
pub mod utils;
pub mod windows;
