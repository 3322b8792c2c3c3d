//! Decision logic of a soccer simulation: state machines for the teams and
//! their players, a deferred message dispatcher, kick cooldowns and the
//! bookkeeping of the game's score and player roles.
#![allow(non_snake_case)]

pub mod entity;
pub mod state_machine;
pub mod messaging;
pub mod cooldown;
pub mod game;
pub mod selection;
pub mod agent;
pub mod player;
pub mod team;
pub mod field_player;
pub mod goal_keeper;
pub mod state_test;
pub mod pitch;
