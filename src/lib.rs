//! Player combat-and-locomotion core of a side-scrolling brawler.
//!
//! The player is a state machine over sixteen states (`state`, `states`,
//! `config`), driven each tick by ordered stages (`systems`): input, jump
//! set-up, hit-tracking reset, automatic transitions, animation set-up and
//! movement. Attacks strike enemies once per swing and damage is resolved
//! into hit effects and defeats (`combat`); those effects wear off tick by
//! tick (`effects`). `game` keeps the clock, spawns and chases enemies and
//! restarts; `laws` states what holds across stages and ticks.
//!
//! Positions are integers in milli-pixels, velocities in milli-pixels per
//! second and time in milliseconds.
pub mod combat;
pub mod components;
pub mod config;
pub mod effects;
pub mod game;
pub mod geometry;
pub mod laws;
pub mod state;
pub mod states;
pub mod systems;
pub mod timer;
