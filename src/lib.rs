//! Core logic of a tray utility that keeps the workstation awake: the
//! activation state machine, the execution-state inhibitor, the preference
//! table and the auto-start records, all independent of the OS toolkits.

pub mod autostart;
pub mod controller;
pub mod display;
pub mod keepawake;
pub mod preferences;
