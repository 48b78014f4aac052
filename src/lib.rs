//! Departure-board engine of a terminal transit dashboard: flattening of the
//! nested feed records into per-station timetables, per-frame countdowns,
//! board layout and station navigation.

pub mod api;
pub mod board;
pub mod config;
pub mod countdown;
pub mod layout;
pub mod navigation;
pub mod timetable;
