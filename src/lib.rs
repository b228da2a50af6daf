//! Periodic evaluation of a fixed collection of named monitors, with
//! timestamp-named snapshots of the whole collection.

pub mod args;
pub mod controller;
pub mod generator;
pub mod model;
pub mod snapshot;
