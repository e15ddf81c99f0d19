//! Gesture recognition for a four-way hat that selects one of forty switches.
//!
//! The switches sit on two panels of twenty, five to each side of a square.
//! A long hold picks the panel, a short tap picks the side, and up to two
//! further taps pick one of the five positions on that side.

pub mod config;
pub mod direction;
pub mod mfd;
pub mod mfd_keys;
pub mod osb;
pub mod sound;
pub mod state;
pub mod tracker;
pub mod ui;
pub mod winstance;
