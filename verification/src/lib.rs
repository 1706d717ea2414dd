//! The host loop of an interactive console emulator: pacing, audio bridge, frame
//! hand-off, input remapping and save slots, as plain state and decisions that a
//! windowing front end drives.

pub mod audio;
pub mod clock;
pub mod input;
pub mod output;
pub mod ring;
pub mod session;
pub mod snapshot;
pub mod surface;
