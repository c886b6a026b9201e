//! Payload kinds that describe a room.

pub mod language;
