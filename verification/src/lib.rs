//! Typed event content for a federated chat protocol.
//!
//! An event travels as one flat wire object: a `type` tag, a nested `content`
//! object, a `state_key` where the kind of the event carries one, and the
//! fields that every event has. This crate binds payload types to that
//! envelope. Each payload kind declares its tag and its state-key discipline
//! once, by implementing [`content::EventContent`]; one generic pipeline then
//! converts between the wire object and the typed envelope, and tells for
//! each wire object that is refused why it is.
//!
//! - [`wire`]: the wire value and the lookup of named fields;
//! - [`error`]: what can go wrong when a wire value is read;
//! - [`language_tag`]: the language tag as a validated value;
//! - [`descriptor`]: the descriptor of a payload kind, and the state key;
//! - [`content`]: the contract of a payload type;
//! - [`envelope`]: the event that carries a payload;
//! - [`pipeline`]: writing an event to the wire and reading one from it;
//! - [`registry`]: reading an event whose kind its `type` selects;
//! - [`room::language`]: the payload that tells the language of a room.

pub mod content;
pub mod descriptor;
pub mod envelope;
pub mod error;
pub mod language_tag;
pub mod pipeline;
pub mod registry;
pub mod room;
pub mod wire;
