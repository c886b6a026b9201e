//! The envelope that carries a payload of any kind.

use vstd::prelude::*;

use crate::content::EventContent;
use crate::descriptor::{StateKey, StateKeyKind, StateKeyModel};

verus! {

/// The fields that every event has, whatever its kind. They are carried as
/// they are and not interpreted.
#[derive(Debug, Eq)]
pub struct EnvelopeFields {
    /// The identifier of the event.
    pub event_id: String,
    /// The identifier of the room that the event belongs to.
    pub room_id: String,
    /// The identifier of the user who sent the event.
    pub sender: String,
    /// When the sender's server took the event in, in milliseconds since the
    /// Unix epoch.
    pub origin_server_ts: i64,
}

/// The mathematical content of `EnvelopeFields`.
pub struct EnvelopeFieldsModel {
    pub event_id: Seq<char>,
    pub room_id: Seq<char>,
    pub sender: Seq<char>,
    pub origin_server_ts: int,
}

impl View for EnvelopeFields {
    type V = EnvelopeFieldsModel;

    open spec fn view(&self) -> EnvelopeFieldsModel {
        EnvelopeFieldsModel {
            event_id: self.event_id@,
            room_id: self.room_id@,
            sender: self.sender@,
            origin_server_ts: self.origin_server_ts as int,
        }
    }
}

impl PartialEq for EnvelopeFields {
    fn eq(&self, other: &Self) -> (equal: bool) {
        self.event_id == other.event_id && self.room_id == other.room_id && self.sender
            == other.sender && self.origin_server_ts == other.origin_server_ts
    }
}

impl vstd::std_specs::cmp::PartialEqSpecImpl for EnvelopeFields {
    open spec fn obeys_eq_spec() -> bool {
        true
    }

    open spec fn eq_spec(&self, other: &Self) -> bool {
        self@ == other@
    }
}

impl Clone for EnvelopeFields {
    fn clone(&self) -> (copy: Self)
        ensures
            copy@ == self@,
    {
        EnvelopeFields {
            event_id: self.event_id.clone(),
            room_id: self.room_id.clone(),
            sender: self.sender.clone(),
            origin_server_ts: self.origin_server_ts,
        }
    }
}

/// An event: a payload of kind `C`, its state key and the fields that every
/// event has. The state key is of the sort that the descriptor of `C` declares.
/// An event is not changed once it is made.
#[derive(Debug, PartialEq, Eq)]
pub struct EventEnvelope<C: EventContent> {
    content: C,
    state_key: StateKey,
    fields: EnvelopeFields,
}

/// The mathematical content of an `EventEnvelope` whose payload has the
/// content `V`.
pub struct EnvelopeModel<V> {
    pub content: V,
    pub state_key: StateKeyModel,
    pub fields: EnvelopeFieldsModel,
}

/// Whether `envelope` is the content of an event of kind `C`: the payload is
/// valid and the state key is of the sort that `C` declares.
pub open spec fn valid_envelope<C: EventContent>(envelope: EnvelopeModel<C::V>) -> bool {
    &&& C::valid(envelope.content)
    &&& envelope.state_key.kind() == C::spec_descriptor().state_key_kind
}

impl<C: EventContent> View for EventEnvelope<C> {
    type V = EnvelopeModel<C::V>;

    closed spec fn view(&self) -> EnvelopeModel<C::V> {
        EnvelopeModel { content: self.content@, state_key: self.state_key@, fields: self.fields@ }
    }
}

impl<C: EventContent> EventEnvelope<C> {
    #[verifier::type_invariant]
    spec fn key_fits_kind(&self) -> bool {
        self.state_key@.kind() == C::spec_descriptor().state_key_kind
    }

    /// Makes an event from a payload, the state key of its kind and the
    /// fields that every event has. Nothing is validated: the payload is
    /// valid as it is.
    pub fn new(content: C, state_key: StateKey, fields: EnvelopeFields) -> (envelope: Self)
        requires
            state_key@.kind() == C::spec_descriptor().state_key_kind,
        ensures
            envelope@ == (EnvelopeModel { content: content@, state_key: state_key@, fields: fields@ }),
    {
        EventEnvelope { content, state_key, fields }
    }

    /// Makes an event of a kind that carries no state key.
    pub fn new_message(content: C, fields: EnvelopeFields) -> (envelope: Self)
        requires
            C::spec_descriptor().state_key_kind == StateKeyKind::NoKey,
        ensures
            envelope@ == (EnvelopeModel {
                content: content@,
                state_key: StateKeyModel::NoKey,
                fields: fields@,
            }),
    {
        EventEnvelope { content, state_key: StateKey::NoKey, fields }
    }

    /// Takes the event apart, so that another can be made of its parts.
    pub fn into_parts(self) -> (parts: (C, StateKey, EnvelopeFields))
        ensures
            parts.0@ == self@.content,
            parts.1@ == self@.state_key,
            parts.2@ == self@.fields,
            parts.1@.kind() == C::spec_descriptor().state_key_kind,
    {
        proof {
            use_type_invariant(&self);
        }
        (self.content, self.state_key, self.fields)
    }

    /// The payload.
    pub fn content(&self) -> (content: &C)
        ensures
            content@ == self@.content,
    {
        &self.content
    }

    /// The state key.
    pub fn state_key(&self) -> (state_key: &StateKey)
        ensures
            state_key@ == self@.state_key,
            state_key@.kind() == C::spec_descriptor().state_key_kind,
    {
        proof {
            use_type_invariant(self);
        }
        &self.state_key
    }

    /// The fields that every event has.
    pub fn fields(&self) -> (fields: &EnvelopeFields)
        ensures
            fields@ == self@.fields,
    {
        &self.fields
    }
}

} // verus!
