//! Conversion between the wire object and the typed envelope.
//!
//! Outbound, an event becomes one flat object: `type`, `content`, `state_key`
//! where the kind carries one, and the fields that every event has. Inbound,
//! the object is checked in a fixed order: its `type`, its `state_key`, its
//! `content`, then the remaining fields. Fields that this layer does not know
//! are passed over.

use vstd::prelude::*;

use crate::content::EventContent;
use crate::descriptor::{lemma_state_key_round_trip, StateKey, StateKeyKind, StateKeyModel};
use crate::envelope::{
    valid_envelope, EnvelopeFields, EnvelopeFieldsModel, EnvelopeModel, EventEnvelope,
};
use crate::error::{ErrorKind, ErrorModel};
use crate::wire::{
    fields_model, lemma_lookup_concat, lemma_lookup_passes_over, lemma_object_model, lookup,
    spec_lookup, FieldsModel, WireFields, WireModel, WireValue,
};

verus! {

/// The text that `fields` holds under `key`, if it holds text there.
pub open spec fn spec_text_field(fields: FieldsModel, key: Seq<char>) -> Option<Seq<char>> {
    match spec_lookup(fields, key) {
        Some(WireModel::Text(text)) => Some(text),
        _ => None,
    }
}

/// The number that `fields` holds under `key`, if it holds an integer there.
pub open spec fn spec_integer_field(fields: FieldsModel, key: Seq<char>) -> Option<int> {
    match spec_lookup(fields, key) {
        Some(WireModel::Integer(number)) => Some(number),
        _ => None,
    }
}

/// Whether the `type` of a wire object is `tag`. An object without `type` is
/// malformed; any other `type` than the text `tag` is a mismatch.
pub open spec fn spec_check_type(fields: FieldsModel, tag: Seq<char>) -> Result<(), ErrorModel> {
    match spec_lookup(fields, "type"@) {
        None => Err(ErrorModel::MalformedEnvelope),
        Some(value) => if value == WireModel::Text(tag) {
            Ok(())
        } else {
            Err(ErrorModel::TypeMismatch)
        },
    }
}

/// The named values of the `content` of a wire object.
pub open spec fn spec_content_fields(fields: FieldsModel) -> Result<FieldsModel, ErrorModel> {
    match spec_lookup(fields, "content"@) {
        Some(WireModel::Object(content)) => Ok(content),
        _ => Err(ErrorModel::MalformedEnvelope),
    }
}

/// The fields that every event has, read from a wire object. Each must be
/// there: the three identifiers as text, the timestamp as an integer.
pub open spec fn spec_envelope_fields(fields: FieldsModel) -> Result<
    EnvelopeFieldsModel,
    ErrorModel,
> {
    match (
        spec_text_field(fields, "event_id"@),
        spec_integer_field(fields, "origin_server_ts"@),
        spec_text_field(fields, "room_id"@),
        spec_text_field(fields, "sender"@),
    ) {
        (Some(event_id), Some(origin_server_ts), Some(room_id), Some(sender)) => Ok(
            EnvelopeFieldsModel { event_id, room_id, sender, origin_server_ts },
        ),
        _ => Err(ErrorModel::MalformedEnvelope),
    }
}

/// The `state_key` field of an event, where its kind carries one.
pub open spec fn spec_state_key_fields(state_key: StateKeyModel) -> FieldsModel {
    match state_key.format() {
        Some(text) => seq![("state_key"@, WireModel::Text(text))],
        None => Seq::empty(),
    }
}

/// The fields that every event has, as they are written to the wire.
pub open spec fn spec_scalar_fields(fields: EnvelopeFieldsModel) -> FieldsModel {
    seq![
        ("event_id"@, WireModel::Text(fields.event_id)),
        ("origin_server_ts"@, WireModel::Integer(fields.origin_server_ts)),
        ("room_id"@, WireModel::Text(fields.room_id)),
        ("sender"@, WireModel::Text(fields.sender)),
    ]
}

/// The named values of the wire object of an event of kind `C`.
pub open spec fn spec_serialize_fields<C: EventContent>(envelope: EnvelopeModel<C::V>) -> FieldsModel {
    seq![
        ("type"@, WireModel::Text(C::spec_descriptor().type_tag)),
        ("content"@, WireModel::Object(C::spec_to_fields(envelope.content))),
    ] + spec_state_key_fields(envelope.state_key) + spec_scalar_fields(envelope.fields)
}

/// The wire object of an event of kind `C`.
pub open spec fn spec_serialize<C: EventContent>(envelope: EnvelopeModel<C::V>) -> WireModel {
    WireModel::Object(spec_serialize_fields::<C>(envelope))
}

/// The event of kind `C` that a wire value stands for, or the first reason
/// why it stands for none.
pub open spec fn spec_deserialize<C: EventContent>(wire: WireModel) -> Result<
    EnvelopeModel<C::V>,
    ErrorModel,
> {
    match wire {
        WireModel::Object(fields) => match spec_check_type(fields, C::spec_descriptor().type_tag) {
            Err(error) => Err(error),
            Ok(_) => match StateKeyModel::parse(
                C::spec_descriptor().state_key_kind,
                spec_lookup(fields, "state_key"@),
            ) {
                Err(error) => Err(error),
                Ok(state_key) => match spec_content_fields(fields) {
                    Err(error) => Err(error),
                    Ok(content_fields) => match C::spec_from_fields(content_fields) {
                        Err(error) => Err(error),
                        Ok(content) => match spec_envelope_fields(fields) {
                            Err(error) => Err(error),
                            Ok(fields) => Ok(EnvelopeModel { content, state_key, fields }),
                        },
                    },
                },
            },
        },
        _ => Err(ErrorModel::MalformedEnvelope),
    }
}

/// Checks the `type` of a wire object against `tag`.
pub fn check_type(fields: &WireFields, tag: &str) -> (outcome: Result<(), ErrorKind>)
    ensures
        spec_check_type(fields_model(fields@), tag@) == match outcome {
            Ok(_) => Ok(()),
            Err(error) => Err(error@),
        },
{
    match lookup(fields, "type") {
        None => Err(ErrorKind::MalformedEnvelope),
        Some(value) => {
            let wanted = tag.to_owned();
            match value.as_text() {
                Some(text) => if *text == wanted {
                    Ok(())
                } else {
                    Err(ErrorKind::TypeMismatch)
                },
                None => Err(ErrorKind::TypeMismatch),
            }
        },
    }
}

/// Finds the named values of the `content` of a wire object.
pub fn content_fields(fields: &WireFields) -> (outcome: Result<&WireFields, ErrorKind>)
    ensures
        spec_content_fields(fields_model(fields@)) == match outcome {
            Ok(content) => Ok(fields_model(content@)),
            Err(error) => Err(error@),
        },
{
    match lookup(fields, "content") {
        None => Err(ErrorKind::MalformedEnvelope),
        Some(value) => match value.as_object() {
            Some(content) => Ok(content),
            None => Err(ErrorKind::MalformedEnvelope),
        },
    }
}

/// Copies the text that `fields` holds under `key`.
pub fn text_field(fields: &WireFields, key: &str) -> (text: Option<String>)
    ensures
        spec_text_field(fields_model(fields@), key@) == match text {
            Some(t) => Some(t@),
            None => None,
        },
{
    match lookup(fields, key) {
        None => None,
        Some(value) => match value.as_text() {
            Some(text) => Some(text.clone()),
            None => None,
        },
    }
}

/// Reads the integer that `fields` holds under `key`.
pub fn integer_field(fields: &WireFields, key: &str) -> (number: Option<i64>)
    ensures
        spec_integer_field(fields_model(fields@), key@) == match number {
            Some(n) => Some(n as int),
            None => None,
        },
{
    match lookup(fields, key) {
        None => None,
        Some(value) => value.as_integer(),
    }
}

/// Reads the fields that every event has from a wire object.
pub fn read_envelope_fields(fields: &WireFields) -> (outcome: Result<EnvelopeFields, ErrorKind>)
    ensures
        spec_envelope_fields(fields_model(fields@)) == match outcome {
            Ok(read) => Ok(read@),
            Err(error) => Err(error@),
        },
{
    let event_id = text_field(fields, "event_id");
    let origin_server_ts = integer_field(fields, "origin_server_ts");
    let room_id = text_field(fields, "room_id");
    let sender = text_field(fields, "sender");
    match (event_id, origin_server_ts, room_id, sender) {
        (Some(event_id), Some(origin_server_ts), Some(room_id), Some(sender)) => Ok(
            EnvelopeFields { event_id, room_id, sender, origin_server_ts },
        ),
        _ => Err(ErrorKind::MalformedEnvelope),
    }
}

/// Reads an event of kind `C` from a wire value.
pub fn deserialize<C: EventContent>(wire: &WireValue) -> (outcome: Result<
    EventEnvelope<C>,
    ErrorKind,
>)
    ensures
        spec_deserialize::<C>(wire@) == match outcome {
            Ok(envelope) => Ok(envelope@),
            Err(error) => Err(error@),
        },
        outcome matches Ok(envelope) ==> valid_envelope::<C>(envelope@),
{
    let fields = match wire.as_object() {
        Some(fields) => fields,
        None => {
            return Err(ErrorKind::MalformedEnvelope);
        },
    };
    let descriptor = C::descriptor();
    match check_type(fields, descriptor.type_tag) {
        Err(error) => {
            return Err(error);
        },
        Ok(_) => {},
    }
    let state_key = match StateKey::parse(descriptor.state_key_kind, lookup(fields, "state_key")) {
        Err(error) => {
            return Err(error);
        },
        Ok(state_key) => state_key,
    };
    let content = match content_fields(fields) {
        Err(error) => {
            return Err(error);
        },
        Ok(content_fields) => match C::from_fields(content_fields) {
            Err(error) => {
                return Err(error);
            },
            Ok(content) => content,
        },
    };
    match read_envelope_fields(fields) {
        Err(error) => Err(error),
        Ok(envelope_fields) => Ok(EventEnvelope::new(content, state_key, envelope_fields)),
    }
}

/// Writes an event of kind `C` as a wire object. Reading that object gives
/// the event back.
pub fn serialize<C: EventContent>(envelope: &EventEnvelope<C>) -> (wire: WireValue)
    ensures
        wire@ == spec_serialize::<C>(envelope@),
        valid_envelope::<C>(envelope@),
        spec_deserialize::<C>(wire@) == Ok::<EnvelopeModel<C::V>, ErrorModel>(envelope@),
{
    let descriptor = C::descriptor();
    let content = envelope.content().to_fields();
    let state_key = envelope.state_key().format();
    let scalars = envelope.fields();
    let mut fields: Vec<(String, WireValue)> = Vec::new();
    fields.push(("type".to_owned(), WireValue::Text(descriptor.type_tag.to_owned())));
    proof {
        lemma_object_model(content);
    }
    fields.push(("content".to_owned(), WireValue::Object(content)));
    match state_key {
        Some(text) => {
            fields.push(("state_key".to_owned(), WireValue::Text(text)));
        },
        None => {},
    }
    fields.push(("event_id".to_owned(), WireValue::Text(scalars.event_id.clone())));
    fields.push(("origin_server_ts".to_owned(), WireValue::Integer(scalars.origin_server_ts)));
    fields.push(("room_id".to_owned(), WireValue::Text(scalars.room_id.clone())));
    fields.push(("sender".to_owned(), WireValue::Text(scalars.sender.clone())));
    proof {
        assert(fields_model(fields@) =~= spec_serialize_fields::<C>(envelope@));
        lemma_object_model(fields);
        lemma_round_trip::<C>(envelope@);
    }
    WireValue::Object(fields)
}

/// The seven names that this layer reads and writes differ from one another:
/// all but two by their length, those two by their first letter.
pub proof fn lemma_field_names_differ()
    ensures
        "type"@.len() == 4,
        "sender"@.len() == 6,
        "content"@.len() == 7,
        "room_id"@.len() == 7,
        "event_id"@.len() == 8,
        "state_key"@.len() == 9,
        "origin_server_ts"@.len() == 16,
        "content"@[0] == 'c',
        "room_id"@[0] == 'r',
{
    reveal_strlit("type");
    reveal_strlit("content");
    reveal_strlit("state_key");
    reveal_strlit("event_id");
    reveal_strlit("origin_server_ts");
    reveal_strlit("room_id");
    reveal_strlit("sender");
}

/// What the wire object of an event holds under each of the names that this
/// layer writes.
pub proof fn lemma_serialized_fields<C: EventContent>(envelope: EnvelopeModel<C::V>)
    ensures
        spec_lookup(spec_serialize_fields::<C>(envelope), "type"@) == Some(
            WireModel::Text(C::spec_descriptor().type_tag),
        ),
        spec_lookup(spec_serialize_fields::<C>(envelope), "content"@) == Some(
            WireModel::Object(C::spec_to_fields(envelope.content)),
        ),
        spec_lookup(spec_serialize_fields::<C>(envelope), "state_key"@)
            == match envelope.state_key.format() {
            Some(text) => Some(WireModel::Text(text)),
            None => None,
        },
        spec_lookup(spec_serialize_fields::<C>(envelope), "event_id"@) == Some(
            WireModel::Text(envelope.fields.event_id),
        ),
        spec_lookup(spec_serialize_fields::<C>(envelope), "origin_server_ts"@) == Some(
            WireModel::Integer(envelope.fields.origin_server_ts),
        ),
        spec_lookup(spec_serialize_fields::<C>(envelope), "room_id"@) == Some(
            WireModel::Text(envelope.fields.room_id),
        ),
        spec_lookup(spec_serialize_fields::<C>(envelope), "sender"@) == Some(
            WireModel::Text(envelope.fields.sender),
        ),
{
    lemma_field_names_differ();
    reveal_with_fuel(spec_lookup, 5);
    let head = seq![
        ("type"@, WireModel::Text(C::spec_descriptor().type_tag)),
        ("content"@, WireModel::Object(C::spec_to_fields(envelope.content))),
    ];
    let key = spec_state_key_fields(envelope.state_key);
    let scalars = spec_scalar_fields(envelope.fields);
    let fields = spec_serialize_fields::<C>(envelope);
    assert forall|name: Seq<char>| #[trigger]
        spec_lookup(fields, name) == match spec_lookup(head, name) {
            Some(value) => Some(value),
            None => match spec_lookup(key, name) {
                Some(value) => Some(value),
                None => spec_lookup(scalars, name),
            },
        } by {
        lemma_lookup_concat(head + key, scalars, name);
        lemma_lookup_concat(head, key, name);
    }
}

/// Round trip: the wire object written for an event of kind `C` is read back
/// as that event, whatever its state key, the empty one included.
pub proof fn lemma_round_trip<C: EventContent>(envelope: EnvelopeModel<C::V>)
    requires
        valid_envelope::<C>(envelope),
    ensures
        spec_deserialize::<C>(spec_serialize::<C>(envelope)) == Ok::<
            EnvelopeModel<C::V>,
            ErrorModel,
        >(envelope),
{
    lemma_serialized_fields::<C>(envelope);
    C::lemma_fields_round_trip(envelope.content);
    lemma_state_key_round_trip(envelope.state_key);
}

/// A state key that is empty text is written as empty text, never left out,
/// for a kind with one slot per room and for a kind with one slot per key.
pub proof fn lemma_empty_state_key_is_written<C: EventContent>(envelope: EnvelopeModel<C::V>)
    requires
        envelope.state_key == StateKeyModel::EmptyKey || envelope.state_key == StateKeyModel::Key(
            Seq::empty(),
        ),
    ensures
        spec_lookup(spec_serialize_fields::<C>(envelope), "state_key"@) == Some(
            WireModel::Text(Seq::empty()),
        ),
{
    lemma_serialized_fields::<C>(envelope);
}

/// An event of a kind without state key is written without `state_key`.
pub proof fn lemma_message_is_written_without_state_key<C: EventContent>(
    envelope: EnvelopeModel<C::V>,
)
    requires
        valid_envelope::<C>(envelope),
        C::spec_descriptor().state_key_kind == StateKeyKind::NoKey,
    ensures
        spec_lookup(spec_serialize_fields::<C>(envelope), "state_key"@) is None,
{
    lemma_serialized_fields::<C>(envelope);
}

/// A `state_key` on the wire, whatever it holds, is passed over when an event
/// of a kind without state key is read.
pub proof fn lemma_state_key_of_message_is_passed_over<C: EventContent>(
    fields: FieldsModel,
    at: int,
    value: WireModel,
)
    requires
        0 <= at <= fields.len(),
        C::spec_descriptor().state_key_kind == StateKeyKind::NoKey,
    ensures
        spec_deserialize::<C>(WireModel::Object(fields.insert(at, ("state_key"@, value))))
            == spec_deserialize::<C>(WireModel::Object(fields)),
{
    lemma_field_names_differ();
    lemma_lookup_passes_over(fields, at, "state_key"@, value, "type"@);
    lemma_lookup_passes_over(fields, at, "state_key"@, value, "content"@);
    lemma_lookup_passes_over(fields, at, "state_key"@, value, "event_id"@);
    lemma_lookup_passes_over(fields, at, "state_key"@, value, "origin_server_ts"@);
    lemma_lookup_passes_over(fields, at, "state_key"@, value, "room_id"@);
    lemma_lookup_passes_over(fields, at, "state_key"@, value, "sender"@);
}

/// Whether this layer reads the field `name` of a wire object.
pub open spec fn is_envelope_name(name: Seq<char>) -> bool {
    ||| name == "type"@
    ||| name == "content"@
    ||| name == "state_key"@
    ||| name == "event_id"@
    ||| name == "origin_server_ts"@
    ||| name == "room_id"@
    ||| name == "sender"@
}

/// A field that this layer does not read, wherever it stands in a wire
/// object, changes nothing of what is read from the object.
pub proof fn lemma_unknown_field_is_passed_over<C: EventContent>(
    fields: FieldsModel,
    at: int,
    name: Seq<char>,
    value: WireModel,
)
    requires
        0 <= at <= fields.len(),
        !is_envelope_name(name),
    ensures
        spec_deserialize::<C>(WireModel::Object(fields.insert(at, (name, value))))
            == spec_deserialize::<C>(WireModel::Object(fields)),
{
    lemma_lookup_passes_over(fields, at, name, value, "type"@);
    lemma_lookup_passes_over(fields, at, name, value, "content"@);
    lemma_lookup_passes_over(fields, at, name, value, "state_key"@);
    lemma_lookup_passes_over(fields, at, name, value, "event_id"@);
    lemma_lookup_passes_over(fields, at, name, value, "origin_server_ts"@);
    lemma_lookup_passes_over(fields, at, name, value, "room_id"@);
    lemma_lookup_passes_over(fields, at, name, value, "sender"@);
}

/// Tag mismatch: a wire object whose `type` is anything but the tag of `C` is
/// not an event of kind `C`, whatever else it holds.
pub proof fn lemma_type_mismatch<C: EventContent>(fields: FieldsModel, found: WireModel)
    requires
        spec_lookup(fields, "type"@) == Some(found),
        found != WireModel::Text(C::spec_descriptor().type_tag),
    ensures
        spec_deserialize::<C>(WireModel::Object(fields)) == Err::<EnvelopeModel<C::V>, ErrorModel>(
            ErrorModel::TypeMismatch,
        ),
{
}

} // verus!
