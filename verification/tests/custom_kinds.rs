use event_content::content::EventContent;
use event_content::descriptor::{ContentDescriptor, DescriptorModel, StateKey, StateKeyKind};
use event_content::envelope::{EnvelopeFields, EventEnvelope};
use event_content::error::{ErrorKind, ErrorModel};
use event_content::pipeline::{deserialize, serialize};
use event_content::wire::{lookup, FieldsModel, WireFields, WireValue};
use vstd::view::View;

// Two kinds beside the one that the library brings: a state payload with one
// slot per key, and a message payload. The ghost items of the two traits are
// never run: they only have to exist.

/// The topic of one thread of a room.
#[derive(Debug, PartialEq, Eq)]
struct ThreadTopic {
    topic: String,
}

impl View for ThreadTopic {
    type V = ();

    fn view(&self) {}
}

impl EventContent for ThreadTopic {
    fn spec_descriptor() -> DescriptorModel {
        unreachable!()
    }

    fn valid(_: ()) -> bool {
        unreachable!()
    }

    fn spec_to_fields(_: ()) -> FieldsModel {
        unreachable!()
    }

    fn spec_from_fields(_: FieldsModel) -> Result<(), ErrorModel> {
        unreachable!()
    }

    fn lemma_fields_round_trip(_: ()) {}

    fn descriptor() -> ContentDescriptor {
        ContentDescriptor { type_tag: "test.thread.topic", state_key_kind: StateKeyKind::Typed }
    }

    fn to_fields(&self) -> WireFields {
        vec![("topic".to_string(), WireValue::Text(self.topic.clone()))]
    }

    fn from_fields(fields: &WireFields) -> Result<Self, ErrorKind> {
        match lookup(fields, "topic").and_then(|value| value.as_text()) {
            Some(topic) => Ok(ThreadTopic { topic: topic.clone() }),
            None => Err(ErrorKind::MalformedEnvelope),
        }
    }
}

/// A notice: a message with a body.
#[derive(Debug, PartialEq, Eq)]
struct Notice {
    body: String,
}

impl View for Notice {
    type V = ();

    fn view(&self) {}
}

impl EventContent for Notice {
    fn spec_descriptor() -> DescriptorModel {
        unreachable!()
    }

    fn valid(_: ()) -> bool {
        unreachable!()
    }

    fn spec_to_fields(_: ()) -> FieldsModel {
        unreachable!()
    }

    fn spec_from_fields(_: FieldsModel) -> Result<(), ErrorModel> {
        unreachable!()
    }

    fn lemma_fields_round_trip(_: ()) {}

    fn descriptor() -> ContentDescriptor {
        ContentDescriptor { type_tag: "test.notice", state_key_kind: StateKeyKind::NoKey }
    }

    fn to_fields(&self) -> WireFields {
        vec![("body".to_string(), WireValue::Text(self.body.clone()))]
    }

    fn from_fields(fields: &WireFields) -> Result<Self, ErrorKind> {
        match lookup(fields, "body").and_then(|value| value.as_text()) {
            Some(body) => Ok(Notice { body: body.clone() }),
            None => Err(ErrorKind::MalformedEnvelope),
        }
    }
}

fn text(value: &str) -> WireValue {
    WireValue::Text(value.to_string())
}

fn field(name: &str, value: WireValue) -> (String, WireValue) {
    (name.to_string(), value)
}

fn scalars() -> EnvelopeFields {
    EnvelopeFields {
        event_id: "$e:example.com".to_string(),
        room_id: "!r:example.com".to_string(),
        sender: "@s:example.com".to_string(),
        origin_server_ts: 7,
    }
}

fn topic(key: &str) -> EventEnvelope<ThreadTopic> {
    EventEnvelope::new(
        ThreadTopic { topic: "lunch".to_string() },
        StateKey::Key(key.to_string()),
        scalars(),
    )
}

fn notice() -> EventEnvelope<Notice> {
    EventEnvelope::new_message(Notice { body: "hello".to_string() }, scalars())
}

fn common_fields() -> Vec<(String, WireValue)> {
    vec![
        field("event_id", text("$e:example.com")),
        field("origin_server_ts", WireValue::Integer(7)),
        field("room_id", text("!r:example.com")),
        field("sender", text("@s:example.com")),
    ]
}

#[test]
fn typed_key_is_written_as_its_text() {
    let mut expected = vec![
        field("type", text("test.thread.topic")),
        field("content", WireValue::Object(vec![field("topic", text("lunch"))])),
        field("state_key", text("thread-1")),
    ];
    expected.extend(common_fields());
    assert_eq!(serialize(&topic("thread-1")), WireValue::Object(expected));
}

#[test]
fn typed_key_round_trips() {
    let wire = serialize(&topic("thread-1"));
    assert_eq!(deserialize::<ThreadTopic>(&wire), Ok(topic("thread-1")));
}

#[test]
fn typed_key_that_is_empty_round_trips_as_empty_text() {
    let wire = serialize(&topic(""));
    assert_eq!(lookup(wire.as_object().unwrap(), "state_key"), Some(&text("")));
    let read = deserialize::<ThreadTopic>(&wire).unwrap();
    assert_eq!(read.state_key(), &StateKey::Key(String::new()));
    assert_eq!(read, topic(""));
}

#[test]
fn typed_key_must_be_there() {
    let mut fields = vec![
        field("type", text("test.thread.topic")),
        field("content", WireValue::Object(vec![field("topic", text("lunch"))])),
    ];
    fields.extend(common_fields());
    assert_eq!(deserialize::<ThreadTopic>(&WireValue::Object(fields)), Err(ErrorKind::MissingStateKey));
}

#[test]
fn typed_key_must_be_text() {
    let mut fields = vec![
        field("type", text("test.thread.topic")),
        field("state_key", WireValue::Null),
        field("content", WireValue::Object(vec![field("topic", text("lunch"))])),
    ];
    fields.extend(common_fields());
    assert_eq!(deserialize::<ThreadTopic>(&WireValue::Object(fields)), Err(ErrorKind::InvalidStateKey));
}

#[test]
fn message_is_written_without_state_key() {
    let mut expected = vec![
        field("type", text("test.notice")),
        field("content", WireValue::Object(vec![field("body", text("hello"))])),
    ];
    expected.extend(common_fields());
    let wire = serialize(&notice());
    assert_eq!(lookup(wire.as_object().unwrap(), "state_key"), None);
    assert_eq!(wire, WireValue::Object(expected));
}

#[test]
fn message_round_trips() {
    let read = deserialize::<Notice>(&serialize(&notice())).unwrap();
    assert_eq!(read.state_key(), &StateKey::NoKey);
    assert_eq!(read.content(), &Notice { body: "hello".to_string() });
    assert_eq!(read.fields(), &scalars());
    assert_eq!(read, notice());
}

#[test]
fn message_made_with_no_key_is_the_message() {
    let made = EventEnvelope::new(Notice { body: "hello".to_string() }, StateKey::NoKey, scalars());
    assert_eq!(made, notice());
}

#[test]
fn state_key_of_a_message_is_passed_over() {
    for key in [text("k"), WireValue::Null, WireValue::Integer(3)] {
        let mut fields = vec![
            field("type", text("test.notice")),
            field("state_key", key),
            field("content", WireValue::Object(vec![field("body", text("hello"))])),
        ];
        fields.extend(common_fields());
        assert_eq!(deserialize::<Notice>(&WireValue::Object(fields)), Ok(notice()));
    }
}

#[test]
fn event_of_one_kind_is_not_of_another() {
    assert_eq!(deserialize::<Notice>(&serialize(&topic("k"))), Err(ErrorKind::TypeMismatch));
    assert_eq!(deserialize::<ThreadTopic>(&serialize(&notice())), Err(ErrorKind::TypeMismatch));
}

#[test]
fn error_of_the_content_is_handed_on() {
    let mut fields = vec![
        field("type", text("test.notice")),
        field("content", WireValue::Object(vec![field("body", WireValue::Integer(1))])),
    ];
    fields.extend(common_fields());
    assert_eq!(deserialize::<Notice>(&WireValue::Object(fields)), Err(ErrorKind::MalformedEnvelope));
}

#[test]
fn event_is_made_anew_of_its_parts() {
    let (content, state_key, fields) = topic("thread-1").into_parts();
    assert_eq!(content, ThreadTopic { topic: "lunch".to_string() });
    assert_eq!(state_key, StateKey::Key("thread-1".to_string()));
    assert_eq!(fields, scalars());
    let later = EnvelopeFields { origin_server_ts: 8, ..fields.clone() };
    let changed = EventEnvelope::new(ThreadTopic { topic: "dinner".to_string() }, state_key, later);
    assert_eq!(changed.content().topic, "dinner");
    assert_eq!(changed.fields().origin_server_ts, 8);
    assert_eq!(changed.fields().event_id, fields.event_id);
}
