//! The language that a room is held in.

use vstd::prelude::*;

use crate::content::EventContent;
use crate::descriptor::{ContentDescriptor, DescriptorModel, StateKeyKind};
use crate::envelope::{valid_envelope, EnvelopeModel};
use crate::error::{ErrorKind, ErrorModel, ParseError};
use crate::language_tag::{is_tag_text, spec_parse, LanguageTag};
use crate::pipeline::{
    lemma_empty_state_key_is_written, lemma_field_names_differ, lemma_serialized_fields,
    spec_check_type, spec_deserialize, spec_serialize, spec_serialize_fields,
};
use crate::wire::{
    fields_model, lemma_lookup_passes_over, lookup, spec_lookup, FieldsModel, WireFields,
    WireModel, WireValue,
};

verus! {

/// The content of a room language event.
///
/// The language of a room is an IETF BCP 47 language tag. A room has one
/// language: the state key of the event is always empty.
#[derive(Debug, Eq)]
#[non_exhaustive]
pub struct RoomLanguageEventContent {
    /// The language of the room.
    pub language: LanguageTag,
}

/// The mathematical content of a `RoomLanguageEventContent`.
pub struct RoomLanguageModel {
    /// The text of the language tag.
    pub language: Seq<char>,
}

impl View for RoomLanguageEventContent {
    type V = RoomLanguageModel;

    open spec fn view(&self) -> RoomLanguageModel {
        RoomLanguageModel { language: self.language@ }
    }
}

impl PartialEq for RoomLanguageEventContent {
    fn eq(&self, other: &Self) -> (equal: bool) {
        self.language == other.language
    }
}

impl vstd::std_specs::cmp::PartialEqSpecImpl for RoomLanguageEventContent {
    open spec fn obeys_eq_spec() -> bool {
        true
    }

    open spec fn eq_spec(&self, other: &Self) -> bool {
        self@ == other@
    }
}

impl Clone for RoomLanguageEventContent {
    fn clone(&self) -> (copy: Self)
        ensures
            copy@ == self@,
    {
        RoomLanguageEventContent { language: self.language.clone() }
    }
}

/// The language that the value of the `language` field stands for. A value
/// that is not text is no more a language tag than text outside the grammar.
pub open spec fn spec_read_language(value: WireModel) -> Result<RoomLanguageModel, ErrorModel> {
    match value {
        WireModel::Text(raw) => match spec_parse(raw) {
            Ok(language) => Ok(RoomLanguageModel { language }),
            Err(cause) => Err(ErrorModel::InvalidField("language"@, cause)),
        },
        _ => Err(ErrorModel::InvalidField("language"@, ParseError::InvalidGrammar)),
    }
}

impl RoomLanguageEventContent {
    /// Create a new `RoomLanguageEventContent` with the given language.
    pub fn new(language: LanguageTag) -> (content: Self)
        ensures
            content.language == language,
            content@ == (RoomLanguageModel { language: language@ }),
    {
        Self { language }
    }

    /// Makes the content from the outcome of parsing the `language` field: a
    /// tag becomes the language, an error is reported under the field's name.
    pub fn from_parsed_language(outcome: Result<LanguageTag, ParseError>) -> (content: Result<
        Self,
        ErrorKind,
    >)
        ensures
            match outcome {
                Ok(language) => content matches Ok(made) && made.language == language,
                Err(cause) => content matches Err(error) && error@ == ErrorModel::InvalidField(
                    "language"@,
                    cause,
                ),
            },
    {
        match outcome {
            Ok(language) => Ok(Self::new(language)),
            Err(cause) => Err(ErrorKind::InvalidField("language".to_owned(), cause)),
        }
    }
}

impl EventContent for RoomLanguageEventContent {
    open spec fn spec_descriptor() -> DescriptorModel {
        DescriptorModel {
            type_tag: "org.matrix.msc4334.room.language"@,
            state_key_kind: StateKeyKind::EmptyKey,
        }
    }

    open spec fn valid(content: RoomLanguageModel) -> bool {
        is_tag_text(content.language)
    }

    open spec fn spec_to_fields(content: RoomLanguageModel) -> FieldsModel {
        seq![("language"@, WireModel::Text(content.language))]
    }

    open spec fn spec_from_fields(fields: FieldsModel) -> Result<RoomLanguageModel, ErrorModel> {
        match spec_lookup(fields, "language"@) {
            None => Err(ErrorModel::MalformedEnvelope),
            Some(value) => spec_read_language(value),
        }
    }

    fn descriptor() -> (descriptor: ContentDescriptor) {
        ContentDescriptor {
            type_tag: "org.matrix.msc4334.room.language",
            state_key_kind: StateKeyKind::EmptyKey,
        }
    }

    fn to_fields(&self) -> (fields: WireFields) {
        let mut fields: Vec<(String, WireValue)> = Vec::new();
        fields.push(("language".to_owned(), WireValue::Text(self.language.format())));
        proof {
            assert(fields_model(fields@) =~= Self::spec_to_fields(self@));
        }
        fields
    }

    fn from_fields(fields: &WireFields) -> (outcome: Result<Self, ErrorKind>) {
        match lookup(fields, "language") {
            None => Err(ErrorKind::MalformedEnvelope),
            Some(value) => match value.as_text() {
                None => Err(
                    ErrorKind::InvalidField("language".to_owned(), ParseError::InvalidGrammar),
                ),
                Some(raw) => Self::from_parsed_language(LanguageTag::parse(raw.as_str())),
            },
        }
    }

    proof fn lemma_fields_round_trip(content: RoomLanguageModel) {
    }
}

/// Rejection, in the content: a `language` that is not the text of a
/// language tag is reported under the name of the field.
pub proof fn lemma_invalid_language_field(content: FieldsModel, language: WireModel)
    requires
        spec_lookup(content, "language"@) == Some(language),
        language matches WireModel::Text(raw) ==> spec_parse(raw) is Err,
    ensures
        RoomLanguageEventContent::spec_from_fields(content) == Err::<RoomLanguageModel, ErrorModel>(
            ErrorModel::InvalidField("language"@, ParseError::InvalidGrammar),
        ),
{
}

/// Rejection, in the event: a wire object that passes the checks of its `type`
/// and of its `state_key`, and whose `content` holds a `language` that is not
/// the text of a language tag, is refused for that field.
pub proof fn lemma_invalid_language_is_rejected(
    fields: FieldsModel,
    content: FieldsModel,
    language: WireModel,
)
    requires
        spec_check_type(fields, RoomLanguageEventContent::spec_descriptor().type_tag) is Ok,
        spec_lookup(fields, "state_key"@) matches Some(key) && key is Text,
        spec_lookup(fields, "content"@) == Some(WireModel::Object(content)),
        spec_lookup(content, "language"@) == Some(language),
        language matches WireModel::Text(raw) ==> spec_parse(raw) is Err,
    ensures
        spec_deserialize::<RoomLanguageEventContent>(WireModel::Object(fields)) == Err::<
            EnvelopeModel<RoomLanguageModel>,
            ErrorModel,
        >(ErrorModel::InvalidField("language"@, ParseError::InvalidGrammar)),
{
    lemma_invalid_language_field(content, language);
}

/// Tag mismatch: a wire object of type `m.other.event` is not a room language
/// event.
pub proof fn lemma_other_event_is_a_mismatch(fields: FieldsModel)
    requires
        spec_lookup(fields, "type"@) == Some(WireModel::Text("m.other.event"@)),
    ensures
        spec_deserialize::<RoomLanguageEventContent>(WireModel::Object(fields)) == Err::<
            EnvelopeModel<RoomLanguageModel>,
            ErrorModel,
        >(ErrorModel::TypeMismatch),
{
    reveal_strlit("m.other.event");
    reveal_strlit("org.matrix.msc4334.room.language");
    assert("m.other.event"@.len() == 13);
    assert("org.matrix.msc4334.room.language"@.len() == 32);
}

/// State key, outbound: the wire object of a room language event always bears
/// the empty text as its `state_key`.
pub proof fn lemma_state_key_is_written_empty(envelope: EnvelopeModel<RoomLanguageModel>)
    requires
        valid_envelope::<RoomLanguageEventContent>(envelope),
    ensures
        spec_lookup(spec_serialize_fields::<RoomLanguageEventContent>(envelope), "state_key"@)
            == Some(WireModel::Text(Seq::empty())),
{
    lemma_serialized_fields::<RoomLanguageEventContent>(envelope);
}

/// The wire object of a room language event, field by field.
pub proof fn lemma_wire_object(envelope: EnvelopeModel<RoomLanguageModel>)
    requires
        valid_envelope::<RoomLanguageEventContent>(envelope),
    ensures
        spec_serialize::<RoomLanguageEventContent>(envelope) == WireModel::Object(
            seq![
                ("type"@, WireModel::Text("org.matrix.msc4334.room.language"@)),
                (
                    "content"@,
                    WireModel::Object(
                        seq![("language"@, WireModel::Text(envelope.content.language))],
                    ),
                ),
                ("state_key"@, WireModel::Text(Seq::empty())),
                ("event_id"@, WireModel::Text(envelope.fields.event_id)),
                ("origin_server_ts"@, WireModel::Integer(envelope.fields.origin_server_ts)),
                ("room_id"@, WireModel::Text(envelope.fields.room_id)),
                ("sender"@, WireModel::Text(envelope.fields.sender)),
            ],
        ),
{
    assert(spec_serialize_fields::<RoomLanguageEventContent>(envelope) =~= seq![
        ("type"@, WireModel::Text("org.matrix.msc4334.room.language"@)),
        (
            "content"@,
            WireModel::Object(seq![("language"@, WireModel::Text(envelope.content.language))]),
        ),
        ("state_key"@, WireModel::Text(Seq::empty())),
        ("event_id"@, WireModel::Text(envelope.fields.event_id)),
        ("origin_server_ts"@, WireModel::Integer(envelope.fields.origin_server_ts)),
        ("room_id"@, WireModel::Text(envelope.fields.room_id)),
        ("sender"@, WireModel::Text(envelope.fields.sender)),
    ]);
}

/// State key, inbound: the text of the `state_key` does not decide whether a
/// wire object is a room language event, nor which. Two objects that differ
/// in nothing but that text are read alike: a key that is not empty is
/// accepted like the empty one.
pub proof fn lemma_state_key_text_is_immaterial(one: FieldsModel, other: FieldsModel)
    requires
        spec_lookup(one, "state_key"@) matches Some(key) && key is Text,
        spec_lookup(other, "state_key"@) matches Some(key) && key is Text,
        forall|name: Seq<char>|
            name != "state_key"@ ==> #[trigger] spec_lookup(one, name) == spec_lookup(other, name),
    ensures
        spec_deserialize::<RoomLanguageEventContent>(WireModel::Object(one)) == spec_deserialize::<
            RoomLanguageEventContent,
        >(WireModel::Object(other)),
{
    lemma_field_names_differ();
}

/// State key, round trip: whatever a wire object bore as the `state_key` of a
/// room language event, the event that was read from it is written with a
/// `state_key` again, the empty text.
pub proof fn lemma_state_key_is_kept(wire: WireModel, envelope: EnvelopeModel<RoomLanguageModel>)
    requires
        spec_deserialize::<RoomLanguageEventContent>(wire) == Ok::<
            EnvelopeModel<RoomLanguageModel>,
            ErrorModel,
        >(envelope),
    ensures
        spec_lookup(spec_serialize_fields::<RoomLanguageEventContent>(envelope), "state_key"@)
            == Some(WireModel::Text(Seq::empty())),
{
    lemma_empty_state_key_is_written::<RoomLanguageEventContent>(envelope);
}

/// A field of the `content` other than `language`, wherever it stands, changes
/// nothing of what is read from the content.
pub proof fn lemma_unknown_content_field_is_passed_over(
    content: FieldsModel,
    at: int,
    name: Seq<char>,
    value: WireModel,
)
    requires
        0 <= at <= content.len(),
        name != "language"@,
    ensures
        RoomLanguageEventContent::spec_from_fields(content.insert(at, (name, value)))
            == RoomLanguageEventContent::spec_from_fields(content),
{
    lemma_lookup_passes_over(content, at, name, value, "language"@);
}

} // verus!
