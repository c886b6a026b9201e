//! The catalog of payload kinds, for reading an event whose kind the caller
//! does not know beforehand: the `type` of the wire object selects the kind.

use vstd::prelude::*;

use crate::content::EventContent;
use crate::descriptor::{ContentDescriptor, DescriptorModel};
use crate::envelope::{valid_envelope, EnvelopeModel, EventEnvelope};
use crate::error::{ErrorKind, ErrorModel};
use crate::pipeline::{
    deserialize, lemma_round_trip, lemma_serialized_fields, serialize, spec_deserialize,
    spec_serialize,
};
use crate::room::language::{RoomLanguageEventContent, RoomLanguageModel};
use crate::wire::{lookup, spec_lookup, WireModel, WireValue};

verus! {

/// A payload kind of the catalog.
#[derive(Clone, Copy, Debug, PartialEq, Eq, Structural)]
pub enum ContentKind {
    /// The language of a room.
    RoomLanguage,
}

impl ContentKind {
    /// The descriptor that the payload type of this kind declares.
    pub open spec fn spec_descriptor(self) -> DescriptorModel {
        match self {
            ContentKind::RoomLanguage => RoomLanguageEventContent::spec_descriptor(),
        }
    }

    /// The descriptor that the payload type of this kind declares.
    pub fn descriptor(self) -> (descriptor: ContentDescriptor)
        ensures
            descriptor@ == self.spec_descriptor(),
    {
        match self {
            ContentKind::RoomLanguage => RoomLanguageEventContent::descriptor(),
        }
    }
}

/// The catalog: every kind, once.
pub open spec fn spec_catalog() -> Seq<ContentKind> {
    seq![ContentKind::RoomLanguage]
}

/// The first kind among `kinds` whose tag is `tag`.
pub open spec fn spec_find_kind(kinds: Seq<ContentKind>, tag: Seq<char>) -> Option<ContentKind>
    decreases kinds.len(),
{
    if kinds.len() == 0 {
        None
    } else if kinds[0].spec_descriptor().type_tag == tag {
        Some(kinds[0])
    } else {
        spec_find_kind(kinds.skip(1), tag)
    }
}

/// The kind of the catalog whose tag is `tag`.
pub open spec fn spec_kind_of(tag: Seq<char>) -> Option<ContentKind> {
    spec_find_kind(spec_catalog(), tag)
}

/// The catalog: every kind, once.
pub fn catalog() -> (kinds: Vec<ContentKind>)
    ensures
        kinds@ == spec_catalog(),
{
    let mut kinds: Vec<ContentKind> = Vec::new();
    kinds.push(ContentKind::RoomLanguage);
    proof {
        assert(kinds@ =~= spec_catalog());
    }
    kinds
}

/// Finds the kind of the catalog whose tag is `tag`.
pub fn kind_of(tag: &str) -> (kind: Option<ContentKind>)
    ensures
        kind == spec_kind_of(tag@),
{
    let kinds = catalog();
    let wanted = tag.to_owned();
    let mut i: usize = 0;
    assert(kinds@.skip(0) =~= kinds@);
    while i < kinds.len()
        invariant
            i <= kinds.len(),
            wanted@ == tag@,
            kinds@ == spec_catalog(),
            spec_kind_of(tag@) == spec_find_kind(kinds@.skip(i as int), tag@),
        decreases kinds.len() - i,
    {
        let kind = kinds[i];
        if kind.descriptor().type_tag.to_owned() == wanted {
            return Some(kind);
        }
        assert(kinds@.skip(i as int).skip(1) =~= kinds@.skip(i + 1));
        i += 1;
    }
    None
}

/// An event of any kind of the catalog.
#[derive(Debug, PartialEq, Eq)]
pub enum AnyEvent {
    /// An event that tells the language of a room.
    RoomLanguage(EventEnvelope<RoomLanguageEventContent>),
}

/// The mathematical content of an `AnyEvent`.
pub enum AnyEventModel {
    RoomLanguage(EnvelopeModel<RoomLanguageModel>),
}

impl View for AnyEvent {
    type V = AnyEventModel;

    open spec fn view(&self) -> AnyEventModel {
        match self {
            AnyEvent::RoomLanguage(envelope) => AnyEventModel::RoomLanguage(envelope@),
        }
    }
}

impl AnyEventModel {
    /// The kind of the event.
    pub open spec fn kind(self) -> ContentKind {
        match self {
            AnyEventModel::RoomLanguage(_) => ContentKind::RoomLanguage,
        }
    }

    /// Whether this is the content of an event of its kind.
    pub open spec fn valid(self) -> bool {
        match self {
            AnyEventModel::RoomLanguage(envelope) => valid_envelope::<RoomLanguageEventContent>(
                envelope,
            ),
        }
    }
}

/// The event of kind `kind` that a wire value stands for.
pub open spec fn spec_deserialize_as(kind: ContentKind, wire: WireModel) -> Result<
    AnyEventModel,
    ErrorModel,
> {
    match kind {
        ContentKind::RoomLanguage => match spec_deserialize::<RoomLanguageEventContent>(wire) {
            Ok(envelope) => Ok(AnyEventModel::RoomLanguage(envelope)),
            Err(error) => Err(error),
        },
    }
}

/// The event that a wire value stands for, of the kind that its `type`
/// selects. A `type` that is the tag of no kind of the catalog is a mismatch.
pub open spec fn spec_deserialize_any(wire: WireModel) -> Result<AnyEventModel, ErrorModel> {
    match wire {
        WireModel::Object(fields) => match spec_lookup(fields, "type"@) {
            None => Err(ErrorModel::MalformedEnvelope),
            Some(WireModel::Text(tag)) => match spec_kind_of(tag) {
                Some(kind) => spec_deserialize_as(kind, wire),
                None => Err(ErrorModel::TypeMismatch),
            },
            Some(_) => Err(ErrorModel::TypeMismatch),
        },
        _ => Err(ErrorModel::MalformedEnvelope),
    }
}

/// The wire object of an event of any kind.
pub open spec fn spec_serialize_any(event: AnyEventModel) -> WireModel {
    match event {
        AnyEventModel::RoomLanguage(envelope) => spec_serialize::<RoomLanguageEventContent>(
            envelope,
        ),
    }
}

/// Reads an event of kind `kind` from a wire value.
pub fn deserialize_as(kind: ContentKind, wire: &WireValue) -> (outcome: Result<AnyEvent, ErrorKind>)
    ensures
        spec_deserialize_as(kind, wire@) == match outcome {
            Ok(event) => Ok(event@),
            Err(error) => Err(error@),
        },
        outcome matches Ok(event) ==> event@.valid() && event@.kind() == kind,
{
    match kind {
        ContentKind::RoomLanguage => match deserialize::<RoomLanguageEventContent>(wire) {
            Ok(envelope) => Ok(AnyEvent::RoomLanguage(envelope)),
            Err(error) => Err(error),
        },
    }
}

/// Reads an event from a wire value, of the kind that its `type` selects.
pub fn deserialize_any(wire: &WireValue) -> (outcome: Result<AnyEvent, ErrorKind>)
    ensures
        spec_deserialize_any(wire@) == match outcome {
            Ok(event) => Ok(event@),
            Err(error) => Err(error@),
        },
        outcome matches Ok(event) ==> event@.valid(),
{
    let fields = match wire.as_object() {
        Some(fields) => fields,
        None => {
            return Err(ErrorKind::MalformedEnvelope);
        },
    };
    match lookup(fields, "type") {
        None => Err(ErrorKind::MalformedEnvelope),
        Some(value) => match value.as_text() {
            None => Err(ErrorKind::TypeMismatch),
            Some(tag) => match kind_of(tag.as_str()) {
                Some(kind) => deserialize_as(kind, wire),
                None => Err(ErrorKind::TypeMismatch),
            },
        },
    }
}

/// Writes an event of any kind as a wire object. Reading that object by its
/// `type` gives the event back.
pub fn serialize_any(event: &AnyEvent) -> (wire: WireValue)
    ensures
        wire@ == spec_serialize_any(event@),
        event@.valid(),
        spec_deserialize_any(wire@) == Ok::<AnyEventModel, ErrorModel>(event@),
{
    match event {
        AnyEvent::RoomLanguage(envelope) => {
            let wire = serialize(envelope);
            proof {
                lemma_any_round_trip(event@);
            }
            wire
        },
    }
}

/// Each tag of the catalog selects the kind that declares it: no two kinds
/// share a tag.
pub proof fn lemma_tag_selects_its_kind(kind: ContentKind)
    ensures
        spec_kind_of(kind.spec_descriptor().type_tag) == Some(kind),
{
}

/// A tag selects a kind where it is the tag of that kind, and none where it
/// is the tag of no kind.
pub proof fn lemma_kind_of(tag: Seq<char>)
    ensures
        match spec_kind_of(tag) {
            Some(kind) => kind.spec_descriptor().type_tag == tag,
            None => forall|kind: ContentKind| kind.spec_descriptor().type_tag != tag,
        },
{
    reveal_with_fuel(spec_find_kind, 2);
}

/// Dispatch agrees with the typed pipeline: where the `type` of a wire object
/// is the tag of `kind`, reading by `type` is reading as `kind`.
pub proof fn lemma_dispatch_by_tag(kind: ContentKind, wire: WireModel)
    requires
        wire matches WireModel::Object(fields) && spec_lookup(fields, "type"@) == Some(
            WireModel::Text(kind.spec_descriptor().type_tag),
        ),
    ensures
        spec_deserialize_any(wire) == spec_deserialize_as(kind, wire),
{
    lemma_tag_selects_its_kind(kind);
}

/// Round trip by `type`: the wire object written for an event is read back as
/// that event without the reader being told its kind.
pub proof fn lemma_any_round_trip(event: AnyEventModel)
    requires
        event.valid(),
    ensures
        spec_deserialize_any(spec_serialize_any(event)) == Ok::<AnyEventModel, ErrorModel>(event),
{
    match event {
        AnyEventModel::RoomLanguage(envelope) => {
            lemma_serialized_fields::<RoomLanguageEventContent>(envelope);
            lemma_round_trip::<RoomLanguageEventContent>(envelope);
            lemma_tag_selects_its_kind(ContentKind::RoomLanguage);
        },
    }
}

} // verus!
