//! What a payload kind declares of itself, and the state key that follows from
//! it.

use vstd::prelude::*;

use crate::error::{ErrorKind, ErrorModel};
use crate::wire::{WireModel, WireValue};

verus! {

/// How a payload kind is keyed within a room.
#[derive(Clone, Copy, Debug, PartialEq, Eq, Structural)]
pub enum StateKeyKind {
    /// A message payload: its events carry no state key.
    NoKey,
    /// A state payload with one slot per room: the key is always empty text.
    EmptyKey,
    /// A state payload with one slot per key.
    Typed,
}

/// The static metadata of one payload kind.
#[derive(Clone, Copy, Debug, PartialEq, Eq)]
pub struct ContentDescriptor {
    /// The `type` that events of this kind bear on the wire.
    pub type_tag: &'static str,
    /// Whether events of this kind carry a state key, and of which sort.
    pub state_key_kind: StateKeyKind,
}

/// The mathematical content of a `ContentDescriptor`.
pub struct DescriptorModel {
    pub type_tag: Seq<char>,
    pub state_key_kind: StateKeyKind,
}

impl View for ContentDescriptor {
    type V = DescriptorModel;

    open spec fn view(&self) -> DescriptorModel {
        DescriptorModel { type_tag: self.type_tag@, state_key_kind: self.state_key_kind }
    }
}

/// The state key of one event.
#[derive(Debug, Eq)]
pub enum StateKey {
    /// The event carries no state key.
    NoKey,
    /// The key of a kind with one slot per room.
    EmptyKey,
    /// The key of a kind with one slot per key. It may be empty text.
    Key(String),
}

/// The mathematical content of a `StateKey`.
pub enum StateKeyModel {
    NoKey,
    EmptyKey,
    Key(Seq<char>),
}

impl View for StateKey {
    type V = StateKeyModel;

    open spec fn view(&self) -> StateKeyModel {
        match self {
            StateKey::NoKey => StateKeyModel::NoKey,
            StateKey::EmptyKey => StateKeyModel::EmptyKey,
            StateKey::Key(text) => StateKeyModel::Key(text@),
        }
    }
}

impl StateKeyModel {
    /// The kind of payload that this key belongs to.
    pub open spec fn kind(self) -> StateKeyKind {
        match self {
            StateKeyModel::NoKey => StateKeyKind::NoKey,
            StateKeyModel::EmptyKey => StateKeyKind::EmptyKey,
            StateKeyModel::Key(_) => StateKeyKind::Typed,
        }
    }

    /// The `state_key` that the wire object bears: none, empty text, or the
    /// text of the key.
    pub open spec fn format(self) -> Option<Seq<char>> {
        match self {
            StateKeyModel::NoKey => None,
            StateKeyModel::EmptyKey => Some(Seq::empty()),
            StateKeyModel::Key(text) => Some(text),
        }
    }

    /// The key that a payload of `kind` has where the text given for it is
    /// `text`: only a typed key keeps the text.
    pub open spec fn bound(kind: StateKeyKind, text: Seq<char>) -> StateKeyModel {
        match kind {
            StateKeyKind::NoKey => StateKeyModel::NoKey,
            StateKeyKind::EmptyKey => StateKeyModel::EmptyKey,
            StateKeyKind::Typed => StateKeyModel::Key(text),
        }
    }

    /// The key read from the `state_key` field of a wire object, `field`, for a
    /// payload of `kind`. A kind without key ignores the field. Any text is
    /// accepted, the empty one too.
    pub open spec fn parse(kind: StateKeyKind, field: Option<WireModel>) -> Result<
        StateKeyModel,
        ErrorModel,
    > {
        if kind == StateKeyKind::NoKey {
            Ok(StateKeyModel::NoKey)
        } else {
            match field {
                None => Err(ErrorModel::MissingStateKey),
                Some(WireModel::Text(text)) => Ok(Self::bound(kind, text)),
                Some(_) => Err(ErrorModel::InvalidStateKey),
            }
        }
    }
}

impl PartialEq for StateKey {
    fn eq(&self, other: &Self) -> (equal: bool) {
        match (self, other) {
            (StateKey::NoKey, StateKey::NoKey) => true,
            (StateKey::EmptyKey, StateKey::EmptyKey) => true,
            (StateKey::Key(one), StateKey::Key(two)) => *one == *two,
            _ => false,
        }
    }
}

impl vstd::std_specs::cmp::PartialEqSpecImpl for StateKey {
    open spec fn obeys_eq_spec() -> bool {
        true
    }

    open spec fn eq_spec(&self, other: &Self) -> bool {
        self@ == other@
    }
}

impl Clone for StateKey {
    fn clone(&self) -> (copy: Self)
        ensures
            copy@ == self@,
    {
        match self {
            StateKey::NoKey => StateKey::NoKey,
            StateKey::EmptyKey => StateKey::EmptyKey,
            StateKey::Key(text) => StateKey::Key(text.clone()),
        }
    }
}

impl StateKey {
    /// The kind of payload that this key belongs to.
    pub fn kind(&self) -> (kind: StateKeyKind)
        ensures
            kind == self@.kind(),
    {
        match self {
            StateKey::NoKey => StateKeyKind::NoKey,
            StateKey::EmptyKey => StateKeyKind::EmptyKey,
            StateKey::Key(_) => StateKeyKind::Typed,
        }
    }

    /// The `state_key` that the wire object bears, if any.
    pub fn format(&self) -> (text: Option<String>)
        ensures
            self@.format() == match text {
                Some(t) => Some(t@),
                None => None,
            },
    {
        match self {
            StateKey::NoKey => None,
            StateKey::EmptyKey => Some(String::new()),
            StateKey::Key(text) => Some(text.clone()),
        }
    }

    /// The key of a payload of `kind` for which `text` was given.
    pub fn bind(kind: StateKeyKind, text: String) -> (key: StateKey)
        ensures
            key@ == StateKeyModel::bound(kind, text@),
            key@.kind() == kind,
    {
        match kind {
            StateKeyKind::NoKey => StateKey::NoKey,
            StateKeyKind::EmptyKey => StateKey::EmptyKey,
            StateKeyKind::Typed => StateKey::Key(text),
        }
    }

    /// Reads the key of a payload of `kind` from the `state_key` field of a
    /// wire object, where `field` is that field if the object has one.
    pub fn parse(kind: StateKeyKind, field: Option<&WireValue>) -> (outcome: Result<
        StateKey,
        ErrorKind,
    >)
        ensures
            StateKeyModel::parse(
                kind,
                match field {
                    Some(value) => Some(value@),
                    None => None,
                },
            ) == match outcome {
                Ok(key) => Ok(key@),
                Err(error) => Err(error@),
            },
            outcome matches Ok(key) ==> key@.kind() == kind,
    {
        match kind {
            StateKeyKind::NoKey => Ok(StateKey::NoKey),
            _ => match field {
                None => Err(ErrorKind::MissingStateKey),
                Some(value) => match value.as_text() {
                    Some(text) => Ok(StateKey::bind(kind, text.clone())),
                    None => Err(ErrorKind::InvalidStateKey),
                },
            },
        }
    }
}

/// A key that was formatted is read back as it was.
pub proof fn lemma_state_key_round_trip(key: StateKeyModel)
    ensures
        StateKeyModel::parse(
            key.kind(),
            match key.format() {
                Some(text) => Some(WireModel::Text(text)),
                None => None,
            },
        ) == Ok::<StateKeyModel, ErrorModel>(key),
{
}

/// No text is refused as a state key: what is refused is a missing key and a
/// key that is not text.
pub proof fn lemma_any_text_is_a_state_key(kind: StateKeyKind, text: Seq<char>)
    ensures
        StateKeyModel::parse(kind, Some(WireModel::Text(text))) == Ok::<
            StateKeyModel,
            ErrorModel,
        >(StateKeyModel::bound(kind, text)),
{
}

} // verus!
