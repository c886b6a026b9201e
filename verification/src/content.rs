//! The contract that every payload type fulfils to be carried by an event.

use vstd::prelude::*;

use crate::descriptor::{ContentDescriptor, DescriptorModel};
use crate::error::{ErrorKind, ErrorModel};
use crate::wire::{fields_model, FieldsModel, WireFields};

verus! {

/// A payload kind. Implementing this trait once is all it takes to let a new
/// kind travel in an event envelope.
pub trait EventContent: View + Sized {
    /// The descriptor of this kind.
    spec fn spec_descriptor() -> DescriptorModel;

    /// Whether `content` is the content of a value of this kind: whether each
    /// field holds a value of its validated type.
    spec fn valid(content: Self::V) -> bool;

    /// The named values that make up the `content` object of `content`.
    spec fn spec_to_fields(content: Self::V) -> FieldsModel;

    /// The payload that the named values of a `content` object stand for, or
    /// the reason why they stand for none.
    spec fn spec_from_fields(fields: FieldsModel) -> Result<Self::V, ErrorModel>;

    /// The descriptor of this kind.
    fn descriptor() -> (descriptor: ContentDescriptor)
        ensures
            descriptor@ == Self::spec_descriptor(),
    ;

    /// Maps the payload to the named values of its `content` object.
    fn to_fields(&self) -> (fields: WireFields)
        ensures
            fields_model(fields@) == Self::spec_to_fields(self@),
            Self::valid(self@),
    ;

    /// Reads a payload from the named values of a `content` object.
    fn from_fields(fields: &WireFields) -> (outcome: Result<Self, ErrorKind>)
        ensures
            Self::spec_from_fields(fields_model(fields@)) == match outcome {
                Ok(content) => Ok(content@),
                Err(error) => Err(error@),
            },
            outcome matches Ok(content) ==> Self::valid(content@),
    ;

    /// The named values written for a payload are read back as that payload.
    proof fn lemma_fields_round_trip(content: Self::V)
        requires
            Self::valid(content),
        ensures
            Self::spec_from_fields(Self::spec_to_fields(content)) == Ok::<Self::V, ErrorModel>(
                content,
            ),
    ;
}

} // verus!
