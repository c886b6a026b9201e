//! A language tag as a validated value: text that the BCP 47 grammar accepts,
//! held in the casing that parsing gives it.

use vstd::prelude::*;

use crate::error::ParseError;

verus! {

/// What `language_tags::LanguageTag::parse` makes of `raw`: the text of the tag
/// that it returns, or `None` where it returns an error. The grammar itself is
/// not written down here.
pub uninterp spec fn parsed_tag(raw: Seq<char>) -> Option<Seq<char>>;

/// Text that parses to itself: the text of a tag.
pub open spec fn is_tag_text(text: Seq<char>) -> bool {
    parsed_tag(text) == Some(text)
}

/// What parsing `raw` yields: the text of the tag, or the error.
pub open spec fn spec_parse(raw: Seq<char>) -> Result<Seq<char>, ParseError> {
    match parsed_tag(raw) {
        Some(text) => Ok(text),
        None => Err(ParseError::InvalidGrammar),
    }
}

/// Runs `language_tags::LanguageTag::parse` on `raw` and takes the text out of
/// the tag that it returns, with `into_string`.
///
/// Nothing of this contract is proved. Its first clause says that the outcome
/// is what `parsed_tag` names. Its second clause says that the text of a parsed
/// tag parses to itself: `parse` looks the input up among the grandfathered
/// tags, blind to case, and returns the registered spelling; it lowers a
/// private-use tag (`x-...`) as a whole; and it reads any other tag subtag by
/// subtag, choosing by the length, the place and the character classes of each
/// and writing each in a fixed case. No choice depends on case, so the text
/// that came out takes the same way and comes out unchanged. `parse` returns
/// for every input.
#[verifier::external_body]
fn parse_tag_text(raw: &str) -> (out: Option<String>)
    ensures
        parsed_tag(raw@) == match out {
            Some(text) => Some(text@),
            None => None,
        },
        out matches Some(text) ==> is_tag_text(text@),
{
    match language_tags::LanguageTag::parse(raw) {
        Ok(tag) => Some(tag.into_string()),
        Err(_) => None,
    }
}

/// A language tag. Its text is never anything but the outcome of a successful
/// parse. Tags are equal, and ordered, as their texts are.
#[derive(Debug, Eq, PartialOrd, Ord, Hash)]
pub struct LanguageTag {
    text: String,
}

impl View for LanguageTag {
    type V = Seq<char>;

    closed spec fn view(&self) -> Seq<char> {
        self.text@
    }
}

impl PartialEq for LanguageTag {
    fn eq(&self, other: &Self) -> (equal: bool) {
        self.text == other.text
    }
}

impl vstd::std_specs::cmp::PartialEqSpecImpl for LanguageTag {
    open spec fn obeys_eq_spec() -> bool {
        true
    }

    open spec fn eq_spec(&self, other: &Self) -> bool {
        self@ == other@
    }
}

impl Clone for LanguageTag {
    fn clone(&self) -> (copy: Self)
        ensures
            copy@ == self@,
    {
        proof {
            use_type_invariant(self);
        }
        LanguageTag { text: self.text.clone() }
    }
}

impl LanguageTag {
    #[verifier::type_invariant]
    spec fn holds_tag_text(&self) -> bool {
        is_tag_text(self.text@)
    }

    /// Parses `raw`. Casing is normalized here, so that formatting gives the
    /// stored text back unchanged.
    pub fn parse(raw: &str) -> (outcome: Result<LanguageTag, ParseError>)
        ensures
            spec_parse(raw@) == match outcome {
                Ok(tag) => Ok(tag@),
                Err(error) => Err(error),
            },
            outcome matches Ok(tag) ==> is_tag_text(tag@),
    {
        match parse_tag_text(raw) {
            Some(text) => Ok(LanguageTag { text }),
            None => Err(ParseError::InvalidGrammar),
        }
    }

    /// The text of the tag.
    pub fn as_str(&self) -> (text: &str)
        ensures
            text@ == self@,
            is_tag_text(self@),
    {
        proof {
            use_type_invariant(self);
        }
        self.text.as_str()
    }

    /// The text of the tag, as an owned string.
    pub fn format(&self) -> (text: String)
        ensures
            text@ == self@,
            is_tag_text(self@),
    {
        proof {
            use_type_invariant(self);
        }
        self.text.clone()
    }
}

/// Formatting a tag and parsing the text again gives the same tag.
pub proof fn lemma_parse_inverts_format(text: Seq<char>)
    requires
        is_tag_text(text),
    ensures
        spec_parse(text) == Ok::<Seq<char>, ParseError>(text),
{
}

} // verus!
