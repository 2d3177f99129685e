//! Language tags.

use crate::text::same_text;
use vstd::prelude::*;

verus! {

/// The normal form of the language tag that `text` spells, or `None` where
/// `text` is not a well-formed tag.
pub uninterp spec fn language_tag_of_text(text: Seq<char>) -> Option<Seq<char>>;

/// Trusted: `LanguageTag::parse` of `language_tags` accepts the well-formed
/// tags of RFC 5646 and `into_string` gives the accepted tag with the case
/// of its subtags put in order; the outcome depends on the text alone.
#[verifier::external_body]
fn read_language_tag(text: &str) -> (r: Option<String>)
    ensures
        match r {
            Some(tag) => language_tag_of_text(text@) == Some(tag@),
            None => language_tag_of_text(text@) is None,
        },
{
    match language_tags::LanguageTag::parse(text) {
        Ok(tag) => Some(tag.into_string()),
        Err(_) => None,
    }
}

/// A well-formed language tag, such as `en-US`.
#[derive(Debug)]
pub struct LanguageTag {
    tag: String,
}

impl LanguageTag {
    /// Every tag is the normal form of some text that spells a tag.
    #[verifier::type_invariant]
    spec fn well_formed(&self) -> bool {
        LanguageTag::is_tag(self.tag@)
    }

    /// The characters of the tag.
    pub closed spec fn view(&self) -> Seq<char> {
        self.tag@
    }

    /// Reads a language tag; `None` where `text` is not well formed.
    pub fn parse(text: &str) -> (r: Option<LanguageTag>)
        ensures
            match r {
                Some(tag) => language_tag_of_text(text@) == Some(tag@),
                None => language_tag_of_text(text@) is None,
            },
    {
        match read_language_tag(text) {
            Some(tag) => Some(LanguageTag { tag }),
            None => None,
        }
    }

    /// Whether `text` is the normal form of a well-formed tag.
    pub open spec fn is_tag(text: Seq<char>) -> bool {
        exists|source: Seq<char>| language_tag_of_text(source) == Some(text)
    }

    /// The tag as text: the normal form of something that spells a tag.
    pub fn as_str(&self) -> (r: &str)
        ensures
            r@ == self@,
            LanguageTag::is_tag(r@),
    {
        proof {
            use_type_invariant(self);
        }
        self.tag.as_str()
    }

    /// Whether two tags are spelled alike.
    pub fn same(&self, other: &LanguageTag) -> (r: bool)
        ensures
            r == (self@ == other@),
    {
        same_text(self.tag.as_str(), other.tag.as_str())
    }
}

impl Clone for LanguageTag {
    fn clone(&self) -> (r: LanguageTag)
        ensures
            r@ == self@,
    {
        proof {
            use_type_invariant(self);
        }
        LanguageTag { tag: self.tag.clone() }
    }
}

} // verus!
