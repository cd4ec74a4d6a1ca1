//! Where a resource is placed in the built artifact.

use crate::text::{after, has_prefix, join, same_text, strip_prefix};
use vstd::prelude::*;
use vstd::string::StringExecFns;

verus! {

/// The mathematical value of a [`ConcreteResourceLocation`].
pub enum LocationView {
    InMemory,
    RelativePath(Seq<char>),
}

/// A resolved target for a resource: embedded in the memory image of the
/// executable, or written below a relative filesystem path.
#[derive(Debug, PartialEq, Eq)]
pub enum ConcreteResourceLocation {
    /// Loaded from memory.
    InMemory,
    /// Loaded from a path relative to the executable, under this prefix.
    RelativePath(String),
}

impl View for ConcreteResourceLocation {
    type V = LocationView;

    open spec fn view(&self) -> LocationView {
        match self {
            ConcreteResourceLocation::InMemory => LocationView::InMemory,
            ConcreteResourceLocation::RelativePath(prefix) => LocationView::RelativePath(prefix@),
        }
    }
}

/// The text of the in-memory placement.
pub open spec fn in_memory_text() -> Seq<char> {
    "in-memory"@
}

/// The text that comes before the prefix of a filesystem placement.
pub open spec fn relative_path_tag() -> Seq<char> {
    "filesystem-relative:"@
}

/// The placement that a text names, if it names one.
pub open spec fn parse_location(s: Seq<char>) -> Option<LocationView> {
    if s == in_memory_text() {
        Some(LocationView::InMemory)
    } else if has_prefix(s, relative_path_tag()) {
        Some(LocationView::RelativePath(after(s, relative_path_tag().len())))
    } else {
        None
    }
}

/// The text that names a placement.
pub open spec fn format_location(l: LocationView) -> Seq<char> {
    match l {
        LocationView::InMemory => in_memory_text(),
        LocationView::RelativePath(prefix) => relative_path_tag() + prefix,
    }
}

/// What a rejected placement text is answered with.
pub open spec fn invalid_location_message(s: Seq<char>) -> Seq<char> {
    s + " is not a valid resource location"@
}

/// Formatting a placement and parsing the text gives the placement back.
pub proof fn lemma_parse_format_location(l: LocationView)
    ensures
        parse_location(format_location(l)) == Some(l),
{
    reveal_strlit("in-memory");
    reveal_strlit("filesystem-relative:");
    match l {
        LocationView::InMemory => {},
        LocationView::RelativePath(prefix) => {
            let s = relative_path_tag() + prefix;
            assert(s != in_memory_text()) by {
                assert(s[0] == 'f');
                assert(in_memory_text()[0] == 'i');
            }
            assert(s.subrange(0, relative_path_tag().len() as int) =~= relative_path_tag());
            assert(after(s, relative_path_tag().len()) =~= prefix);
        },
    }
}

/// A text that names a placement is the text that the placement is
/// formatted to.
pub proof fn lemma_format_parse_location(s: Seq<char>)
    requires
        parse_location(s) is Some,
    ensures
        format_location(parse_location(s)->0) == s,
{
    if s != in_memory_text() {
        let n = relative_path_tag().len() as int;
        assert(s.subrange(0, n) + s.subrange(n, s.len() as int) =~= s);
    }
}

impl ConcreteResourceLocation {
    /// Reads a placement from its text: `in-memory`, or
    /// `filesystem-relative:` followed by the path prefix. Any other text is
    /// refused with a message that names it.
    pub fn parse(value: &str) -> (r: Result<ConcreteResourceLocation, String>)
        ensures
            match r {
                Ok(l) => parse_location(value@) == Some(l@),
                Err(m) => parse_location(value@) is None && m@ == invalid_location_message(
                    value@,
                ),
            },
    {
        if same_text(value, "in-memory") {
            Ok(ConcreteResourceLocation::InMemory)
        } else {
            match strip_prefix(value, "filesystem-relative:") {
                Some(prefix) => Ok(ConcreteResourceLocation::RelativePath(prefix)),
                None => Err(join(value, " is not a valid resource location")),
            }
        }
    }

    /// The text that names this placement.
    pub fn to_text(&self) -> (r: String)
        ensures
            r@ == format_location(self@),
    {
        match self {
            ConcreteResourceLocation::InMemory => String::from_str("in-memory"),
            ConcreteResourceLocation::RelativePath(prefix) => join(
                "filesystem-relative:",
                prefix.as_str(),
            ),
        }
    }

    /// Whether this placement is the memory image.
    pub fn is_in_memory(&self) -> (r: bool)
        ensures
            r == (self@ is InMemory),
    {
        match self {
            ConcreteResourceLocation::InMemory => true,
            ConcreteResourceLocation::RelativePath(_) => false,
        }
    }
}

impl Clone for ConcreteResourceLocation {
    fn clone(&self) -> (r: Self)
        ensures
            r == *self,
    {
        match self {
            ConcreteResourceLocation::InMemory => ConcreteResourceLocation::InMemory,
            ConcreteResourceLocation::RelativePath(prefix) => ConcreteResourceLocation::RelativePath(
                prefix.clone(),
            ),
        }
    }
}

} // verus!
