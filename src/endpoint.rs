//! Endpoint text: parsing a base endpoint and resolving operation paths
//! against it, both done by reqwest's `Url`.

use vstd::prelude::*;

verus! {

/// The serialization that a text parses to as an absolute URL, if it parses.
pub uninterp spec fn parsed_url(text: Seq<char>) -> Option<Seq<char>>;

/// The serialization of the URL that `reference` resolves to against the URL
/// that `base` parses to, if both steps succeed.
pub uninterp spec fn joined_url(base: Seq<char>, reference: Seq<char>) -> Option<Seq<char>>;

/// A character that URL resolution copies into a path as it stands.
pub open spec fn is_plain_path_char(c: char) -> bool {
    ||| ('a' <= c && c <= 'z')
    ||| ('A' <= c && c <= 'Z')
    ||| ('0' <= c && c <= '9')
    ||| c == '-'
    ||| c == '_'
    ||| c == '~'
    ||| c == '.'
    ||| c == '/'
}

/// A relative operation path: plain characters only, not rooted at `/`,
/// and no segment starting with `.`, so none is a `.` or `..` segment.
pub open spec fn is_relative_path(path: Seq<char>) -> bool {
    &&& forall|i: int| 0 <= i < path.len() ==> is_plain_path_char(#[trigger] path[i])
    &&& (path.len() > 0 ==> path[0] != '/')
    &&& forall|i: int| 0 <= i < path.len() && #[trigger] path[i] == '.' ==> i > 0 && path[i - 1] != '/'
}

/// A base endpoint in normal form: an `http` or `https` URL that is its own
/// serialization, whose path ends with `/`, without query or fragment.
pub open spec fn is_base_endpoint(base: Seq<char>) -> bool {
    &&& parsed_url(base) == Some(base)
    &&& (base.take(7) == "http://"@ || base.take(8) == "https://"@)
    &&& base.len() > 0
    &&& base.last() == '/'
    &&& forall|i: int| 0 <= i < base.len() ==> #[trigger] base[i] != '?' && base[i] != '#'
}

/// Relies on `reqwest::Url::parse` (the url crate): whether a text parses as
/// an absolute URL, and to which serialization, depends on the text alone.
#[verifier::external_body]
pub(crate) fn parse_url(text: &str) -> (r: Option<String>)
    ensures
        r is Some <==> parsed_url(text@) is Some,
        r is Some ==> r->0@ == parsed_url(text@)->0,
{
    reqwest::Url::parse(text).ok().map(String::from)
}

/// Relies on `reqwest::Url::parse` and `Url::join` (the url crate): the
/// resolved URL depends on the two texts alone. Against a base endpoint in
/// normal form, a relative reference of plain characters without dot
/// segments takes the place of the empty last segment of the path and
/// nothing else changes; `Url::join`'s documentation: "a trailing slash is
/// significant".
#[verifier::external_body]
pub(crate) fn join_url(base: &str, reference: &str) -> (r: Option<String>)
    ensures
        r is Some <==> joined_url(base@, reference@) is Some,
        r is Some ==> r->0@ == joined_url(base@, reference@)->0,
        is_base_endpoint(base@) && is_relative_path(reference@) ==> r is Some && r->0@ == base@
            + reference@,
{
    reqwest::Url::parse(base).and_then(|b| b.join(reference)).ok().map(String::from)
}

} // verus!
