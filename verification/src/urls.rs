//! URL validation and short-link composition, on top of the `url` crate's
//! absolute-URL parser.
use crate::response::ServiceError;
use vstd::prelude::*;
use vstd::string::StringExecFns;

verus! {

/// What the `url` crate's absolute-URL parse makes of a string: `None` where
/// the string is not a valid absolute URL, otherwise the canonical
/// serialization of the parsed URL. The result depends on the string alone.
pub uninterp spec fn normalized_url(s: Seq<char>) -> Option<Seq<char>>;

/// What resolving `rel` against the absolute URL `base` yields: `None` where
/// `base` is not a valid absolute URL or the join fails, otherwise the
/// canonical serialization of the joined URL. The result depends on the pair
/// alone.
pub uninterp spec fn joined_url(base: Seq<char>, rel: Seq<char>) -> Option<Seq<char>>;

/// Relies on url::Url::parse, which parses an absolute URL or fails, and on
/// the crate's `From<Url> for String`, which hands out the parsed URL's
/// canonical serialization.
#[verifier::external_body]
fn parse_absolute(s: &str) -> (r: Option<String>)
    ensures
        r is Some <==> normalized_url(s@) is Some,
        r matches Some(u) ==> normalized_url(s@) == Some(u@),
{
    match url::Url::parse(s) {
        Ok(u) => Some(String::from(u)),
        Err(_) => None,
    }
}

/// Relies on url::Url::parse and url::Url::join: `rel` is resolved against
/// the parsed `base`, and the joined URL's canonical serialization comes back
/// through the crate's `From<Url> for String`.
#[verifier::external_body]
fn join_absolute(base: &str, rel: &str) -> (r: Option<String>)
    ensures
        r is Some <==> joined_url(base@, rel@) is Some,
        r matches Some(u) ==> joined_url(base@, rel@) == Some(u@),
{
    match url::Url::parse(base) {
        Ok(b) => match b.join(rel) {
            Ok(u) => Some(String::from(u)),
            Err(_) => None,
        },
        Err(_) => None,
    }
}

/// Validate a submitted string as an absolute URL. On success the canonical
/// form is returned, and only that form is ever persisted; a string the
/// parser refuses is rejected as the client's error and never stored.
pub fn validate_url(input: &str) -> (r: Result<String, ServiceError>)
    ensures
        r is Ok <==> normalized_url(input@) is Some,
        r matches Ok(u) ==> normalized_url(input@) == Some(u@),
        r matches Err(e) ==> e == ServiceError::Validation,
{
    match parse_absolute(input) {
        Some(u) => Ok(u),
        None => Err(ServiceError::Validation),
    }
}

/// Compose the full short URL for a fresh id by joining it onto the
/// configured base URL. A failure here stems from the service's own
/// configuration, never from the client's input.
pub fn compose_short_url(base: &str, id: &str) -> (r: Result<String, ServiceError>)
    ensures
        r is Ok <==> joined_url(base@, id@) is Some,
        r matches Ok(u) ==> joined_url(base@, id@) == Some(u@),
        r matches Err(e) ==> e == ServiceError::Configuration,
{
    match join_absolute(base, id) {
        Some(u) => Ok(u),
        None => Err(ServiceError::Configuration),
    }
}

/// The HTML anchor a successful store request answers with: the short URL as
/// both the link target and the link text.
pub open spec fn anchor_of(href: Seq<char>) -> Seq<char> {
    "<a href=\""@ + href + "\">"@ + href + "</a>"@
}

/// Render the anchor for a short URL.
pub fn anchor_html(href: &str) -> (r: String)
    ensures
        r@ == anchor_of(href@),
{
    let mut out = String::new();
    out.append("<a href=\"");
    out.append(href);
    out.append("\">");
    out.append(href);
    out.append("</a>");
    proof {
        assert(out@ =~= anchor_of(href@));
    }
    out
}

} // verus!
