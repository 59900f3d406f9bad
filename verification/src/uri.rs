//! Reading the query component of a URI with the `url` crate.

use url::Url;
use vstd::prelude::*;

verus! {

/// `url::ParseError`: why a text is no absolute URL.
#[verifier::external_type_specification]
#[verifier::external_body]
pub struct ExUrlParseError(url::ParseError);

/// The query component of the absolute URL that a text spells: the
/// text between the first `?` and the fragment, percent-encoded. The
/// inner `None` stands for a URL without `?`, the outer for a text
/// that spells no absolute URL.
pub uninterp spec fn uri_query(uri: Seq<char>) -> Option<Option<Seq<char>>>;

/// `Url::parse`, then `Url::query`: reads an absolute URL and copies
/// its query component, if it has one.
#[verifier::external_body]
pub(crate) fn query_of_uri(uri: &str) -> (parsed: Result<Option<String>, url::ParseError>)
    ensures
        match parsed {
            Ok(Some(query)) => uri_query(uri@) == Some(Some(query@)),
            Ok(None) => uri_query(uri@) == Some(None::<Seq<char>>),
            Err(_) => uri_query(uri@) is None,
        },
{
    let url = Url::parse(uri)?;
    Ok(url.query().map(str::to_owned))
}

} // verus!
