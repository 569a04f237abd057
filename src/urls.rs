use vstd::prelude::*;

verus! {

#[verifier::external_type_specification]
#[verifier::external_body]
pub struct ExUrl(url::Url);

/// Whether `url::Url::parse` accepts the text.
pub uninterp spec fn url_parses(s: Seq<char>) -> bool;

/// The text of `relative` resolved against the URL `base` by
/// `url::Url::parse` and `url::Url::join`, or `None` where either refuses.
pub uninterp spec fn url_join_of(base: Seq<char>, relative: Seq<char>) -> Option<Seq<char>>;

/// Relies on `url::Url::parse`: it accepts or refuses the text as a whole,
/// and refuses it with a message.
#[verifier::external_body]
pub(crate) fn parse_url(s: &str) -> (r: Result<url::Url, String>)
    ensures
        r is Ok <==> url_parses(s@),
{
    url::Url::parse(s).map_err(|e| e.to_string())
}

/// Relies on `url::Url::parse` and `url::Url::join`: `relative` is resolved
/// against `base`; a base that does not parse gives no URL.
#[verifier::external_body]
pub(crate) fn join_url(base: &str, relative: &str) -> (r: Result<String, String>)
    ensures
        r is Ok <==> url_join_of(base@, relative@) is Some,
        r is Ok ==> r->Ok_0@ == url_join_of(base@, relative@)->0,
        !url_parses(base@) ==> r is Err,
{
    url::Url::parse(base).and_then(|u| u.join(relative)).map(|u| u.to_string()).map_err(|e| e.to_string())
}

} // verus!
