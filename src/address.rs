//! Service addresses: the scheme of a broker or backend URL.

use crate::backend::opt_view;
use vstd::prelude::*;

verus! {

/// The scheme of `s` read as a URL, or `None` when `s` is not a valid URL.
pub uninterp spec fn url_scheme_of(s: Seq<char>) -> Option<Seq<char>>;

/// Relies on `url::Url::parse` and `Url::scheme`: parses `s` as a URL and returns its
/// scheme, or `None` when parsing fails.
#[verifier::external_body]
pub(crate) fn url_scheme(s: &str) -> (r: Option<String>)
    ensures
        opt_view(r) == url_scheme_of(s@),
{
    match url::Url::parse(s) {
        Ok(u) => Some(u.scheme().to_string()),
        Err(_) => None,
    }
}

} // verus!
