//! Absolute URLs, read through the `url` crate.

use vstd::prelude::*;

verus! {

/// `url::Url`, a parsed absolute URL. Nothing inside it is visible here.
#[verifier::external_type_specification]
#[verifier::external_body]
pub struct ExUrl(url::Url);

/// What a parsed URL holds: its serialization, the text `Url::as_str` gives.
pub uninterp spec fn url_text(u: url::Url) -> Seq<char>;

/// The serialization of the URL that `Url::parse` reads from a text, or `None`
/// where the text is no absolute URL.
pub uninterp spec fn parsed_url(text: Seq<char>) -> Option<Seq<char>>;

/// The host of the URL that `Url::parse` reads from a text, as
/// `Url::host_str` gives it for that URL: `None` where the text is no absolute
/// URL, `Some(None)` where the URL has no host, else the domain or the IP
/// address.
pub uninterp spec fn parsed_host(text: Seq<char>) -> Option<Option<Seq<char>>>;

/// The characters of a host that may be missing.
pub open spec fn host_text(host: Option<String>) -> Option<Seq<char>> {
    match host {
        Some(name) => Some(name@),
        None => None,
    }
}

/// The path of the URL with the given serialization, as `Url::path` gives it.
pub uninterp spec fn path_of(url: Seq<char>) -> Seq<char>;

/// The serialization of the URL that `Url::join` gives for a reference read
/// against the base with the given serialization, or `None` where the
/// reference cannot be read.
pub uninterp spec fn joined(base: Seq<char>, reference: Seq<char>) -> Option<Seq<char>>;

/// `Url::parse`.
#[verifier::external_body]
pub(crate) fn parse_url(text: &str) -> (r: Option<url::Url>)
    ensures
        match r {
            Some(u) => parsed_url(text@) == Some(url_text(u)),
            None => parsed_url(text@) is None,
        },
{
    url::Url::parse(text).ok()
}

/// `Url::parse`, then `Url::host_str` on the URL it gives: the host of the
/// address, for a text that is an absolute URL.
#[verifier::external_body]
pub(crate) fn address_host(text: &str) -> (r: Option<Option<String>>)
    ensures
        match r {
            Some(host) => parsed_host(text@) == Some(host_text(host)),
            None => parsed_host(text@) is None,
        },
{
    url::Url::parse(text).ok().map(|u| u.host_str().map(|h| h.to_owned()))
}

/// `Url::path`.
#[verifier::external_body]
pub(crate) fn url_path(u: &url::Url) -> (r: String)
    ensures
        r@ == path_of(url_text(*u)),
{
    u.path().to_owned()
}

/// `Url::join`.
#[verifier::external_body]
pub(crate) fn url_join(base: &url::Url, reference: &str) -> (r: Option<url::Url>)
    ensures
        match r {
            Some(u) => joined(url_text(*base), reference@) == Some(url_text(u)),
            None => joined(url_text(*base), reference@) is None,
        },
{
    base.join(reference).ok()
}

/// `Url::to_string`: the serialization.
#[verifier::external_body]
pub(crate) fn url_string(u: &url::Url) -> (r: String)
    ensures
        r@ == url_text(*u),
{
    u.to_string()
}

} // verus!
