//! Bridging the two ways a custom protocol can be addressed.
//!
//! Some transports cannot route a request to `{protocol}://{rest}`. There the request is
//! delivered as `{http|https}://{protocol}.{rest}` instead, and has to be turned back before a
//! protocol handler sees it. Which of the two conventions is in force is chosen once, when the
//! runtime is set up, and held in a [`UriConvention`].

use vstd::prelude::*;
use vstd::string::*;
use crate::text::{chars_of, chars_start_with, lemma_prefix_then_rest, starts_with, strip_prefix};

verus! {

/// How requests for a custom protocol are addressed by the transport.
#[derive(Clone, Copy, Debug, PartialEq, Eq, Structural)]
pub enum UriConvention {
    /// The protocol name is the URI's scheme: `{protocol}://{rest}`.
    DirectScheme,
    /// The protocol name is the first label of the host: `{http|https}://{protocol}.{rest}`.
    HttpWorkAround,
}

/// The text handed to [`revert_custom_protocol_work_around`] does not read as a URI once the
/// protocol has been put back in front.
#[derive(Clone, Copy, Debug, PartialEq, Eq, Structural)]
pub struct MalformedUri;

/// The scheme that the work-around borrows: `https` where the webview asked for it, else `http`.
pub open spec fn spec_http_or_https(use_https_scheme: bool) -> Seq<char> {
    if use_https_scheme {
        "https"@
    } else {
        "http"@
    }
}

/// `{http_or_https}://{protocol}.`: what a worked-around URI begins with.
pub open spec fn spec_work_around_uri_prefix(
    http_or_https: Seq<char>,
    protocol: Seq<char>,
) -> Seq<char> {
    http_or_https + "://"@ + protocol + "."@
}

/// `{http_or_https}://{protocol}.{rest}`: the worked-around form of `{protocol}://{rest}`.
pub open spec fn spec_work_around_uri(
    http_or_https: Seq<char>,
    protocol: Seq<char>,
    rest: Seq<char>,
) -> Seq<char> {
    spec_work_around_uri_prefix(http_or_https, protocol) + rest
}

/// `{protocol}://{rest}`.
pub open spec fn spec_custom_protocol_uri(protocol: Seq<char>, rest: Seq<char>) -> Seq<char> {
    protocol + "://"@ + rest
}

/// Whether `uri` is the worked-around form of some URI of `protocol`.
pub open spec fn spec_is_work_around_uri(
    uri: Seq<char>,
    http_or_https: Seq<char>,
    protocol: Seq<char>,
) -> bool {
    spec_work_around_uri_prefix(http_or_https, protocol).is_prefix_of(uri)
}

/// `uri` with the work-around undone: `{protocol}://{rest}` where `uri` is
/// `{http_or_https}://{protocol}.{rest}`, and `uri` itself where it is not of that form.
pub open spec fn spec_reverted_uri(
    uri: Seq<char>,
    http_or_https: Seq<char>,
    protocol: Seq<char>,
) -> Seq<char> {
    if spec_is_work_around_uri(uri, http_or_https, protocol) {
        spec_custom_protocol_uri(
            protocol,
            uri.skip(spec_work_around_uri_prefix(http_or_https, protocol).len() as int),
        )
    } else {
        uri
    }
}

/// The origin that the host framework expects a request to carry.
pub open spec fn spec_synthesized_origin(
    convention: UriConvention,
    use_https_scheme: bool,
) -> Seq<char> {
    match convention {
        UriConvention::HttpWorkAround => spec_http_or_https(use_https_scheme)
            + "://tauri.localhost"@,
        UriConvention::DirectScheme => "tauri://localhost"@,
    }
}

/// Whether a request denotes `protocol` under `convention`. `uri` is the request's URI as
/// text and `scheme` the scheme that the transport read from it.
pub open spec fn spec_is_custom_protocol_uri(
    convention: UriConvention,
    use_https_scheme: bool,
    uri: Seq<char>,
    scheme: Option<Seq<char>>,
    protocol: Seq<char>,
) -> bool {
    match convention {
        UriConvention::HttpWorkAround => spec_is_work_around_uri(
            uri,
            spec_http_or_https(use_https_scheme),
            protocol,
        ),
        UriConvention::DirectScheme => scheme == Some(protocol),
    }
}

/// Whether the `http` crate's URI parser accepts `text`.
pub uninterp spec fn uri_parses(text: Seq<char>) -> bool;

#[verifier::external_type_specification]
#[verifier::external_body]
pub struct ExUri(http::Uri);

#[verifier::external_type_specification]
#[verifier::external_body]
pub struct ExInvalidUri(http::uri::InvalidUri);

/// Calls `http::Uri`'s `FromStr::from_str`. The parser reads nothing but `text`, so whether it
/// accepts is a fixed property of `text`, which the contract names [`uri_parses`]. Nothing is
/// claimed about the parsed value.
#[verifier::external_body]
fn parse_uri(text: &str) -> (r: Result<http::Uri, http::uri::InvalidUri>)
    ensures
        r is Ok <==> uri_parses(text@),
{
    <http::Uri as std::str::FromStr>::from_str(text)
}

/// The scheme that the work-around borrows.
pub fn http_or_https(use_https_scheme: bool) -> (r: &'static str)
    ensures
        r@ == spec_http_or_https(use_https_scheme),
{
    if use_https_scheme {
        "https"
    } else {
        "http"
    }
}

/// `{http_or_https}://{protocol}.`
pub fn work_around_uri_prefix(http_or_https: &str, protocol: &str) -> (r: String)
    ensures
        r@ == spec_work_around_uri_prefix(http_or_https@, protocol@),
{
    let mut prefix = String::from_str(http_or_https);
    prefix.append("://");
    prefix.append(protocol);
    prefix.append(".");
    prefix
}

/// Tests whether `uri` starts with `{http_or_https}://{protocol}.`
pub fn is_work_around_uri(uri: &str, http_or_https: &str, protocol: &str) -> (r: bool)
    ensures
        r == spec_is_work_around_uri(uri@, http_or_https@, protocol@),
{
    let prefix = work_around_uri_prefix(http_or_https, protocol);
    starts_with(uri, prefix.as_str())
}

/// The text of `uri` with the work-around undone. Only the leading
/// `{http_or_https}://{protocol}.` is rewritten: a later occurrence of it, in a query say, is
/// part of `{rest}` and stays as it is.
pub fn reverted_uri(uri: &str, http_or_https: &str, protocol: &str) -> (r: String)
    ensures
        r@ == spec_reverted_uri(uri@, http_or_https@, protocol@),
{
    let prefix = work_around_uri_prefix(http_or_https, protocol);
    match strip_prefix(uri, prefix.as_str()) {
        Some(rest) => {
            let mut reverted = String::from_str(protocol);
            reverted.append("://");
            reverted.append(rest);
            reverted
        },
        None => String::from_str(uri),
    }
}

/// Undoes the work-around on `uri` and checks that what comes out is a URI.
pub fn revert_custom_protocol_work_around(uri: &str, http_or_https: &str, protocol: &str) -> (r:
    Result<String, MalformedUri>)
    ensures
        r is Ok <==> uri_parses(spec_reverted_uri(uri@, http_or_https@, protocol@)),
        r matches Ok(text) ==> text@ == spec_reverted_uri(uri@, http_or_https@, protocol@),
{
    let text = reverted_uri(uri, http_or_https, protocol);
    match parse_uri(text.as_str()) {
        Ok(_) => Ok(text),
        Err(_) => Err(MalformedUri),
    }
}

/// The origin to give a request that arrived without one.
pub fn synthesized_origin(convention: UriConvention, use_https_scheme: bool) -> (r: String)
    ensures
        r@ == spec_synthesized_origin(convention, use_https_scheme),
{
    match convention {
        UriConvention::HttpWorkAround => {
            let mut origin = String::from_str(http_or_https(use_https_scheme));
            origin.append("://tauri.localhost");
            origin
        },
        UriConvention::DirectScheme => String::from_str("tauri://localhost"),
    }
}

/// Whether a request with this URI and scheme denotes `protocol`.
pub fn is_custom_protocol_uri(
    convention: UriConvention,
    use_https_scheme: bool,
    uri: &str,
    scheme: Option<&str>,
    protocol: &str,
) -> (r: bool)
    ensures
        r == spec_is_custom_protocol_uri(
            convention,
            use_https_scheme,
            uri@,
            match scheme {
                Some(s) => Some(s@),
                None => None,
            },
            protocol@,
        ),
{
    match convention {
        UriConvention::HttpWorkAround => is_work_around_uri(
            uri,
            http_or_https(use_https_scheme),
            protocol,
        ),
        UriConvention::DirectScheme => match scheme {
            Some(s) => same_text(s, protocol),
            None => false,
        },
    }
}

/// Whether two string slices hold the same characters.
pub fn same_text(a: &str, b: &str) -> (r: bool)
    ensures
        r == (a@ == b@),
{
    let a_chars = chars_of(a);
    let b_chars = chars_of(b);
    if a_chars.len() != b_chars.len() {
        return false;
    }
    let same = chars_start_with(&a_chars, &b_chars);
    proof {
        if same {
            assert(a@ =~= b@);
        }
    }
    same
}

/// Every worked-around URI is recognised as one, for whatever scheme, protocol and rest, and
/// undoing the work-around gives `{protocol}://{rest}` back.
pub proof fn lemma_work_around_round_trip(
    http_or_https: Seq<char>,
    protocol: Seq<char>,
    rest: Seq<char>,
)
    ensures
        spec_is_work_around_uri(
            spec_work_around_uri(http_or_https, protocol, rest),
            http_or_https,
            protocol,
        ),
        spec_reverted_uri(
            spec_work_around_uri(http_or_https, protocol, rest),
            http_or_https,
            protocol,
        ) == spec_custom_protocol_uri(protocol, rest),
{
    lemma_prefix_then_rest(spec_work_around_uri_prefix(http_or_https, protocol), rest);
}

/// A URI is recognised as worked around for `protocol` only if it reads
/// `{http_or_https}://{protocol}.{rest}` for some `rest`; anything else is left alone.
pub proof fn lemma_only_work_around_uris_are_recognised(
    uri: Seq<char>,
    http_or_https: Seq<char>,
    protocol: Seq<char>,
)
    ensures
        spec_is_work_around_uri(uri, http_or_https, protocol) <==> exists|rest: Seq<char>|
            uri == #[trigger] spec_work_around_uri(http_or_https, protocol, rest),
        !spec_is_work_around_uri(uri, http_or_https, protocol) ==> spec_reverted_uri(
            uri,
            http_or_https,
            protocol,
        ) == uri,
{
    let prefix = spec_work_around_uri_prefix(http_or_https, protocol);
    if spec_is_work_around_uri(uri, http_or_https, protocol) {
        let rest = uri.skip(prefix.len() as int);
        assert(uri =~= spec_work_around_uri(http_or_https, protocol, rest));
    }
    assert forall|rest: Seq<char>|
        uri == #[trigger] spec_work_around_uri(
            http_or_https,
            protocol,
            rest,
        ) implies spec_is_work_around_uri(uri, http_or_https, protocol) by {
        lemma_prefix_then_rest(prefix, rest);
    }
}

} // verus!
