//! Resource requests as the runtime sees them, and what it does to one before a custom
//! protocol handler runs.

use vstd::prelude::*;
use vstd::string::*;
use vstd::utf8::{encode_utf8, valid_utf8};
use crate::text::{chars_of, optional_text};
use crate::uri::{
    http_or_https, is_custom_protocol_uri, revert_custom_protocol_work_around, same_text,
    spec_http_or_https, spec_is_custom_protocol_uri, spec_reverted_uri, spec_synthesized_origin,
    synthesized_origin, uri_parses, MalformedUri, UriConvention,
};

verus! {

/// One header line. Names are compared without regard to ASCII case.
#[derive(Clone, Debug, PartialEq, Eq)]
pub struct Header {
    pub name: String,
    pub value: Vec<u8>,
}

/// What a [`Header`] holds.
pub struct HeaderView {
    pub name: Seq<char>,
    pub value: Seq<u8>,
}

impl View for Header {
    type V = HeaderView;

    open spec fn view(&self) -> HeaderView {
        HeaderView { name: self.name@, value: self.value@ }
    }
}

/// A request for a resource, with the parts that the runtime reads or rewrites.
#[derive(Clone, Debug, PartialEq, Eq)]
pub struct ResourceRequest {
    /// The request's URI, as text.
    pub uri: String,
    /// The scheme that the transport read from the URI, if it has one.
    pub scheme: Option<String>,
    pub headers: Vec<Header>,
    pub body: Vec<u8>,
}

/// What a [`ResourceRequest`] holds.
pub struct ResourceRequestView {
    pub uri: Seq<char>,
    pub scheme: Option<Seq<char>>,
    pub headers: Seq<HeaderView>,
    pub body: Seq<u8>,
}

/// The views of a run of headers, in order.
pub open spec fn header_views(headers: Seq<Header>) -> Seq<HeaderView> {
    headers.map_values(|h: Header| h@)
}

impl View for ResourceRequest {
    type V = ResourceRequestView;

    open spec fn view(&self) -> ResourceRequestView {
        ResourceRequestView {
            uri: self.uri@,
            scheme: optional_text(self.scheme),
            headers: header_views(self.headers@),
            body: self.body@,
        }
    }
}

/// The name of the header that tells where a request comes from.
pub open spec fn spec_origin_header() -> Seq<char> {
    "origin"@
}

/// The name of the header that carries an invoke payload in place of a body.
pub open spec fn spec_invoke_body_header() -> Seq<char> {
    "tauri-versoruntime-invoke-body"@
}

/// The protocol whose requests carry an invoke payload.
pub open spec fn spec_ipc_protocol() -> Seq<char> {
    "ipc"@
}

/// A character's code point, with the upper-case ASCII letters taken to their lower case.
pub open spec fn spec_ascii_lower(c: char) -> u32 {
    let code = c as u32;
    if 0x41 <= code <= 0x5a {
        (code + 0x20) as u32
    } else {
        code
    }
}

/// Whether two header names are the same name, that is, equal but for ASCII case.
pub open spec fn spec_same_header_name(a: Seq<char>, b: Seq<char>) -> bool {
    &&& a.len() == b.len()
    &&& forall|i: int| 0 <= i < a.len() ==> spec_ascii_lower(a[i]) == spec_ascii_lower(b[i])
}

/// Whether some header is called `name`.
pub open spec fn spec_has_header(headers: Seq<HeaderView>, name: Seq<char>) -> bool {
    exists|i: int| 0 <= i < headers.len() && spec_same_header_name(#[trigger] headers[i].name, name)
}

/// The value of the first header called `name`.
pub open spec fn spec_first_header(headers: Seq<HeaderView>, name: Seq<char>) -> Option<Seq<u8>>
    decreases headers.len(),
{
    if headers.len() == 0 {
        None
    } else {
        match spec_first_header(headers.drop_last(), name) {
            Some(value) => Some(value),
            None => if spec_same_header_name(headers.last().name, name) {
                Some(headers.last().value)
            } else {
                None
            },
        }
    }
}

/// The headers that are not called `name`, in order.
pub open spec fn spec_without_header(headers: Seq<HeaderView>, name: Seq<char>) -> Seq<HeaderView>
    decreases headers.len(),
{
    if headers.len() == 0 {
        Seq::empty()
    } else if spec_same_header_name(headers.last().name, name) {
        spec_without_header(headers.drop_last(), name)
    } else {
        spec_without_header(headers.drop_last(), name).push(headers.last())
    }
}

/// The value of an ASCII hexadecimal digit.
pub open spec fn spec_hex_digit(byte: u8) -> Option<u8> {
    if 0x30 <= byte <= 0x39 {
        Some((byte - 0x30) as u8)
    } else if 0x41 <= byte <= 0x46 {
        Some((byte - 0x41 + 10) as u8)
    } else if 0x61 <= byte <= 0x66 {
        Some((byte - 0x61 + 10) as u8)
    } else {
        None
    }
}

/// Whether `bytes` begins with a percent sign and two hexadecimal digits.
pub open spec fn spec_starts_with_escape(bytes: Seq<u8>) -> bool {
    &&& bytes.len() >= 3
    &&& bytes[0] == 0x25
    &&& spec_hex_digit(bytes[1]) is Some
    &&& spec_hex_digit(bytes[2]) is Some
}

/// `bytes` with every percent sign that two hexadecimal digits follow replaced, together with
/// the digits, by the byte that the digits spell. Any other byte stands for itself.
pub open spec fn spec_percent_decoded(bytes: Seq<u8>) -> Seq<u8>
    decreases bytes.len(),
{
    if bytes.len() == 0 {
        Seq::empty()
    } else if spec_starts_with_escape(bytes) {
        seq![(spec_hex_digit(bytes[1])->0 * 16 + spec_hex_digit(bytes[2])->0) as u8]
            + spec_percent_decoded(bytes.skip(3))
    } else {
        seq![bytes[0]] + spec_percent_decoded(bytes.skip(1))
    }
}

/// Whether every percent sign in `bytes` begins an escape: two hexadecimal digits follow it.
pub open spec fn spec_escapes_are_well_formed(bytes: Seq<u8>) -> bool {
    forall|i: int|
        0 <= i < bytes.len() && #[trigger] bytes[i] == 0x25 ==> {
            &&& i + 2 < bytes.len()
            &&& spec_hex_digit(bytes[i + 1]) is Some
            &&& spec_hex_digit(bytes[i + 2]) is Some
        }
}

/// The body that an invoke-payload header stands for: its percent-decoding, provided that the
/// header is a valid percent-encoding of UTF-8. It is not where a percent sign stands without
/// two hexadecimal digits after it, nor where what the escapes spell is not well-formed UTF-8.
pub open spec fn spec_decoded_invoke_body(header: Seq<u8>) -> Option<Seq<u8>> {
    if spec_escapes_are_well_formed(header) && valid_utf8(spec_percent_decoded(header)) {
        Some(spec_percent_decoded(header))
    } else {
        None
    }
}

/// `request` with an origin, which is added only where there was none.
pub open spec fn spec_with_origin(
    request: ResourceRequestView,
    convention: UriConvention,
    use_https_scheme: bool,
) -> ResourceRequestView {
    if spec_has_header(request.headers, spec_origin_header()) {
        request
    } else {
        ResourceRequestView {
            headers: request.headers.push(
                HeaderView {
                    name: spec_origin_header(),
                    value: encode_utf8(spec_synthesized_origin(convention, use_https_scheme)),
                },
            ),
            ..request
        }
    }
}

/// `request` with its invoke payload moved from the header into the body. The header goes in
/// any case; the body changes only if the header was there and could be decoded.
pub open spec fn spec_with_invoke_body(request: ResourceRequestView) -> ResourceRequestView {
    let kept = spec_without_header(request.headers, spec_invoke_body_header());
    match spec_first_header(request.headers, spec_invoke_body_header()) {
        Some(value) => match spec_decoded_invoke_body(value) {
            Some(body) => ResourceRequestView { headers: kept, body, ..request },
            None => ResourceRequestView { headers: kept, ..request },
        },
        None => ResourceRequestView { headers: kept, ..request },
    }
}

/// A character's code point, with the upper-case ASCII letters taken to their lower case.
fn ascii_lower(c: char) -> (r: u32)
    ensures
        r == spec_ascii_lower(c),
{
    let code = c as u32;
    if 0x41 <= code && code <= 0x5a {
        code + 0x20
    } else {
        code
    }
}

/// Whether two header names are the same name.
pub fn same_header_name(a: &str, b: &str) -> (r: bool)
    ensures
        r == spec_same_header_name(a@, b@),
{
    let a_chars = chars_of(a);
    let b_chars = chars_of(b);
    if a_chars.len() != b_chars.len() {
        return false;
    }
    let mut i: usize = 0;
    while i < a_chars.len()
        invariant
            i <= a_chars.len(),
            a_chars.len() == b_chars.len(),
            a_chars@ == a@,
            b_chars@ == b@,
            forall|k: int| 0 <= k < i ==> spec_ascii_lower(a@[k]) == spec_ascii_lower(b@[k]),
        decreases a_chars.len() - i,
    {
        if ascii_lower(a_chars[i]) != ascii_lower(b_chars[i]) {
            return false;
        }
        i += 1;
    }
    true
}

/// Whether some header is called `name`.
pub fn has_header(headers: &Vec<Header>, name: &str) -> (r: bool)
    ensures
        r == spec_has_header(header_views(headers@), name@),
{
    let mut i: usize = 0;
    while i < headers.len()
        invariant
            i <= headers.len(),
            forall|k: int|
                0 <= k < i ==> !spec_same_header_name(
                    #[trigger] header_views(headers@)[k].name,
                    name@,
                ),
        decreases headers.len() - i,
    {
        if same_header_name(headers[i].name.as_str(), name) {
            assert(header_views(headers@)[i as int].name == headers@[i as int].name@);
            return true;
        }
        i += 1;
    }
    false
}

/// Takes every header called `name` out of `headers` and returns the value of the first.
pub fn take_header(headers: &mut Vec<Header>, name: &str) -> (r: Option<Vec<u8>>)
    ensures
        header_views(final(headers)@) == spec_without_header(header_views(old(headers)@), name@),
        match r {
            Some(value) => spec_first_header(header_views(old(headers)@), name@) == Some(value@),
            None => spec_first_header(header_views(old(headers)@), name@) is None,
        },
{
    let mut all: Vec<Header> = Vec::new();
    std::mem::swap(headers, &mut all);
    let ghost before = header_views(all@);
    let mut first: Option<Vec<u8>> = None;
    for header in it: all
        invariant
            before == header_views(it.seq()),
            header_views(headers@) == spec_without_header(before.take(it.index() as int), name@),
            match first {
                Some(value) => spec_first_header(before.take(it.index() as int), name@) == Some(
                    value@,
                ),
                None => spec_first_header(before.take(it.index() as int), name@) is None,
            },
    {
        proof {
            let n = it.index() as int;
            assert(before.take(n + 1).drop_last() =~= before.take(n));
        }
        if same_header_name(header.name.as_str(), name) {
            if first.is_none() {
                first = Some(header.value);
            }
        } else {
            proof {
                assert(header_views(headers@.push(header)) =~= header_views(headers@).push(
                    header@,
                ));
            }
            headers.push(header);
        }
    }
    proof {
        assert(before.take(before.len() as int) =~= before);
    }
    first
}

/// Calls `percent_encoding::percent_decode` on `header` and `decode_utf8` on what it returns.
/// The first replaces each percent sign that two hexadecimal digits follow, and the digits, by
/// the byte they spell; the second accepts the bytes that come out if and only if they are
/// well-formed UTF-8, and then hands them on unchanged.
#[verifier::external_body]
fn percent_decode_utf8(header: &[u8]) -> (r: Option<Vec<u8>>)
    ensures
        r is Some <==> valid_utf8(spec_percent_decoded(header@)),
        r matches Some(bytes) ==> bytes@ == spec_percent_decoded(header@),
{
    match percent_encoding::percent_decode(header).decode_utf8() {
        Ok(text) => Some(text.as_bytes().to_vec()),
        Err(_) => None,
    }
}

/// Whether `byte` is an ASCII hexadecimal digit.
fn is_hex_digit(byte: u8) -> (r: bool)
    ensures
        r == spec_hex_digit(byte) is Some,
{
    (0x30 <= byte && byte <= 0x39) || (0x41 <= byte && byte <= 0x46) || (0x61 <= byte && byte
        <= 0x66)
}

/// Whether every percent sign in `bytes` begins an escape.
pub fn escapes_are_well_formed(bytes: &[u8]) -> (r: bool)
    ensures
        r == spec_escapes_are_well_formed(bytes@),
{
    let mut i: usize = 0;
    while i < bytes.len()
        invariant
            i <= bytes.len(),
            forall|k: int|
                0 <= k < i && #[trigger] bytes@[k] == 0x25 ==> {
                    &&& k + 2 < bytes@.len()
                    &&& spec_hex_digit(bytes@[k + 1]) is Some
                    &&& spec_hex_digit(bytes@[k + 2]) is Some
                },
        decreases bytes.len() - i,
    {
        if bytes[i] == 0x25 {
            if bytes.len() - i < 3 || !is_hex_digit(bytes[i + 1]) || !is_hex_digit(bytes[i + 2]) {
                return false;
            }
        }
        i += 1;
    }
    true
}

/// The body that an invoke-payload header stands for, or `None` where the header is not a
/// valid percent-encoding of UTF-8.
pub fn decode_invoke_body(header: &[u8]) -> (r: Option<Vec<u8>>)
    ensures
        match r {
            Some(body) => spec_decoded_invoke_body(header@) == Some(body@),
            None => spec_decoded_invoke_body(header@) is None,
        },
{
    if !escapes_are_well_formed(header) {
        return None;
    }
    percent_decode_utf8(header)
}

/// Gives `request` an origin if it has none.
pub fn ensure_origin(
    request: &mut ResourceRequest,
    convention: UriConvention,
    use_https_scheme: bool,
)
    ensures
        final(request)@ == spec_with_origin(old(request)@, convention, use_https_scheme),
{
    if !has_header(&request.headers, "origin") {
        let origin = synthesized_origin(convention, use_https_scheme);
        let header = Header {
            name: String::from_str("origin"),
            value: origin.as_str().as_bytes_vec(),
        };
        proof {
            assert(header_views(request.headers@.push(header)) =~= header_views(
                request.headers@,
            ).push(header@));
        }
        request.headers.push(header);
    }
}

/// Moves the invoke payload of `request` from its header into the body.
pub fn move_invoke_body(request: &mut ResourceRequest)
    ensures
        final(request)@ == spec_with_invoke_body(old(request)@),
{
    match take_header(&mut request.headers, "tauri-versoruntime-invoke-body") {
        Some(value) => match decode_invoke_body(value.as_slice()) {
            Some(body) => {
                request.body = body;
            },
            None => {},
        },
        None => {},
    }
}

/// The names of a run of protocols, in order.
pub open spec fn protocol_names(protocols: Seq<String>) -> Seq<Seq<char>> {
    protocols.map_values(|p: String| p@)
}

/// Whether `request` denotes `protocol`.
pub open spec fn spec_denotes(
    request: ResourceRequestView,
    convention: UriConvention,
    use_https_scheme: bool,
    protocol: Seq<char>,
) -> bool {
    spec_is_custom_protocol_uri(
        convention,
        use_https_scheme,
        request.uri,
        request.scheme,
        protocol,
    )
}

/// Whether `matched` is the place of the first of `protocols` that `request` denotes, or
/// `None` where it denotes none of them.
pub open spec fn spec_is_first_match(
    request: ResourceRequestView,
    protocols: Seq<Seq<char>>,
    convention: UriConvention,
    use_https_scheme: bool,
    matched: Option<int>,
) -> bool {
    match matched {
        Some(i) => {
            &&& 0 <= i < protocols.len()
            &&& spec_denotes(request, convention, use_https_scheme, protocols[i])
            &&& forall|j: int|
                0 <= j < i ==> !spec_denotes(
                    request,
                    convention,
                    use_https_scheme,
                    #[trigger] protocols[j],
                )
        },
        None => forall|j: int|
            0 <= j < protocols.len() ==> !spec_denotes(
                request,
                convention,
                use_https_scheme,
                #[trigger] protocols[j],
            ),
    }
}

/// `request` with the URI that `reverted` holds, which then has `protocol` for its scheme;
/// `request` as it is where `reverted` holds none.
pub open spec fn spec_with_uri(
    request: ResourceRequestView,
    protocol: Seq<char>,
    reverted: Option<Seq<char>>,
) -> ResourceRequestView {
    match reverted {
        Some(uri) => ResourceRequestView { uri, scheme: Some(protocol), ..request },
        None => request,
    }
}

/// `request`, which denotes `protocol`, as the protocol's handler is to see it: under the
/// work-around with the URI turned back, unless what comes out is no URI.
pub open spec fn spec_with_reverted_uri(
    request: ResourceRequestView,
    convention: UriConvention,
    use_https_scheme: bool,
    protocol: Seq<char>,
) -> ResourceRequestView {
    match convention {
        UriConvention::DirectScheme => request,
        UriConvention::HttpWorkAround => {
            let text = spec_reverted_uri(
                request.uri,
                spec_http_or_https(use_https_scheme),
                protocol,
            );
            spec_with_uri(
                request,
                protocol,
                if uri_parses(text) {
                    Some(text)
                } else {
                    None
                },
            )
        },
    }
}

/// `request` after interception, where `matched` is the place of the protocol it denotes.
///
/// The protocols are consulted in order up to the match. The invoke payload is moved when
/// `ipc` is among those consulted.
pub open spec fn spec_intercepted(
    request: ResourceRequestView,
    protocols: Seq<Seq<char>>,
    convention: UriConvention,
    use_https_scheme: bool,
    matched: Option<int>,
) -> ResourceRequestView {
    let consulted = match matched {
        Some(i) => protocols.take(i + 1),
        None => protocols,
    };
    let with_origin = spec_with_origin(request, convention, use_https_scheme);
    let with_body = if consulted.contains(spec_ipc_protocol()) {
        spec_with_invoke_body(with_origin)
    } else {
        with_origin
    };
    match matched {
        Some(i) => spec_with_reverted_uri(with_body, convention, use_https_scheme, protocols[i]),
        None => with_body,
    }
}

/// A sequence with one more element holds `wanted` if the sequence did or the element is it.
proof fn lemma_contains_after_push(s: Seq<Seq<char>>, last: Seq<char>, wanted: Seq<char>)
    ensures
        s.push(last).contains(wanted) <==> s.contains(wanted) || last == wanted,
{
    let longer = s.push(last);
    if s.contains(wanted) {
        let k = choose|k: int| 0 <= k < s.len() && #[trigger] s[k] == wanted;
        assert(longer[k] == wanted);
    }
    if last == wanted {
        assert(longer[s.len() as int] == wanted);
    }
}

/// Puts the URI that `reverted` holds into `request`; leaves `request` alone where the
/// work-around could not be undone.
pub fn apply_reverted_uri(
    request: &mut ResourceRequest,
    protocol: &str,
    reverted: Result<String, MalformedUri>,
)
    ensures
        final(request)@ == spec_with_uri(
            old(request)@,
            protocol@,
            match reverted {
                Ok(uri) => Some(uri@),
                Err(_) => None,
            },
        ),
{
    match reverted {
        Ok(uri) => {
            request.uri = uri;
            request.scheme = Some(String::from_str(protocol));
        },
        Err(_) => {},
    }
}

/// Prepares `request`, which denotes `protocol`, for the protocol's handler.
pub fn revert_request_uri(
    request: &mut ResourceRequest,
    convention: UriConvention,
    use_https_scheme: bool,
    protocol: &str,
)
    ensures
        final(request)@ == spec_with_reverted_uri(
            old(request)@,
            convention,
            use_https_scheme,
            protocol@,
        ),
{
    match convention {
        UriConvention::DirectScheme => {},
        UriConvention::HttpWorkAround => {
            let reverted = revert_custom_protocol_work_around(
                request.uri.as_str(),
                http_or_https(use_https_scheme),
                protocol,
            );
            apply_reverted_uri(request, protocol, reverted);
        },
    }
}

/// Intercepts a resource request before the engine serves it.
///
/// The request gets an origin if it has none. Then `protocols` are consulted in order: at
/// `ipc` the invoke payload is moved from its header into the body, and at the first protocol
/// that the request denotes the URI is put into the form that handlers expect. The result is
/// the place of that protocol in `protocols`, whose handler is to run; `None` means that the
/// request is for no custom protocol and goes on to the engine.
pub fn on_web_resource_requested(
    request: &mut ResourceRequest,
    protocols: &Vec<String>,
    convention: UriConvention,
    use_https_scheme: bool,
) -> (r: Option<usize>)
    ensures
        spec_is_first_match(
            old(request)@,
            protocol_names(protocols@),
            convention,
            use_https_scheme,
            match r {
                Some(i) => Some(i as int),
                None => None,
            },
        ),
        final(request)@ == spec_intercepted(
            old(request)@,
            protocol_names(protocols@),
            convention,
            use_https_scheme,
            match r {
                Some(i) => Some(i as int),
                None => None,
            },
        ),
{
    let ghost names = protocol_names(protocols@);
    let ghost with_origin = spec_with_origin(old(request)@, convention, use_https_scheme);
    ensure_origin(request, convention, use_https_scheme);
    let mut moved = false;
    let mut i: usize = 0;
    while i < protocols.len()
        invariant
            i <= protocols.len(),
            names == protocol_names(protocols@),
            with_origin == spec_with_origin(old(request)@, convention, use_https_scheme),
            moved == names.take(i as int).contains(spec_ipc_protocol()),
            request@ == if moved {
                spec_with_invoke_body(with_origin)
            } else {
                with_origin
            },
            forall|j: int|
                0 <= j < i ==> !spec_denotes(
                    old(request)@,
                    convention,
                    use_https_scheme,
                    #[trigger] names[j],
                ),
        decreases protocols.len() - i,
    {
        let protocol = protocols[i].as_str();
        proof {
            lemma_contains_after_push(names.take(i as int), names[i as int], spec_ipc_protocol());
            assert(names.take(i + 1) =~= names.take(i as int).push(names[i as int]));
        }
        if !moved && same_text(protocol, "ipc") {
            move_invoke_body(request);
            moved = true;
        }
        let scheme = match &request.scheme {
            Some(s) => Some(s.as_str()),
            None => None,
        };
        if is_custom_protocol_uri(
            convention,
            use_https_scheme,
            request.uri.as_str(),
            scheme,
            protocol,
        ) {
            revert_request_uri(request, convention, use_https_scheme, protocol);
            return Some(i);
        }
        i += 1;
    }
    proof {
        assert(names.take(names.len() as int) =~= names);
    }
    None
}

/// The upper-case ASCII hexadecimal digit for a value below sixteen.
pub open spec fn spec_hex_digit_of(value: u8) -> u8 {
    if value < 10 {
        (0x30 + value) as u8
    } else {
        (0x41 + value - 10) as u8
    }
}

/// A percent-encoding of `bytes`: a byte that `keep` holds of stands for itself, any other is
/// written as a percent sign and two hexadecimal digits. The percent sign is never kept.
pub open spec fn spec_percent_encoded(bytes: Seq<u8>, keep: spec_fn(u8) -> bool) -> Seq<u8>
    decreases bytes.len(),
{
    if bytes.len() == 0 {
        Seq::empty()
    } else if keep(bytes[0]) && bytes[0] != 0x25 {
        seq![bytes[0]] + spec_percent_encoded(bytes.skip(1), keep)
    } else {
        seq![0x25u8, spec_hex_digit_of(bytes[0] / 16), spec_hex_digit_of(bytes[0] % 16)]
            + spec_percent_encoded(bytes.skip(1), keep)
    }
}

/// Percent-decoding undoes percent-encoding, whichever bytes the encoder chose to keep.
pub proof fn lemma_percent_round_trip(bytes: Seq<u8>, keep: spec_fn(u8) -> bool)
    ensures
        spec_percent_decoded(spec_percent_encoded(bytes, keep)) == bytes,
    decreases bytes.len(),
{
    if bytes.len() > 0 {
        let rest = spec_percent_encoded(bytes.skip(1), keep);
        let encoded = spec_percent_encoded(bytes, keep);
        lemma_percent_round_trip(bytes.skip(1), keep);
        if keep(bytes[0]) && bytes[0] != 0x25 {
            assert(encoded.skip(1) =~= rest);
        } else {
            assert(encoded.skip(3) =~= rest);
        }
    }
}

/// A percent-encoding holds no percent sign but those of its escapes.
pub proof fn lemma_percent_encoded_is_well_formed(bytes: Seq<u8>, keep: spec_fn(u8) -> bool)
    ensures
        spec_escapes_are_well_formed(spec_percent_encoded(bytes, keep)),
    decreases bytes.len(),
{
    if bytes.len() > 0 {
        let rest = spec_percent_encoded(bytes.skip(1), keep);
        let encoded = spec_percent_encoded(bytes, keep);
        lemma_percent_encoded_is_well_formed(bytes.skip(1), keep);
        let head: int = if keep(bytes[0]) && bytes[0] != 0x25 {
            1
        } else {
            3
        };
        assert(encoded.len() == head + rest.len());
        assert forall|i: int| 0 <= i < encoded.len() && #[trigger] encoded[i] == 0x25 implies {
            &&& i + 2 < encoded.len()
            &&& spec_hex_digit(encoded[i + 1]) is Some
            &&& spec_hex_digit(encoded[i + 2]) is Some
        } by {
            if i >= head {
                assert(encoded[i] == rest[i - head]);
                assert(encoded[i + 1] == rest[i - head + 1]);
                assert(encoded[i + 2] == rest[i - head + 2]);
            }
        }
    }
}

/// An invoke payload that was percent-encoded into the header comes out, byte for byte, as the
/// body of the request.
pub proof fn lemma_invoke_body_round_trip(
    request: ResourceRequestView,
    payload: Seq<char>,
    keep: spec_fn(u8) -> bool,
)
    requires
        spec_first_header(request.headers, spec_invoke_body_header()) == Some(
            spec_percent_encoded(encode_utf8(payload), keep),
        ),
    ensures
        spec_with_invoke_body(request).body == encode_utf8(payload),
        !spec_has_header(spec_with_invoke_body(request).headers, spec_invoke_body_header()),
{
    lemma_percent_round_trip(encode_utf8(payload), keep);
    lemma_percent_encoded_is_well_formed(encode_utf8(payload), keep);
    vstd::utf8::encode_utf8_valid_utf8(payload);
    lemma_without_header_has_none(request.headers, spec_invoke_body_header());
}

/// A header that is not a valid percent-encoding of UTF-8, be it for a percent sign without
/// two hexadecimal digits after it or for escapes that spell no UTF-8, is dropped, and the
/// request is otherwise as it was: the body stays what it was on arrival, which is empty, and
/// so do the URI and the scheme, by which a handler is then chosen as for any other request.
pub proof fn lemma_undecodable_invoke_body(request: ResourceRequestView, value: Seq<u8>)
    requires
        spec_first_header(request.headers, spec_invoke_body_header()) == Some(value),
        !spec_escapes_are_well_formed(value) || !valid_utf8(spec_percent_decoded(value)),
    ensures
        spec_with_invoke_body(request).body == request.body,
        request.body.len() == 0 ==> spec_with_invoke_body(request).body.len() == 0,
        spec_with_invoke_body(request).uri == request.uri,
        spec_with_invoke_body(request).scheme == request.scheme,
        !spec_has_header(spec_with_invoke_body(request).headers, spec_invoke_body_header()),
{
    lemma_without_header_has_none(request.headers, spec_invoke_body_header());
}

/// What interception makes of the body of a request that carries an invoke payload: the
/// payload, where `ipc` is among the protocols consulted and the header is a valid
/// percent-encoding of UTF-8; in every other case the body that the request arrived with. So a
/// request that arrives with an empty body and a header that cannot be decoded goes on to its
/// handler with an empty body.
pub proof fn lemma_intercepted_body(
    request: ResourceRequestView,
    protocols: Seq<Seq<char>>,
    convention: UriConvention,
    use_https_scheme: bool,
    matched: Option<int>,
    value: Seq<u8>,
)
    requires
        spec_first_header(request.headers, spec_invoke_body_header()) == Some(value),
        matched matches Some(i) ==> 0 <= i < protocols.len(),
    ensures
        spec_intercepted(request, protocols, convention, use_https_scheme, matched).body == (
        match spec_decoded_invoke_body(value) {
            Some(body) if (match matched {
                Some(i) => protocols.take(i + 1),
                None => protocols,
            }).contains(spec_ipc_protocol()) => body,
            _ => request.body,
        }),
        spec_decoded_invoke_body(value) is None && request.body.len() == 0 ==> spec_intercepted(
            request,
            protocols,
            convention,
            use_https_scheme,
            matched,
        ).body.len() == 0,
{
    let with_origin = spec_with_origin(request, convention, use_https_scheme);
    assert(spec_first_header(with_origin.headers, spec_invoke_body_header()) == Some(value)) by {
        if !spec_has_header(request.headers, spec_origin_header()) {
            assert(with_origin.headers.drop_last() =~= request.headers);
        }
    }
}

/// Once the headers called `name` are taken out, none is called `name`.
pub proof fn lemma_without_header_has_none(headers: Seq<HeaderView>, name: Seq<char>)
    ensures
        !spec_has_header(spec_without_header(headers, name), name),
    decreases headers.len(),
{
    if headers.len() > 0 {
        lemma_without_header_has_none(headers.drop_last(), name);
    }
}

} // verus!
