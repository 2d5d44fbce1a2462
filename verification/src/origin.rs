//! Reading the origin URL from the `x-origin-url` request header: the value
//! is URL-safe Base64 (possibly stripped of its padding) of the UTF-8 text of
//! an absolute `https` URL.

use base64::Engine;
use vstd::prelude::*;
use vstd::slice::slice_to_vec;
use vstd::utf8::{decode_utf8, encode_utf8, valid_utf8};
use crate::failure::{text_result_is, Failure};
use crate::text::{chars_of, text_eq};

verus! {

/// The Base64 padding byte `=`.
pub const PAD_BYTE: u8 = 0x3d;

/// How many padding bytes complete `n` bytes to a multiple of four.
pub open spec fn padding_len(n: nat) -> nat {
    if n % 4 == 0 {
        0
    } else {
        (4 - n % 4) as nat
    }
}

/// `encoded` followed by the padding that completes it to a multiple of four.
pub open spec fn padded(encoded: Seq<u8>) -> Seq<u8> {
    encoded + Seq::new(padding_len(encoded.len()), |i: int| PAD_BYTE)
}

/// What the URL-safe Base64 decoder gives for `input`: the decoded bytes, or
/// `None` when it refuses the input.
pub uninterp spec fn spec_base64_url_decode(input: Seq<u8>) -> Option<Seq<u8>>;

/// What the URL parser gives for `input`: the scheme and the serialization
/// of the parsed URL, or `None` when it refuses the input.
pub uninterp spec fn spec_url_parse(input: Seq<char>) -> Option<(Seq<char>, Seq<char>)>;

/// The bytes held by an optional vector.
pub open spec fn bytes_of(o: Option<Vec<u8>>) -> Option<Seq<u8>> {
    match o {
        Some(v) => Some(v@),
        None => None,
    }
}

/// The texts held by an optional pair of strings.
pub open spec fn texts_of(o: Option<(String, String)>) -> Option<(Seq<char>, Seq<char>)> {
    match o {
        Some((a, b)) => Some((a@, b@)),
        None => None,
    }
}

/// `url` begins with `scheme` and then `:`.
pub open spec fn has_scheme(url: Seq<char>, scheme: Seq<char>) -> bool {
    &&& scheme.len() < url.len()
    &&& url.subrange(0, scheme.len() as int) == scheme
    &&& url[scheme.len() as int] == ':'
}

/// The outcome of reading decoded bytes as the text of a URL.
pub open spec fn decoded_text(decoded: Option<Seq<u8>>) -> Result<Seq<char>, Failure> {
    match decoded {
        None => Err(Failure::InvalidBase64),
        Some(bytes) => if valid_utf8(bytes) {
            Ok(decode_utf8(bytes))
        } else {
            Err(Failure::InvalidUtf8)
        },
    }
}

/// The outcome of decoding a header value: pad, decode, read as UTF-8.
pub open spec fn decoded_origin(header: Seq<char>) -> Result<Seq<char>, Failure> {
    decoded_text(spec_base64_url_decode(padded(encode_utf8(header))))
}

/// The outcome of checking a parsed URL: refused when it did not parse or its
/// scheme is not `https`, else its serialization.
pub open spec fn checked_url(parsed: Option<(Seq<char>, Seq<char>)>) -> Result<Seq<char>, Failure> {
    match parsed {
        None => Err(Failure::InvalidUrl),
        Some((scheme, serialized)) => if scheme == "https"@ {
            Ok(serialized)
        } else {
            Err(Failure::NotHttps)
        },
    }
}

/// The outcome of the whole reading of the `x-origin-url` header value.
pub open spec fn origin_outcome(header: Option<Seq<char>>) -> Result<Seq<char>, Failure> {
    match header {
        None => Err(Failure::MissingOriginUrl),
        Some(h) => match decoded_origin(h) {
            Err(f) => Err(f),
            Ok(url) => checked_url(spec_url_parse(url)),
        },
    }
}

/// Decodes with the `URL_SAFE` engine of the `base64` crate
/// (`base64::Engine::decode`): URL-safe alphabet, canonical padding required.
/// The contract names the result and states nothing more of it.
#[verifier::external_body]
fn base64_url_decode(input: &[u8]) -> (r: Option<Vec<u8>>)
    ensures
        bytes_of(r) == spec_base64_url_decode(input@),
{
    base64::engine::general_purpose::URL_SAFE.decode(input).ok()
}

/// `String::from_utf8` of std: the text of `bytes` when they are valid UTF-8,
/// and `None` otherwise.
#[verifier::external_body]
fn string_from_utf8(bytes: Vec<u8>) -> (r: Option<String>)
    ensures
        r is Some <==> valid_utf8(bytes@),
        r matches Some(s) ==> s@ == decode_utf8(bytes@),
{
    String::from_utf8(bytes).ok()
}

/// Parses `input` with `url::Url::parse` and hands back the parsed URL's
/// `scheme()` and `as_str()`. Besides naming the result, the contract states
/// the layout that the `url` crate keeps for every parsed URL: the
/// serialization starts with the scheme, followed by `:`.
#[verifier::external_body]
fn parse_url(input: &str) -> (r: Option<(String, String)>)
    ensures
        texts_of(r) == spec_url_parse(input@),
        r matches Some((scheme, serialized)) ==> has_scheme(serialized@, scheme@),
{
    match url::Url::parse(input) {
        Ok(parsed) => Some((parsed.scheme().to_string(), parsed.as_str().to_string())),
        Err(_) => None,
    }
}

/// Whether `url` begins with `https:`.
pub fn is_https_url(url: &str) -> (r: bool)
    ensures
        r == has_scheme(url@, "https"@),
{
    let chars = chars_of(url);
    proof {
        reveal_strlit("https");
        if url@.len() > 5 && url@.subrange(0, 5) == "https"@ {
            assert forall|i: int| 0 <= i < 5 implies url@[i] == "https"@[i] by {
                assert(url@.subrange(0, 5)[i] == url@[i]);
            }
        }
    }
    if chars.len() < 6 {
        return false;
    }
    let r = chars[0] == 'h' && chars[1] == 't' && chars[2] == 't' && chars[3] == 'p' && chars[4]
        == 's' && chars[5] == ':';
    assert(r ==> url@.subrange(0, 5) =~= "https"@);
    r
}

/// Appends the Base64 padding that an encoder may have stripped, so that the
/// length becomes a multiple of four.
pub fn pad_base64(encoded: &[u8]) -> (r: Vec<u8>)
    ensures
        r@ == padded(encoded@),
{
    let mut out = slice_to_vec(encoded);
    let rem = encoded.len() % 4;
    if rem != 0 {
        let missing = 4 - rem;
        let mut i: usize = 0;
        while i < missing
            invariant
                missing == padding_len(encoded@.len() as nat),
                i <= missing,
                out@ == encoded@ + Seq::new(i as nat, |k: int| PAD_BYTE),
            decreases missing - i,
        {
            out.push(PAD_BYTE);
            i = i + 1;
            assert(out@ =~= encoded@ + Seq::new(i as nat, |k: int| PAD_BYTE));
        }
    } else {
        assert(out@ =~= padded(encoded@));
    }
    out
}

/// Reads the bytes that the Base64 decoder gave back as the text of a URL:
/// `InvalidBase64` when the decoder refused its input, `InvalidUtf8` when the
/// bytes are not UTF-8.
pub fn text_from_decoded(decoded: Option<Vec<u8>>) -> (r: Result<String, Failure>)
    ensures
        text_result_is(r, decoded_text(bytes_of(decoded))),
{
    match decoded {
        None => Err(Failure::InvalidBase64),
        Some(bytes) => match string_from_utf8(bytes) {
            Some(text) => Ok(text),
            None => Err(Failure::InvalidUtf8),
        },
    }
}

/// Decodes the `x-origin-url` header value into the text of the URL.
pub fn decode_origin_url(encoded: &str) -> (r: Result<String, Failure>)
    ensures
        text_result_is(r, decoded_origin(encoded@)),
{
    let padded_bytes = pad_base64(encoded.as_bytes());
    let decoded = base64_url_decode(padded_bytes.as_slice());
    text_from_decoded(decoded)
}

/// Checks what the URL parser gave back: `InvalidUrl` when it refused the
/// text, `NotHttps` when the scheme is not `https`, else the serialization.
pub fn require_https(parsed: Option<(String, String)>) -> (r: Result<String, Failure>)
    ensures
        text_result_is(r, checked_url(texts_of(parsed))),
        parsed is None ==> r == Err::<String, Failure>(Failure::InvalidUrl),
        parsed matches Some((scheme, serialized)) ==> (scheme@ == "https"@ <==> (r matches Ok(u)
            && u@ == serialized@)),
        parsed matches Some((scheme, serialized)) && scheme@ != "https"@ ==> r == Err::<
            String,
            Failure,
        >(Failure::NotHttps),
{
    match parsed {
        None => Err(Failure::InvalidUrl),
        Some((scheme, serialized)) => if text_eq(scheme.as_str(), "https") {
            Ok(serialized)
        } else {
            Err(Failure::NotHttps)
        },
    }
}

/// Parses the decoded URL text and accepts it only as an `https` URL; what it
/// hands back is the parser's serialization, which starts with `https:`.
pub fn validate_origin_url(url: &str) -> (r: Result<String, Failure>)
    ensures
        text_result_is(r, checked_url(spec_url_parse(url@))),
        r matches Ok(u) ==> has_scheme(u@, "https"@),
        spec_url_parse(url@) is None ==> r == Err::<String, Failure>(Failure::InvalidUrl),
        spec_url_parse(url@) matches Some((scheme, serialized)) ==> (scheme == "https"@ <==> (
        r matches Ok(u) && u@ == serialized)),
        spec_url_parse(url@) matches Some((scheme, serialized)) && scheme != "https"@ ==> r
            == Err::<String, Failure>(Failure::NotHttps),
{
    let parsed = parse_url(url);
    let ghost p = parsed;
    let r = require_https(parsed);
    assert(r matches Ok(u) ==> (p matches Some((scheme, serialized)) && scheme@ == "https"@
        && serialized@ == u@));
    r
}

/// Reads the `x-origin-url` header value, `None` when the request carries no
/// readable one, into the `https` URL to fetch.
pub fn origin_url(header: Option<&str>) -> (r: Result<String, Failure>)
    ensures
        text_result_is(
            r,
            origin_outcome(
                match header {
                    Some(h) => Some(h@),
                    None => None,
                },
            ),
        ),
        r matches Ok(u) ==> has_scheme(u@, "https"@),
{
    match header {
        None => Err(Failure::MissingOriginUrl),
        Some(encoded) => match decode_origin_url(encoded) {
            Err(f) => Err(f),
            Ok(text) => validate_origin_url(text.as_str()),
        },
    }
}

/// Padding brings every header value to a whole number of Base64 quanta, by
/// appending fewer than four `=` bytes, and padding twice changes nothing.
pub proof fn padding_completes_quanta(encoded: Seq<u8>)
    ensures
        padded(encoded).len() % 4 == 0,
        padded(encoded).subrange(0, encoded.len() as int) == encoded,
        padded(encoded).len() - encoded.len() < 4,
        forall|i: int| encoded.len() <= i < padded(encoded).len() ==> padded(encoded)[i] == PAD_BYTE,
        encoded.len() % 4 == 0 ==> padded(encoded) == encoded,
        padded(padded(encoded)) == padded(encoded),
{
    assert(padded(encoded).subrange(0, encoded.len() as int) =~= encoded);
    assert(padded(padded(encoded)) =~= padded(encoded));
    if encoded.len() % 4 == 0 {
        assert(padded(encoded) =~= encoded);
    }
}

/// A URL has a scheme exactly when it is the scheme, then `:`, then the rest.
pub proof fn scheme_is_the_text_before_the_colon(url: Seq<char>, scheme: Seq<char>)
    ensures
        has_scheme(url, scheme) <==> exists|rest: Seq<char>| url == #[trigger] (scheme + seq![':'] + rest),
{
    if has_scheme(url, scheme) {
        let rest = url.subrange((scheme.len() + 1) as int, url.len() as int);
        assert(url =~= scheme + seq![':'] + rest);
    }
    if exists|rest: Seq<char>| url == #[trigger] (scheme + seq![':'] + rest) {
        let rest = choose|rest: Seq<char>| url == #[trigger] (scheme + seq![':'] + rest);
        assert(url.subrange(0, scheme.len() as int) =~= scheme);
        assert(url[scheme.len() as int] == (scheme + seq![':'] + rest)[scheme.len() as int]);
    }
}

/// What the parser accepts with the scheme `https` is taken as the parser's
/// serialization, whatever else it holds (a query, a fragment, a port); only
/// a text the parser refuses is an invalid URL, and only another scheme is
/// refused as not `https`.
pub proof fn https_urls_are_taken_as_parsed(parsed: Option<(Seq<char>, Seq<char>)>)
    ensures
        parsed is None <==> checked_url(parsed) == Err::<Seq<char>, Failure>(Failure::InvalidUrl),
        forall|serialized: Seq<char>|
            parsed == Some(("https"@, serialized)) ==> #[trigger] checked_url(parsed) == Ok::<
                Seq<char>,
                Failure,
            >(serialized),
        parsed matches Some((scheme, serialized)) ==> (scheme != "https"@ <==> checked_url(parsed)
            == Err::<Seq<char>, Failure>(Failure::NotHttps)),
{
}

/// Reading the header, stage by stage: a missing header, bytes the Base64
/// decoder refuses after padding, decoded bytes that are not UTF-8, text the
/// URL parser refuses and a scheme other than `https` each give their own
/// failure; otherwise the URL to fetch is the parser's serialization.
pub proof fn the_header_is_read_stage_by_stage(header: Seq<char>)
    ensures
        origin_outcome(None) == Err::<Seq<char>, Failure>(Failure::MissingOriginUrl),
        match spec_base64_url_decode(padded(encode_utf8(header))) {
            None => origin_outcome(Some(header)) == Err::<Seq<char>, Failure>(Failure::InvalidBase64),
            Some(bytes) => if !valid_utf8(bytes) {
                origin_outcome(Some(header)) == Err::<Seq<char>, Failure>(Failure::InvalidUtf8)
            } else {
                match spec_url_parse(decode_utf8(bytes)) {
                    None => origin_outcome(Some(header)) == Err::<Seq<char>, Failure>(
                        Failure::InvalidUrl,
                    ),
                    Some((scheme, serialized)) => if scheme == "https"@ {
                        origin_outcome(Some(header)) == Ok::<Seq<char>, Failure>(serialized)
                    } else {
                        origin_outcome(Some(header)) == Err::<Seq<char>, Failure>(Failure::NotHttps)
                    },
                }
            },
        },
{
}

} // verus!
