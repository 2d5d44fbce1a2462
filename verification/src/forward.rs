//! Which request headers travel on to the origin: every header with a text
//! value, except the component's own and the hop-by-hop ones, plus the
//! marker header that keeps the CDN from routing the fetch back here.

use vstd::prelude::*;
use vstd::utf8::is_ascii_chars;
use crate::text::text_eq;

verus! {

/// What `str::to_lowercase` gives for `s`.
pub uninterp spec fn spec_lowercase(s: Seq<char>) -> Seq<char>;

/// `c` with an ASCII capital letter turned into its small letter.
pub open spec fn ascii_lower_char(c: char) -> char {
    if 'A' <= c <= 'Z' {
        ((c as u32) + 32) as char
    } else {
        c
    }
}

/// `s` with every ASCII capital letter turned into its small letter.
pub open spec fn ascii_lower(s: Seq<char>) -> Seq<char> {
    s.map_values(|c: char| ascii_lower_char(c))
}

/// Lower-casing as `str::to_lowercase` does it.
pub open spec fn std_lower() -> spec_fn(Seq<char>) -> Seq<char> {
    |name: Seq<char>| spec_lowercase(name)
}

/// Lower-casing of ASCII letters only.
pub open spec fn ascii_lowering() -> spec_fn(Seq<char>) -> Seq<char> {
    |name: Seq<char>| ascii_lower(name)
}

/// The lower-case header names that are never forwarded.
pub open spec fn skipped_headers() -> Seq<Seq<char>> {
    seq![
        "x-origin-url"@,
        "host"@,
        "connection"@,
        "transfer-encoding"@,
        "te"@,
        "trailer"@,
        "upgrade"@,
        "proxy-authorization"@,
        "proxy-authenticate"@,
        "accept-encoding"@,
        "keep-alive"@,
    ]
}

/// Whether a request header with this name and value goes to the origin,
/// names being lower-cased by `lower`.
pub open spec fn forwards_by(lower: spec_fn(Seq<char>) -> Seq<char>, name: Seq<char>, value: Option<Seq<char>>) -> bool {
    !skipped_headers().contains(lower(name)) && value is Some
}

/// The headers forwarded from `headers`, in their order, names being
/// lower-cased by `lower`.
pub open spec fn forwarded_by(
    lower: spec_fn(Seq<char>) -> Seq<char>,
    headers: Seq<(Seq<char>, Option<Seq<char>>)>,
) -> Seq<(Seq<char>, Seq<char>)>
    decreases headers.len(),
{
    if headers.len() == 0 {
        seq![]
    } else {
        let rest = forwarded_by(lower, headers.drop_last());
        let (name, value) = headers.last();
        if forwards_by(lower, name, value) {
            rest.push((name, value.unwrap()))
        } else {
            rest
        }
    }
}

/// Whether a request header goes to the origin.
pub open spec fn forwards(name: Seq<char>, value: Option<Seq<char>>) -> bool {
    forwards_by(std_lower(), name, value)
}

/// The headers forwarded from `headers`, in their order.
pub open spec fn forwarded(headers: Seq<(Seq<char>, Option<Seq<char>>)>) -> Seq<(Seq<char>, Seq<char>)> {
    forwarded_by(std_lower(), headers)
}

/// Every header name in `headers` is ASCII text.
pub open spec fn ascii_names(headers: Seq<(Seq<char>, Option<Seq<char>>)>) -> bool {
    forall|j: int| 0 <= j < headers.len() ==> is_ascii_chars(#[trigger] headers[j].0)
}

/// The header that marks a request as sent by this component.
pub open spec fn marker_header() -> (Seq<char>, Seq<char>) {
    ("x-aka-function"@, "html2md/1.0"@)
}

/// The headers of the outbound request: the forwarded ones, then the marker.
pub open spec fn outbound(headers: Seq<(Seq<char>, Option<Seq<char>>)>) -> Seq<(Seq<char>, Seq<char>)> {
    forwarded(headers).push(marker_header())
}

/// Where two lowerings agree on every name of `headers`, they forward the
/// same headers.
proof fn lowerings_agree(
    a: spec_fn(Seq<char>) -> Seq<char>,
    b: spec_fn(Seq<char>) -> Seq<char>,
    headers: Seq<(Seq<char>, Option<Seq<char>>)>,
)
    requires
        forall|j: int| 0 <= j < headers.len() ==> a(#[trigger] headers[j].0) == b(headers[j].0),
    ensures
        forwarded_by(a, headers) == forwarded_by(b, headers),
    decreases headers.len(),
{
    if headers.len() > 0 {
        let init = headers.drop_last();
        assert forall|j: int| 0 <= j < init.len() implies a(#[trigger] init[j].0) == b(init[j].0) by {
            assert(init[j] == headers[j]);
        }
        lowerings_agree(a, b, init);
        assert(headers.last() == headers[headers.len() - 1]);
    }
}

/// `str::to_lowercase` of std. Besides naming the result, the contract
/// states what the Unicode lower-case mapping does to ASCII text: capital
/// letters become small letters, every other character stays.
#[verifier::external_body]
fn lowercase(s: &str) -> (r: String)
    ensures
        r@ == spec_lowercase(s@),
        is_ascii_chars(s@) ==> r@ == ascii_lower(s@),
{
    s.to_lowercase()
}

/// Whether a lower-cased header name is one that is never forwarded: the
/// component's own `x-origin-url`, `host`, the hop-by-hop and proxy headers,
/// `accept-encoding` and `keep-alive`.
pub fn is_skipped_header(lower: &str) -> (r: bool)
    ensures
        r == skipped_headers().contains(lower@),
        r == (lower@ == "x-origin-url"@ || lower@ == "host"@ || lower@ == "connection"@ || lower@
            == "transfer-encoding"@ || lower@ == "te"@ || lower@ == "trailer"@ || lower@ == "upgrade"@
            || lower@ == "proxy-authorization"@ || lower@ == "proxy-authenticate"@ || lower@
            == "accept-encoding"@ || lower@ == "keep-alive"@),
{
    let ghost s = skipped_headers();
    if text_eq(lower, "x-origin-url") {
        assert(s[0] == lower@);
        true
    } else if text_eq(lower, "host") {
        assert(s[1] == lower@);
        true
    } else if text_eq(lower, "connection") {
        assert(s[2] == lower@);
        true
    } else if text_eq(lower, "transfer-encoding") {
        assert(s[3] == lower@);
        true
    } else if text_eq(lower, "te") {
        assert(s[4] == lower@);
        true
    } else if text_eq(lower, "trailer") {
        assert(s[5] == lower@);
        true
    } else if text_eq(lower, "upgrade") {
        assert(s[6] == lower@);
        true
    } else if text_eq(lower, "proxy-authorization") {
        assert(s[7] == lower@);
        true
    } else if text_eq(lower, "proxy-authenticate") {
        assert(s[8] == lower@);
        true
    } else if text_eq(lower, "accept-encoding") {
        assert(s[9] == lower@);
        true
    } else if text_eq(lower, "keep-alive") {
        assert(s[10] == lower@);
        true
    } else {
        assert(forall|i: int| 0 <= i < s.len() ==> s[i] != lower@);
        false
    }
}

/// The request headers that are forwarded to the origin, in their order,
/// each with its text value. Where every name is ASCII, a name is skipped
/// exactly when its ASCII lower-casing is one of the skipped names.
pub fn forward_headers(headers: &Vec<(String, Option<String>)>) -> (r: Vec<(String, String)>)
    ensures
        r.deep_view() == forwarded(headers.deep_view()),
        ascii_names(headers.deep_view()) ==> r.deep_view() == forwarded_by(
            ascii_lowering(),
            headers.deep_view(),
        ),
{
    let ghost all = headers.deep_view();
    let mut out: Vec<(String, String)> = Vec::new();
    let mut i: usize = 0;
    while i < headers.len()
        invariant
            all == headers.deep_view(),
            i <= headers.len(),
            out.deep_view() == forwarded(all.take(i as int)),
            forall|j: int|
                0 <= j < i && is_ascii_chars(#[trigger] all[j].0) ==> spec_lowercase(all[j].0)
                    == ascii_lower(all[j].0),
        decreases headers.len() - i,
    {
        let ghost before = out.deep_view();
        let name = &headers[i].0;
        let value = &headers[i].1;
        let lower = lowercase(name.as_str());
        assert(all.take(i + 1).drop_last() =~= all.take(i as int));
        assert(all.take(i + 1).last() == all[i as int]);
        if !is_skipped_header(lower.as_str()) {
            match value {
                Some(v) => {
                    out.push((name.clone(), v.clone()));
                    assert(out.deep_view() =~= before.push((name@, v@)));
                },
                None => {},
            }
        }
        i = i + 1;
    }
    assert(all.take(headers.len() as int) =~= all);
    proof {
        if ascii_names(all) {
            assert forall|j: int| 0 <= j < all.len() implies (#[trigger] std_lower()(all[j].0))
                == ascii_lowering()(all[j].0) by {
                assert(is_ascii_chars(all[j].0));
            }
            lowerings_agree(std_lower(), ascii_lowering(), all);
        }
    }
    out
}

/// The headers of the outbound request: the forwarded request headers, then
/// `x-aka-function: html2md/1.0`.
pub fn outbound_headers(headers: &Vec<(String, Option<String>)>) -> (r: Vec<(String, String)>)
    ensures
        r.deep_view() == outbound(headers.deep_view()),
        r.deep_view().len() == forwarded(headers.deep_view()).len() + 1,
        r.deep_view().last() == ("x-aka-function"@, "html2md/1.0"@),
        r.deep_view().drop_last() == forwarded(headers.deep_view()),
        ascii_names(headers.deep_view()) ==> r.deep_view() == forwarded_by(
            ascii_lowering(),
            headers.deep_view(),
        ).push(marker_header()),
{
    let mut out = forward_headers(headers);
    let ghost before = out.deep_view();
    out.push((String::from_str("x-aka-function"), String::from_str("html2md/1.0")));
    assert(out.deep_view() =~= before.push(marker_header()));
    out
}

/// A header reaches the origin exactly when its lower-cased name is not one
/// of the skipped names and its value is text: every forwarded header comes
/// from the request with that value, and every such request header is
/// forwarded. Nothing is forwarded that the request did not carry. This holds
/// for any lowering of names: `str::to_lowercase` in general, and ASCII
/// lower-casing where the names are ASCII (see `forward_headers`).
pub proof fn forwarded_headers_are_exactly_the_allowed(
    lower: spec_fn(Seq<char>) -> Seq<char>,
    headers: Seq<(Seq<char>, Option<Seq<char>>)>,
)
    ensures
        forwarded_by(lower, headers).len() <= headers.len(),
        forall|i: int|
            0 <= i < forwarded_by(lower, headers).len() ==> {
                let (name, value) = #[trigger] forwarded_by(lower, headers)[i];
                &&& !skipped_headers().contains(lower(name))
                &&& exists|j: int| 0 <= j < headers.len() && #[trigger] headers[j] == (name, Some(value))
            },
        forall|j: int|
            0 <= j < headers.len() && forwards_by(lower, #[trigger] headers[j].0, headers[j].1)
                ==> exists|i: int|
                0 <= i < forwarded_by(lower, headers).len() && #[trigger] forwarded_by(lower, headers)[i]
                    == (headers[j].0, headers[j].1.unwrap()),
    decreases headers.len(),
{
    if headers.len() > 0 {
        let init = headers.drop_last();
        forwarded_headers_are_exactly_the_allowed(lower, init);
        let f = forwarded_by(lower, headers);
        let g = forwarded_by(lower, init);
        assert forall|i: int| 0 <= i < f.len() implies {
            let (name, value) = #[trigger] f[i];
            &&& !skipped_headers().contains(lower(name))
            &&& exists|j: int| 0 <= j < headers.len() && #[trigger] headers[j] == (name, Some(value))
        } by {
            if i < g.len() {
                let (name, value) = g[i];
                let j = choose|j: int| 0 <= j < init.len() && #[trigger] init[j] == (name, Some(value));
                assert(headers[j] == init[j]);
            } else {
                assert(headers[headers.len() - 1] == headers.last());
            }
        }
        assert forall|j: int|
            0 <= j < headers.len() && forwards_by(lower, #[trigger] headers[j].0, headers[j].1) implies exists|
            i: int,
        | 0 <= i < f.len() && #[trigger] f[i] == (headers[j].0, headers[j].1.unwrap()) by {
            if j < init.len() {
                assert(init[j] == headers[j]);
                let i = choose|i: int| 0 <= i < g.len() && #[trigger] g[i] == (init[j].0, init[j].1.unwrap());
                assert(f[i] == g[i]);
            } else {
                assert(f[f.len() - 1] == (headers[j].0, headers[j].1.unwrap()));
            }
        }
    }
}

/// A name without ASCII capital letters is compared as written: such a
/// header is forwarded exactly when its name is not one of the skipped names
/// and its value is text.
pub proof fn small_letter_names_are_compared_as_written(name: Seq<char>, value: Option<Seq<char>>)
    requires
        forall|i: int| 0 <= i < name.len() ==> !('A' <= #[trigger] name[i] <= 'Z'),
    ensures
        ascii_lower(name) == name,
        forwards_by(ascii_lowering(), name, value) <==> (!skipped_headers().contains(name)
            && value is Some),
{
    assert(ascii_lower(name) =~= name);
}

/// Every outbound request carries `x-aka-function: html2md/1.0`, as its last
/// header, so that the CDN never routes the component's own fetch back to it.
pub proof fn outbound_requests_carry_the_marker(headers: Seq<(Seq<char>, Option<Seq<char>>)>)
    ensures
        outbound(headers).len() == forwarded(headers).len() + 1,
        outbound(headers).last() == marker_header(),
        outbound(headers).contains(marker_header()),
{
    assert(outbound(headers)[outbound(headers).len() - 1] == marker_header());
}

/// The component's own `x-origin-url` header, in any letter case that
/// lower-cases to it, never reaches the origin.
pub proof fn origin_header_is_never_forwarded(headers: Seq<(Seq<char>, Option<Seq<char>>)>)
    ensures
        forall|i: int|
            0 <= i < forwarded(headers).len() ==> spec_lowercase(#[trigger] forwarded(headers)[i].0)
                != "x-origin-url"@,
{
    forwarded_headers_are_exactly_the_allowed(std_lower(), headers);
    assert forall|i: int| 0 <= i < forwarded(headers).len() implies spec_lowercase(
        #[trigger] forwarded(headers)[i].0,
    ) != "x-origin-url"@ by {
        let (name, value) = forwarded(headers)[i];
        assert(skipped_headers()[0] == "x-origin-url"@);
    }
}

/// Exactly eleven names are skipped: `x-origin-url`, `host`, `connection`,
/// `transfer-encoding`, `te`, `trailer`, `upgrade`, `proxy-authorization`,
/// `proxy-authenticate`, `accept-encoding` and `keep-alive`; a header with
/// any other lowered name and a text value is forwarded.
pub proof fn exactly_eleven_names_are_skipped(
    lower: spec_fn(Seq<char>) -> Seq<char>,
    name: Seq<char>,
    value: Option<Seq<char>>,
)
    ensures
        skipped_headers().len() == 11,
        skipped_headers().contains(name) <==> (name == "x-origin-url"@ || name == "host"@ || name
            == "connection"@ || name == "transfer-encoding"@ || name == "te"@ || name == "trailer"@
            || name == "upgrade"@ || name == "proxy-authorization"@ || name == "proxy-authenticate"@
            || name == "accept-encoding"@ || name == "keep-alive"@),
        forwards_by(lower, name, value) <==> (value is Some && !(lower(name) == "x-origin-url"@
            || lower(name) == "host"@ || lower(name) == "connection"@ || lower(name)
            == "transfer-encoding"@ || lower(name) == "te"@ || lower(name) == "trailer"@ || lower(
            name,
        ) == "upgrade"@ || lower(name) == "proxy-authorization"@ || lower(name)
            == "proxy-authenticate"@ || lower(name) == "accept-encoding"@ || lower(name)
            == "keep-alive"@)),
{
    let s = skipped_headers();
    assert(s[0] == "x-origin-url"@);
    assert(s[1] == "host"@);
    assert(s[2] == "connection"@);
    assert(s[3] == "transfer-encoding"@);
    assert(s[4] == "te"@);
    assert(s[5] == "trailer"@);
    assert(s[6] == "upgrade"@);
    assert(s[7] == "proxy-authorization"@);
    assert(s[8] == "proxy-authenticate"@);
    assert(s[9] == "accept-encoding"@);
    assert(s[10] == "keep-alive"@);
}

} // verus!
