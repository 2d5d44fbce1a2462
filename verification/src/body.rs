//! What becomes of the origin's response once it arrived: anything that is
//! not HTML is relayed as it is; HTML is buffered up to a limit, read as
//! text and converted to Markdown.

use vstd::prelude::*;
use vstd::utf8::{decode_utf8, valid_utf8};
use html_to_markdown_rs::{convert, ConversionOptions, HeadingStyle};
use crate::failure::{Failure, Reply};
use crate::fetch::text_of;
use crate::text::{containment_is_a_split, contains_text, text_contains};
use crate::MAX_BODY_SIZE;

verus! {

/// What `String::from_utf8_lossy` gives for `bytes`.
pub uninterp spec fn spec_utf8_lossy(bytes: Seq<u8>) -> Seq<char>;

/// How headings are written in Markdown.
#[derive(Debug, Clone, Copy, PartialEq, Eq, Structural)]
pub enum Headings {
    /// `===` and `---` under the title.
    Underlined,
    /// `#` before the title.
    Atx,
    /// `#` before and after the title.
    AtxClosed,
}

/// The choices the converter is run with.
#[derive(Debug)]
pub struct ConversionSettings {
    pub headings: Headings,
    pub skip_images: bool,
    pub strip_tags: Vec<String>,
    pub extract_metadata: bool,
    pub autolinks: bool,
    pub wrap: bool,
    pub default_title: bool,
}

/// What the converter gives for `html` with these choices: `None` when it
/// refuses the document, else the content of its result, which may be absent.
pub uninterp spec fn spec_convert(
    html: Seq<char>,
    headings: Headings,
    skip_images: bool,
    strip_tags: Seq<Seq<char>>,
    extract_metadata: bool,
    autolinks: bool,
    wrap: bool,
    default_title: bool,
) -> Option<Option<Seq<char>>>;

/// What the converter gives for `html` with `settings`.
pub open spec fn converted_with(html: Seq<char>, settings: ConversionSettings) -> Option<Option<Seq<char>>> {
    spec_convert(
        html,
        settings.headings,
        settings.skip_images,
        settings.strip_tags.deep_view(),
        settings.extract_metadata,
        settings.autolinks,
        settings.wrap,
        settings.default_title,
    )
}

/// The elements whose content is left out of the Markdown for AI readers.
pub open spec fn boilerplate_tags() -> Seq<Seq<char>> {
    seq!["nav"@, "footer"@, "aside"@, "script"@, "style"@]
}

/// The texts held by an optional optional string.
pub open spec fn nested_text_of(o: Option<Option<String>>) -> Option<Option<Seq<char>>> {
    match o {
        Some(inner) => Some(text_of(inner)),
        None => None,
    }
}

/// The Markdown text, or the failure, that a conversion result stands for:
/// a refusal fails the request; an absent content is empty Markdown.
pub open spec fn markdown_outcome(converted: Option<Option<Seq<char>>>) -> Result<Seq<char>, Failure> {
    match converted {
        None => Err(Failure::ConversionFailed),
        Some(None) => Ok(Seq::<char>::empty()),
        Some(Some(text)) => Ok(text),
    }
}

/// `r` is the Markdown reply of `outcome`: status 200, content type
/// `text/markdown; charset=utf-8` and the Markdown as body, or the same
/// failure.
pub open spec fn is_markdown_reply(r: Result<Reply, Failure>, outcome: Result<Seq<char>, Failure>) -> bool {
    match (r, outcome) {
        (Ok(reply), Ok(text)) => {
            &&& reply.status == 200
            &&& reply.content_type@ == "text/markdown; charset=utf-8"@
            &&& reply.body@ == text
        },
        (Err(a), Err(b)) => a == b,
        _ => false,
    }
}

/// The text of a header value that may be absent, empty when it is.
pub open spec fn text_or_empty(o: Option<String>) -> Seq<char> {
    match o {
        Some(s) => s@,
        None => Seq::<char>::empty(),
    }
}

/// `String::from_utf8_lossy` of std. Besides naming the result, the contract
/// states that valid UTF-8 is read as what it encodes; what replaces invalid
/// sequences is left unstated.
#[verifier::external_body]
fn utf8_lossy(bytes: &[u8]) -> (r: String)
    ensures
        r@ == spec_utf8_lossy(bytes@),
        valid_utf8(bytes@) ==> r@ == decode_utf8(bytes@),
{
    String::from_utf8_lossy(bytes).into_owned()
}

/// `html_to_markdown_rs::convert` of `html`, with `ConversionOptions` built
/// from `settings` field by field. The contract names the result: `None` for
/// an error, else the result's `content`.
#[verifier::external_body]
fn convert_html(html: &str, settings: &ConversionSettings) -> (r: Option<Option<String>>)
    ensures
        nested_text_of(r) == spec_convert(
            html@,
            settings.headings,
            settings.skip_images,
            settings.strip_tags.deep_view(),
            settings.extract_metadata,
            settings.autolinks,
            settings.wrap,
            settings.default_title,
        ),
{
    let heading = match settings.headings {
        Headings::Underlined => HeadingStyle::Underlined,
        Headings::Atx => HeadingStyle::Atx,
        Headings::AtxClosed => HeadingStyle::AtxClosed,
    };
    let options = ConversionOptions::builder().heading_style(heading).skip_images(settings.skip_images)
        .strip_tags(settings.strip_tags.clone()).extract_metadata(settings.extract_metadata)
        .autolinks(settings.autolinks).wrap(settings.wrap).default_title(settings.default_title)
        .build();
    match convert(html, Some(options)) {
        Ok(result) => Some(result.content),
        Err(_) => None,
    }
}

impl ConversionSettings {
    /// The choices made for AI readers: `#` headings, no images, no
    /// navigation, footers, asides, scripts or styles, no metadata block,
    /// bare URLs as autolinks, no hard line wrapping, and always a title.
    pub fn for_ai_readers() -> (r: ConversionSettings)
        ensures
            r.headings == Headings::Atx,
            r.skip_images,
            r.strip_tags.deep_view() == boilerplate_tags(),
            r.strip_tags.deep_view() == seq!["nav"@, "footer"@, "aside"@, "script"@, "style"@],
            !r.extract_metadata,
            r.autolinks,
            !r.wrap,
            r.default_title,
    {
        let mut tags: Vec<String> = Vec::new();
        tags.push(String::from_str("nav"));
        tags.push(String::from_str("footer"));
        tags.push(String::from_str("aside"));
        tags.push(String::from_str("script"));
        tags.push(String::from_str("style"));
        assert(tags.deep_view() =~= boilerplate_tags());
        ConversionSettings {
            headings: Headings::Atx,
            skip_images: true,
            strip_tags: tags,
            extract_metadata: false,
            autolinks: true,
            wrap: false,
            default_title: true,
        }
    }
}

/// The first value of a response header, read as text with invalid UTF-8
/// replaced; `None` when the header is absent.
pub fn header_value(values: &Vec<Vec<u8>>) -> (r: Option<String>)
    ensures
        values@.len() == 0 ==> r is None,
        values@.len() > 0 ==> (r matches Some(s) && s@ == spec_utf8_lossy(values@[0]@)),
        values@.len() > 0 && valid_utf8(values@[0]@) ==> (r matches Some(s) && s@ == decode_utf8(
            values@[0]@,
        )),
{
    if values.len() == 0 {
        None
    } else {
        Some(utf8_lossy(values[0].as_slice()))
    }
}

/// Whether a `content-type` value announces HTML.
pub fn is_html(content_type: &str) -> (r: bool)
    ensures
        r == contains_text(content_type@, "text/html"@),
{
    text_contains(content_type, "text/html")
}

/// How the body of the response that ended the fetch is handled.
#[derive(Debug, PartialEq, Eq)]
pub enum BodyPlan {
    /// Stream the body to the client unchanged, with the origin's status and
    /// its `content-type` where it sent a non-empty one.
    Relay { status: u16, content_type: Option<String> },
    /// Buffer the HTML and convert it.
    Convert,
}

/// Decides from the response's status and `content-type` (absent when the
/// origin sent none) whether its body is relayed or converted: only content
/// announced as `text/html` is converted.
pub fn plan_body(status: u16, content_type: Option<String>) -> (r: BodyPlan)
    ensures
        (r is Convert) == contains_text(text_or_empty(content_type), "text/html"@),
        content_type is None ==> r == (BodyPlan::Relay { status, content_type: None }),
        content_type matches Some(received) ==> {
            &&& (r is Convert <==> contains_text(received@, "text/html"@))
            &&& r matches BodyPlan::Relay { status: s, content_type: c } ==> {
                &&& s == status
                &&& received@.len() == 0 ==> c is None
                &&& received@.len() > 0 ==> (c matches Some(t) && t@ == received@)
            }
        },
        r matches BodyPlan::Relay { status: s, content_type: c } ==> {
            &&& s == status
            &&& text_or_empty(content_type).len() == 0 ==> c is None
            &&& text_or_empty(content_type).len() > 0 ==> (c matches Some(t) && t@ == text_or_empty(content_type))
        },
{
    proof {
        reveal_strlit("text/html");
    }
    let ct = match content_type {
        Some(s) => s,
        None => String::new(),
    };
    if is_html(ct.as_str()) {
        BodyPlan::Convert
    } else if ct.as_str().is_empty() {
        BodyPlan::Relay { status, content_type: None }
    } else {
        BodyPlan::Relay { status, content_type: Some(ct) }
    }
}

/// The HTML received so far, never more than the conversion limit.
pub struct BodyBuffer {
    bytes: Vec<u8>,
}

impl View for BodyBuffer {
    type V = Seq<u8>;

    closed spec fn view(&self) -> Seq<u8> {
        self.bytes@
    }
}

/// The buffer after offering it `chunk`: grown by the chunk while the total
/// stays within the limit, `None` once it would not.
pub open spec fn pushed(buffer: Seq<u8>, chunk: Seq<u8>) -> Option<Seq<u8>> {
    if buffer.len() + chunk.len() <= MAX_BODY_SIZE {
        Some(buffer + chunk)
    } else {
        None
    }
}

/// The buffer after offering `chunks` in turn to an empty one, `None` once a
/// chunk was refused.
pub open spec fn buffered(chunks: Seq<Seq<u8>>) -> Option<Seq<u8>>
    decreases chunks.len(),
{
    if chunks.len() == 0 {
        Some(Seq::<u8>::empty())
    } else {
        match buffered(chunks.drop_last()) {
            None => None,
            Some(buffer) => pushed(buffer, chunks.last()),
        }
    }
}

/// The chunks one after another.
pub open spec fn joined(chunks: Seq<Seq<u8>>) -> Seq<u8>
    decreases chunks.len(),
{
    if chunks.len() == 0 {
        Seq::<u8>::empty()
    } else {
        joined(chunks.drop_last()) + chunks.last()
    }
}

/// However the body is cut into chunks, buffering it succeeds exactly when
/// the whole body fits in the limit, and then holds the whole body.
pub proof fn buffering_depends_only_on_the_whole_body(chunks: Seq<Seq<u8>>)
    ensures
        buffered(chunks) == (if joined(chunks).len() <= MAX_BODY_SIZE {
            Some(joined(chunks))
        } else {
            None::<Seq<u8>>
        }),
    decreases chunks.len(),
{
    if chunks.len() > 0 {
        buffering_depends_only_on_the_whole_body(chunks.drop_last());
    }
}

/// The reply for what the converter gave back: the Markdown, empty where the
/// result has no content, or `ConversionFailed` where it refused the document.
pub fn markdown_reply(converted: Option<Option<String>>) -> (r: Result<Reply, Failure>)
    ensures
        is_markdown_reply(r, markdown_outcome(nested_text_of(converted))),
        converted is None <==> r == Err::<Reply, Failure>(Failure::ConversionFailed),
        r matches Ok(reply) ==> {
            &&& reply.status == 200
            &&& reply.content_type@ == "text/markdown; charset=utf-8"@
            &&& converted matches Some(content)
            &&& content matches Some(text) ==> reply.body@ == text@
            &&& content is None ==> reply.body@.len() == 0
        },
{
    match converted {
        None => Err(Failure::ConversionFailed),
        Some(content) => {
            let markdown = match content {
                Some(text) => text,
                None => String::new(),
            };
            Ok(
                Reply {
                    status: 200,
                    content_type: String::from_str("text/markdown; charset=utf-8"),
                    body: markdown,
                },
            )
        },
    }
}

impl BodyBuffer {
    /// The buffer never holds more than the conversion limit.
    #[verifier::type_invariant]
    spec fn within_limit(self) -> bool {
        self.bytes.len() <= MAX_BODY_SIZE
    }

    /// An empty buffer.
    pub fn new() -> (r: BodyBuffer)
        ensures
            r@ == Seq::<u8>::empty(),
    {
        BodyBuffer { bytes: Vec::new() }
    }

    /// How many bytes are buffered.
    pub fn len(&self) -> (r: usize)
        ensures
            r == self@.len(),
            r <= MAX_BODY_SIZE,
    {
        proof {
            use_type_invariant(self);
        }
        self.bytes.len()
    }

    /// Appends a chunk of the body when the total stays within the limit;
    /// otherwise refuses it with `BodyTooLarge`.
    pub fn push_chunk(self, chunk: Vec<u8>) -> (r: Result<BodyBuffer, Failure>)
        ensures
            r is Ok <==> pushed(self@, chunk@) is Some,
            r matches Ok(grown) ==> pushed(self@, chunk@) == Some(grown@),
            r is Ok <==> self@.len() + chunk@.len() <= MAX_BODY_SIZE,
            r matches Ok(grown) ==> grown@ == self@ + chunk@,
            r matches Err(e) ==> e == Failure::BodyTooLarge,
    {
        proof {
            use_type_invariant(&self);
        }
        if chunk.len() > MAX_BODY_SIZE - self.bytes.len() {
            return Err(Failure::BodyTooLarge);
        }
        let BodyBuffer { mut bytes } = self;
        let mut chunk = chunk;
        bytes.append(&mut chunk);
        Ok(BodyBuffer { bytes })
    }

    /// Converts the buffered HTML: `EmptyBody` when nothing arrived, else the
    /// body read as text (invalid UTF-8 replaced) and converted with
    /// `settings`.
    pub fn finish(self, settings: &ConversionSettings) -> (r: Result<Reply, Failure>)
        ensures
            self@.len() == 0 ==> r == Err::<Reply, Failure>(Failure::EmptyBody),
            self@.len() > 0 ==> is_markdown_reply(
                r,
                markdown_outcome(converted_with(spec_utf8_lossy(self@), *settings)),
            ),
            ({
                let converted = spec_convert(
                    spec_utf8_lossy(self@),
                    settings.headings,
                    settings.skip_images,
                    settings.strip_tags.deep_view(),
                    settings.extract_metadata,
                    settings.autolinks,
                    settings.wrap,
                    settings.default_title,
                );
                &&& self@.len() > 0 ==> (r is Err <==> converted is None)
                &&& self@.len() > 0 && r is Err ==> r == Err::<Reply, Failure>(Failure::ConversionFailed)
                &&& r matches Ok(reply) ==> {
                    &&& self@.len() > 0
                    &&& reply.status == 200
                    &&& reply.content_type@ == "text/markdown; charset=utf-8"@
                    &&& converted matches Some(content)
                    &&& content matches Some(text) ==> reply.body@ == text
                    &&& content is None ==> reply.body@.len() == 0
                }
            }),
    {
        if self.bytes.len() == 0 {
            return Err(Failure::EmptyBody);
        }
        let html = utf8_lossy(self.bytes.as_slice());
        let converted = convert_html(html.as_str(), settings);
        markdown_reply(converted)
    }
}

/// The converter runs with exactly the caller's choices: the heading style,
/// images, the tags to strip, metadata, autolinks, wrapping and title of the
/// settings, field for field.
pub proof fn conversion_uses_the_given_settings(html: Seq<char>, settings: ConversionSettings)
    ensures
        converted_with(html, settings) == spec_convert(
            html,
            settings.headings,
            settings.skip_images,
            settings.strip_tags.deep_view(),
            settings.extract_metadata,
            settings.autolinks,
            settings.wrap,
            settings.default_title,
        ),
{
}

/// The Markdown is the converter's content: a refusal and nothing else fails
/// the conversion, a result without content is empty Markdown, and a result
/// with content is that content, unchanged.
pub proof fn markdown_is_the_converted_content(converted: Option<Option<Seq<char>>>)
    ensures
        converted is None <==> markdown_outcome(converted) == Err::<Seq<char>, Failure>(
            Failure::ConversionFailed,
        ),
        converted is None <==> markdown_outcome(converted) is Err,
        converted == Some(None::<Seq<char>>) ==> markdown_outcome(converted) == Ok::<
            Seq<char>,
            Failure,
        >(Seq::<char>::empty()),
        forall|text: Seq<char>|
            converted == Some(Some(text)) ==> #[trigger] markdown_outcome(converted) == Ok::<
                Seq<char>,
                Failure,
            >(text),
{
}

/// The content type is judged as it was received: an absent one counts as
/// empty, a present one as its own text, so only a value that holds
/// `text/html` (and no `text/plain`, `text/css` or other type) is converted.
pub proof fn content_type_is_judged_as_received(content_type: Option<String>)
    ensures
        content_type is None ==> text_or_empty(content_type).len() == 0,
        content_type matches Some(received) ==> text_or_empty(content_type) == received@,
        contains_text(text_or_empty(content_type), "text/html"@) <==> exists|pre: Seq<char>, post: Seq<char>|
            text_or_empty(content_type) == #[trigger] (pre + "text/html"@ + post),
{
    containment_is_a_split(text_or_empty(content_type), "text/html"@);
}

} // verus!
