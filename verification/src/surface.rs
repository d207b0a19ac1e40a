//! The surface that a binding serves, and the bodies and pages of the resource
//! surface.

use vstd::prelude::*;

use crate::json::{copied, json_views, no_members, Json, JsonObject, JsonView};
use crate::outside::{
    json_text, lemma_settled_array, lemma_settled_empty, lemma_settled_push, numbers_settled,
    sent_document, written_text,
};
use crate::text::{some_chars, some_text};

verus! {

/// MCP surface of a binding.
#[derive(Debug, Clone, Copy, PartialEq, Eq, Structural)]
pub enum Surface {
    /// `tools/call`: the result envelope.
    Tool,
    /// `resources/read`: a `{contents: [..]}` body.
    Resource,
    /// `prompts/get`: a `{messages: [..]}` body.
    Prompt,
}

impl Default for Surface {
    fn default() -> (r: Surface)
        ensures
            r == Surface::Tool,
    {
        Surface::Tool
    }
}

/// The configuration word of a surface.
pub open spec fn surface_word(s: Surface) -> Seq<char> {
    match s {
        Surface::Tool => "tool"@,
        Surface::Resource => "resource"@,
        Surface::Prompt => "prompt"@,
    }
}

impl Surface {
    /// The configuration word of the surface.
    pub fn as_str(self) -> (r: &'static str)
        ensures
            r@ == surface_word(self),
    {
        match self {
            Surface::Tool => "tool",
            Surface::Resource => "resource",
            Surface::Prompt => "prompt",
        }
    }
}

/// The URI of a resource read: the binding's static one where it has one, else
/// the `uri` text among the call's arguments.
pub open spec fn resource_uri(static_uri: Option<Seq<char>>, arguments: JsonView) -> Option<
    Seq<char>,
> {
    match static_uri {
        Some(u) => Some(u),
        None => match arguments.at("uri"@) {
            JsonView::Str(u) => Some(u),
            _ => None,
        },
    }
}

/// Find the URI of a resource read.
pub fn resolve_resource_uri(static_uri: Option<&str>, arguments: &Json) -> (r: Option<String>)
    ensures
        some_text(r) == resource_uri(some_chars(static_uri), arguments@),
{
    match static_uri {
        Some(u) => Some(u.to_owned()),
        None => match arguments.get("uri") {
            Some(v) => match v.as_text() {
                Some(u) => Some(u.to_owned()),
                None => None,
            },
            None => None,
        },
    }
}

/// The text of rows: the JSON array of them.
pub open spec fn rows_text(rows: Seq<JsonView>) -> Seq<char> {
    written_text(sent_document(JsonView::Array(rows)))
}

/// The `resources/read` body for one document text.
pub open spec fn resource_body(uri: Seq<char>, text: Seq<char>) -> JsonView {
    let content = no_members().push(("uri"@, JsonView::Str(uri))).push(
        ("mimeType"@, JsonView::Str("application/json"@)),
    ).push(("text"@, JsonView::Str(text)));
    JsonView::Object(
        no_members().push(("contents"@, JsonView::Array(seq![JsonView::Object(content)]))),
    )
}

/// The text of rows.
fn text_of_rows(rows: &[Json]) -> (r: String)
    ensures
        r@ == rows_text(json_views(rows@)),
{
    json_text(&Json::array(copied(rows)))
}

/// A document text as the body of a resource.
pub fn resource_text_body(uri: &str, text: &str) -> (r: Json)
    ensures
        r@ == resource_body(uri@, text@),
        numbers_settled(r@),
{
    broadcast use {lemma_settled_push, lemma_settled_empty};

    let content = JsonObject::new().with("uri", Json::text(uri)).with(
        "mimeType",
        Json::text("application/json"),
    ).with("text", Json::text(text)).build();
    let mut contents: Vec<Json> = Vec::new();
    contents.push(content);
    assert(json_views(contents@) =~= seq![content@]);
    proof {
        lemma_settled_array(contents@);
    }
    JsonObject::new().with("contents", Json::array(contents)).build()
}

/// Shape rows into the `resources/read` body: one content, with the rows as a
/// JSON text.
pub fn resource_contents_body(uri: &str, rows: &[Json]) -> (r: Json)
    ensures
        r@ == resource_body(uri@, rows_text(json_views(rows@))),
        r@ == resource_body(
            uri@,
            written_text(sent_document(JsonView::Array(json_views(rows@)))),
        ),
        numbers_settled(r@),
{
    resource_text_body(uri, text_of_rows(rows).as_str())
}

/// The `prompts/get` body for one document text.
pub open spec fn prompt_body(text: Seq<char>) -> JsonView {
    let content = no_members().push(("type"@, JsonView::Str("text"@))).push(
        ("text"@, JsonView::Str(text)),
    );
    let message = no_members().push(("role"@, JsonView::Str("user"@))).push(
        ("content"@, JsonView::Object(content)),
    );
    JsonView::Object(
        no_members().push(("messages"@, JsonView::Array(seq![JsonView::Object(message)]))),
    )
}

/// A document text as the body of a prompt.
pub fn prompt_text_body(text: &str) -> (r: Json)
    ensures
        r@ == prompt_body(text@),
        numbers_settled(r@),
{
    broadcast use {lemma_settled_push, lemma_settled_empty};

    let content = JsonObject::new().with("type", Json::text("text")).with(
        "text",
        Json::text(text),
    ).build();
    let message = JsonObject::new().with("role", Json::text("user")).with(
        "content",
        content,
    ).build();
    let mut messages: Vec<Json> = Vec::new();
    messages.push(message);
    assert(json_views(messages@) =~= seq![message@]);
    proof {
        lemma_settled_array(messages@);
    }
    JsonObject::new().with("messages", Json::array(messages)).build()
}

/// Shape rows into the `prompts/get` body: one message, with the rows as a
/// JSON text.
pub fn prompt_messages_body(rows: &[Json]) -> (r: Json)
    ensures
        r@ == prompt_body(rows_text(json_views(rows@))),
        r@ == prompt_body(written_text(sent_document(JsonView::Array(json_views(rows@))))),
        numbers_settled(r@),
{
    prompt_text_body(text_of_rows(rows).as_str())
}

/// A page of a full result: the positions `start..end`, and the offset of the
/// page after it.
#[derive(Debug, Clone, Copy, PartialEq, Eq)]
pub struct PageWindow {
    pub start: usize,
    pub end: usize,
    pub next: Option<u64>,
}

/// The end of the page that begins at `offset`.
pub open spec fn page_end(total: nat, offset: nat, page_size: nat) -> nat {
    if offset + page_size <= total {
        offset + page_size
    } else {
        total
    }
}

/// The window is that of the page that begins at `offset`.
pub open spec fn is_page_at(total: usize, offset: u64, page_size: u64, r: PageWindow) -> bool {
    &&& r.start == (if offset <= total {
        offset as nat
    } else {
        total as nat
    })
    &&& r.end == page_end(total as nat, offset as nat, page_size as nat)
    &&& r.start <= r.end <= total
    &&& r.next == (if offset + page_size < total {
        Some((offset + page_size) as u64)
    } else {
        None
    })
}

/// The page that begins at `offset`.
pub fn page_window(total: usize, offset: u64, page_size: u64) -> (r: PageWindow)
    ensures
        is_page_at(total, offset, page_size, r),
{
    let size: u64 = total as u64;
    let start: u64 = if offset <= size {
        offset
    } else {
        size
    };
    if offset <= size && page_size < size - offset {
        let end: u64 = offset + page_size;
        PageWindow { start: start as usize, end: end as usize, next: Some(end) }
    } else {
        PageWindow { start: start as usize, end: total, next: None }
    }
}

/// The offsets of the pages that a client sees who follows the cursors from
/// `offset` on.
pub open spec fn page_starts(total: nat, offset: nat, page_size: nat) -> Seq<nat>
    decreases total - offset,
{
    if page_size > 0 && offset + page_size < total {
        seq![offset] + page_starts(total, offset + page_size, page_size)
    } else {
        seq![offset]
    }
}

/// Following the cursors from the start shows every position of the result on
/// exactly one page: each page begins where the one before it ended, the first
/// begins at the start and the last ends at the end.
pub proof fn law_pages_cover_result(total: nat, offset: nat, page_size: nat)
    requires
        page_size > 0,
        offset <= total,
    ensures
        ({
            let starts = page_starts(total, offset, page_size);
            &&& starts.len() > 0
            &&& starts[0] == offset
            &&& forall|i: int|
                0 <= i < starts.len() - 1 ==> page_end(total, #[trigger] starts[i], page_size)
                    == starts[i + 1]
            &&& page_end(total, starts.last(), page_size) == total
        }),
    decreases total - offset,
{
    let starts = page_starts(total, offset, page_size);
    if offset + page_size < total {
        law_pages_cover_result(total, offset + page_size, page_size);
        let rest = page_starts(total, offset + page_size, page_size);
        assert(starts =~= seq![offset] + rest);
        assert(starts.last() == rest.last());
        assert forall|i: int| 0 <= i < starts.len() - 1 implies page_end(
            total,
            #[trigger] starts[i],
            page_size,
        ) == starts[i + 1] by {
            if i > 0 {
                assert(starts[i] == rest[i - 1]);
                assert(starts[i + 1] == rest[i]);
            } else {
                assert(starts[1] == rest[0]);
            }
        }
    }
}

} // verus!
