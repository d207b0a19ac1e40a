//! The listing and completion queries of a binding: what is asked of BigQuery,
//! and what is made of the reply.

use vstd::prelude::*;

use crate::bigquery::{
    query_failure, reply_documents, settle_query, wire_count, QueryParameter, QueryRequest,
    QueryResponse,
};
use crate::call::{profile_request, run_request};
use crate::decimal::{decimal, law_decimal_reads_back, parse_u64, render, unsigned_value};
use crate::json::{json_views, Json, JsonView};
use crate::keyed::lookup;
use crate::outside::{json_text, sent_document, written_text};
use crate::params::{bound, json_to_bq_param, parameter_views};
use crate::plugin::{BackendError, BigQueryProfile};
use crate::surface::{page_end, page_window};
use crate::text::{borrowed, some_chars, some_text, texts};
use crate::types::CompletionConfig;

verus! {

/// What came of a query to BigQuery.
#[derive(Debug)]
pub enum Reply {
    /// There is no client.
    NotConnected(String),
    /// The reply did not come in time.
    TimedOut,
    /// The reply of `jobs.query`.
    Replied(Result<QueryResponse, String>),
}

/// What a query gives: its rows as documents, or why it failed.
pub open spec fn query_answered(
    reply: Reply,
    max_rows: nat,
    timeout_ms: u64,
    r: Result<Vec<Json>, BackendError>,
) -> bool {
    match reply {
        Reply::NotConnected(cause) => r matches Err(BackendError::Transport { message })
            && message@ == cause@,
        Reply::TimedOut => r == Err::<Vec<Json>, BackendError>(BackendError::Timeout { timeout_ms }),
        Reply::Replied(replied) => match query_failure(replied) {
            Some(failure) => r matches Err(BackendError::Transport { message }) && message@
                == failure,
            None => replied matches Ok(response) && r matches Ok(rows) && json_views(rows@)
                == reply_documents(response, max_rows),
        },
    }
}

/// The rows of a query, or why it failed.
pub fn settle_rows(reply: Reply, max_rows: usize, timeout_ms: u64) -> (r: Result<
    Vec<Json>,
    BackendError,
>)
    ensures
        query_answered(reply, max_rows as nat, timeout_ms, r),
{
    match reply {
        Reply::NotConnected(message) => Err(BackendError::Transport { message }),
        Reply::TimedOut => Err(BackendError::Timeout { timeout_ms }),
        Reply::Replied(replied) => match settle_query(replied, max_rows) {
            Ok(outcome) => Ok(outcome.rows),
            Err(message) => Err(BackendError::Transport { message }),
        },
    }
}

/// A listing query to send, and the page that is wanted of its result.
#[derive(Debug)]
pub struct ListPlan {
    pub request: QueryRequest,
    pub offset: u64,
    pub page_size: u64,
}

/// The offset that a cursor stands for: a whole number that is not negative.
/// Without a cursor the listing begins at the start.
pub open spec fn cursor_offset(cursor: Option<Seq<char>>) -> Option<u64> {
    match cursor {
        None => Some(0),
        Some(c) => match unsigned_value(c) {
            Some(n) if n <= u64::MAX => Some(n as u64),
            _ => None,
        },
    }
}

/// What a listing asks for: nothing without a listing query; else the page at
/// the cursor, which has to be one, of what the query gives as it stands.
pub open spec fn listing_planned(
    p: BigQueryProfile,
    cursor: Option<&str>,
    r: Result<Option<ListPlan>, BackendError>,
) -> bool {
    match p.list_query {
        None => r == Ok::<Option<ListPlan>, BackendError>(None),
        Some(cfg) => match cursor_offset(some_chars(cursor)) {
            None => r matches Err(BackendError::InvalidSpec { message }) && message@
                == "list cursor '"@ + cursor->0@ + "' is not a non-negative integer"@,
            Some(offset) => r matches Ok(Some(plan)) && {
                &&& plan.offset == offset
                &&& plan.page_size == cfg.page_size
                &&& profile_request(plan.request, p, cfg.sql@, Seq::empty())
                &&& plan.request.max_results == Some(wire_count(p.max_rows as nat))
                &&& plan.request.dry_run is None
            },
        },
    }
}

/// Prepare a listing. A binding without a listing query has nothing to list.
/// The statement goes as it stands, without parameters.
pub fn plan_listing(p: &BigQueryProfile, cursor: Option<&str>) -> (r: Result<
    Option<ListPlan>,
    BackendError,
>)
    ensures
        listing_planned(*p, cursor, r),
{
    match &p.list_query {
        None => Ok(None),
        Some(cfg) => {
            let offset: u64 = match cursor {
                None => 0,
                Some(c) => match parse_u64(c) {
                    Some(n) => n,
                    None => {
                        let mut message = "list cursor '".to_owned();
                        message.append(c);
                        message.append("' is not a non-negative integer");
                        return Err(BackendError::InvalidSpec { message });
                    },
                },
            };
            let parameters: Vec<QueryParameter> = Vec::new();
            assert(parameters@ =~= Seq::<QueryParameter>::empty());
            let request = run_request(p, cfg.sql.as_str(), p.max_rows, parameters);
            Ok(Some(ListPlan { request, offset, page_size: cfg.page_size }))
        },
    }
}

/// A resource of a listing.
#[derive(Debug, PartialEq)]
pub struct ListedResource {
    pub uri: String,
    pub name: Option<String>,
    pub description: Option<String>,
    pub mime_type: Option<String>,
}

/// A resource of a listing as a mathematical value.
pub struct ListedView {
    pub uri: Seq<char>,
    pub name: Option<Seq<char>>,
    pub description: Option<Seq<char>>,
    pub mime_type: Option<Seq<char>>,
}

impl View for ListedResource {
    type V = ListedView;

    open spec fn view(&self) -> ListedView {
        ListedView {
            uri: self.uri@,
            name: some_text(self.name),
            description: some_text(self.description),
            mime_type: some_text(self.mime_type),
        }
    }
}

/// The text in a column of a row, where there is one.
pub open spec fn column_text(row: JsonView, column: Seq<char>) -> Option<Seq<char>> {
    match row.at(column) {
        JsonView::Str(s) => Some(s),
        _ => None,
    }
}

/// The resource that a row names, where it has a URI.
pub open spec fn row_resource(row: JsonView) -> Option<ListedView> {
    match column_text(row, "uri"@) {
        Some(uri) => Some(
            ListedView {
                uri,
                name: column_text(row, "name"@),
                description: column_text(row, "description"@),
                mime_type: column_text(row, "mime_type"@),
            },
        ),
        None => None,
    }
}

/// The resources that the first `n` rows name, in their order.
pub open spec fn listed(rows: Seq<JsonView>, n: int) -> Seq<ListedView>
    decreases n,
{
    if n <= 0 {
        Seq::empty()
    } else {
        match row_resource(rows[n - 1]) {
            Some(resource) => listed(rows, n - 1).push(resource),
            None => listed(rows, n - 1),
        }
    }
}

/// The resources as mathematical values.
pub open spec fn listed_views(rs: Seq<ListedResource>) -> Seq<ListedView> {
    Seq::new(rs.len(), |i: int| rs[i]@)
}

/// A page of a listing.
#[derive(Debug)]
pub struct ResourcePage {
    pub resources: Vec<ListedResource>,
    pub next_cursor: Option<String>,
}

fn text_in(row: &Json, column: &str) -> (r: Option<String>)
    ensures
        some_text(r) == column_text(row@, column@),
{
    match row.get(column) {
        Some(v) => match v.as_text() {
            Some(s) => Some(s.to_owned()),
            None => None,
        },
        None => None,
    }
}

fn resource_in(row: &Json) -> (r: Option<ListedResource>)
    ensures
        match r {
            Some(resource) => row_resource(row@) == Some(resource@),
            None => row_resource(row@) is None,
        },
{
    match text_in(row, "uri") {
        Some(uri) => Some(
            ListedResource {
                uri,
                name: text_in(row, "name"),
                description: text_in(row, "description"),
                mime_type: text_in(row, "mime_type"),
            },
        ),
        None => None,
    }
}

/// The rows on the page that begins at `offset`.
pub open spec fn page_rows(rows: Seq<JsonView>, offset: nat, page_size: nat) -> Seq<JsonView> {
    if offset <= rows.len() {
        rows.subrange(offset as int, page_end(rows.len(), offset, page_size) as int)
    } else {
        Seq::empty()
    }
}

/// The cursor of the page after the one that begins at `offset`.
pub open spec fn page_cursor(total: nat, offset: nat, page_size: nat) -> Option<Seq<char>> {
    if offset + page_size < total {
        Some(decimal(offset + page_size))
    } else {
        None
    }
}

/// Take one page of a full result: the resources that its rows name, and the
/// cursor of the page after it.
pub fn page_from_full_result(rows: &[Json], offset: u64, page_size: u64) -> (r: ResourcePage)
    ensures
        listed_views(r.resources@) == ({
            let on_page = page_rows(json_views(rows@), offset as nat, page_size as nat);
            listed(on_page, on_page.len() as int)
        }),
        some_text(r.next_cursor) == page_cursor(rows@.len(), offset as nat, page_size as nat),
{
    let window = page_window(rows.len(), offset, page_size);
    let ghost on_page = page_rows(json_views(rows@), offset as nat, page_size as nat);
    let mut resources: Vec<ListedResource> = Vec::new();
    let mut i: usize = window.start;
    assert(listed_views(resources@) =~= Seq::<ListedView>::empty());
    assert(on_page.len() == window.end - window.start);
    while i < window.end
        invariant
            window.start <= i <= window.end <= rows@.len(),
            on_page == page_rows(json_views(rows@), offset as nat, page_size as nat),
            on_page.len() == window.end - window.start,
            window.start < window.end ==> window.start == offset && offset <= rows@.len()
                && window.end == page_end(rows@.len(), offset as nat, page_size as nat),
            listed_views(resources@) == listed(on_page, i - window.start),
        decreases window.end - i,
    {
        assert(on_page[i - window.start] == rows@[i as int]@);
        let ghost before = listed_views(resources@);
        if let Some(resource) = resource_in(&rows[i]) {
            resources.push(resource);
            assert(listed_views(resources@) =~= before.push(resource@));
        }
        i = i + 1;
    }
    let next_cursor = match window.next {
        Some(n) => Some(render(n as u128)),
        None => None,
    };
    ResourcePage { resources, next_cursor }
}

/// What the reply to a listing query gives: the resources on the page and the
/// cursor of the next one, or why the query failed.
pub open spec fn listing_settled(
    p: BigQueryProfile,
    offset: u64,
    page_size: u64,
    reply: Reply,
    r: Result<ResourcePage, BackendError>,
) -> bool {
    match r {
        Err(e) => query_answered(
            reply,
            p.max_rows as nat,
            p.timeout_ms,
            Err::<Vec<Json>, BackendError>(e),
        ),
        Ok(page) => reply matches Reply::Replied(Ok(response)) && {
            let rows = reply_documents(response, p.max_rows as nat);
            let on_page = page_rows(rows, offset as nat, page_size as nat);
            &&& response.job_complete
            &&& listed_views(page.resources@) == listed(on_page, on_page.len() as int)
            &&& some_text(page.next_cursor) == page_cursor(
                rows.len(),
                offset as nat,
                page_size as nat,
            )
        },
    }
}

/// Turn the reply to a listing query into a page.
pub fn settle_listing(p: &BigQueryProfile, offset: u64, page_size: u64, reply: Reply) -> (r: Result<
    ResourcePage,
    BackendError,
>)
    ensures
        listing_settled(*p, offset, page_size, reply, r),
{
    match settle_rows(reply, p.max_rows, p.timeout_ms) {
        Ok(rows) => {
            assert(json_views(rows@).len() == rows@.len());
            Ok(page_from_full_result(rows.as_slice(), offset, page_size))
        },
        Err(e) => Err(e),
    }
}

/// The cursor of a page leads to the page that begins where that one ends.
pub proof fn law_cursor_leads_on(total: nat, offset: nat, page_size: nat)
    requires
        total <= u64::MAX,
        page_cursor(total, offset, page_size) is Some,
    ensures
        cursor_offset(page_cursor(total, offset, page_size)) == Some(
            page_end(total, offset, page_size) as u64,
        ),
{
    law_decimal_reads_back((offset + page_size) as int);
}

/// What a client collects who follows the cursors from `offset` on: the
/// resources on each page, one page after the other.
pub open spec fn collected(rows: Seq<JsonView>, offset: nat, page_size: nat) -> Seq<ListedView>
    decreases rows.len() - offset,
{
    let on_page = page_rows(rows, offset, page_size);
    let here = listed(on_page, on_page.len() as int);
    if page_size > 0 && page_cursor(rows.len(), offset, page_size) is Some {
        here + collected(rows, offset + page_size, page_size)
    } else {
        here
    }
}

/// The resources of rows in two parts are those of the one and of the other.
proof fn lemma_listed_parts(a: Seq<JsonView>, b: Seq<JsonView>, n: int)
    requires
        0 <= n <= b.len(),
    ensures
        listed(a + b, a.len() + n) == listed(a, a.len() as int) + listed(b, n),
    decreases n,
{
    if n == 0 {
        lemma_listed_prefix(a, b, a.len() as int);
        assert(listed(a, a.len() as int) + listed(b, 0) =~= listed(a, a.len() as int));
    } else {
        lemma_listed_parts(a, b, n - 1);
        assert((a + b)[a.len() + n - 1] == b[n - 1]);
        if let Some(resource) = row_resource(b[n - 1]) {
            assert((listed(a, a.len() as int) + listed(b, n - 1)).push(resource) =~= listed(
                a,
                a.len() as int,
            ) + listed(b, n - 1).push(resource));
        }
    }
}

/// What the first rows name does not depend on what follows them.
proof fn lemma_listed_prefix(a: Seq<JsonView>, b: Seq<JsonView>, n: int)
    requires
        0 <= n <= a.len(),
    ensures
        listed(a + b, n) == listed(a, n),
    decreases n,
{
    if n > 0 {
        lemma_listed_prefix(a, b, n - 1);
        assert((a + b)[n - 1] == a[n - 1]);
    }
}

/// Following the cursors from the start lists every resource of the full result
/// exactly once and in its order.
pub proof fn law_pages_list_everything(rows: Seq<JsonView>, page_size: nat)
    requires
        page_size > 0,
    ensures
        collected(rows, 0, page_size) == listed(rows, rows.len() as int),
{
    lemma_collected(rows, 0, page_size);
    assert(rows.skip(0) =~= rows);
}

/// From `offset` on, the pages list what the rows from there on name.
proof fn lemma_collected(rows: Seq<JsonView>, offset: nat, page_size: nat)
    requires
        page_size > 0,
        offset <= rows.len(),
    ensures
        collected(rows, offset, page_size) == listed(
            rows.skip(offset as int),
            rows.len() - offset,
        ),
    decreases rows.len() - offset,
{
    let on_page = page_rows(rows, offset, page_size);
    if offset + page_size < rows.len() {
        lemma_collected(rows, offset + page_size, page_size);
        let rest = rows.skip((offset + page_size) as int);
        assert(rows.skip(offset as int) =~= on_page + rest);
        lemma_listed_parts(on_page, rest, rest.len() as int);
    } else {
        assert(rows.skip(offset as int) =~= on_page);
    }
}

/// A completion query to send, and the cap on its candidates.
#[derive(Debug)]
pub struct CompletionPlan {
    pub request: QueryRequest,
    pub max: usize,
}

/// The cap on the candidates of a completion query.
pub open spec fn completion_cap(cfg: CompletionConfig) -> nat {
    match cfg.max_results {
        Some(n) => n as nat,
        None => 100,
    }
}

/// What a completion asks for: nothing without a completion query; else what
/// the query gives as it stands for the typed prefix, up to its cap.
pub open spec fn completion_planned(
    p: BigQueryProfile,
    variable_name: Seq<char>,
    prefix: Seq<char>,
    r: Option<CompletionPlan>,
) -> bool {
    match lookup(p.variable_completions@, variable_name) {
        None => r is None,
        Some(cfg) => r matches Some(plan) && {
            &&& plan.max == completion_cap(cfg)
            &&& parameter_views(plan.request.query_parameters@) == bound(
                seq![JsonView::Str(prefix)],
            )
            &&& profile_request(plan.request, p, cfg.sql@, plan.request.query_parameters@)
            &&& plan.request.max_results == Some(wire_count(completion_cap(cfg)))
            &&& plan.request.dry_run is None
        },
    }
}

/// Prepare a completion. A variable without a completion query has no
/// candidates. The typed prefix goes along as one text parameter, beside the
/// statement as it stands.
pub fn plan_completion(p: &BigQueryProfile, variable_name: &str, prefix: &str) -> (r: Option<
    CompletionPlan,
>)
    ensures
        completion_planned(*p, variable_name@, prefix@, r),
{
    match p.variable_completions.get(variable_name) {
        None => None,
        Some(cfg) => {
            let max: usize = match cfg.max_results {
                Some(n) => n as usize,
                None => 100,
            };
            let mut parameters: Vec<QueryParameter> = Vec::new();
            if let Ok(parameter) = json_to_bq_param(&Json::text(prefix)) {
                parameters.push(parameter);
            }
            assert(parameter_views(parameters@) =~= bound(seq![JsonView::Str(prefix@)]));
            let request = run_request(p, cfg.sql.as_str(), max, parameters);
            Some(CompletionPlan { request, max })
        },
    }
}

/// The name of the first column.
pub open spec fn first_column(rows: Seq<JsonView>) -> Option<Seq<char>> {
    if rows.len() > 0 {
        match rows[0] {
            JsonView::Object(ms) if ms.len() > 0 => Some(ms[0].0),
            _ => None,
        }
    } else {
        None
    }
}

/// The name of the first column.
pub fn first_column_name(rows: &[Json]) -> (r: Option<String>)
    ensures
        some_text(r) == first_column(json_views(rows@)),
{
    if rows.len() == 0 {
        return None;
    }
    assert(json_views(rows@)[0] == rows@[0]@);
    match &rows[0] {
        Json::Object(ms) => {
            if ms.len() == 0 {
                None
            } else {
                Some(ms[0].0.clone())
            }
        },
        _ => None,
    }
}

/// A candidate: a text as it stands, another value as JSON text; null is none.
pub open spec fn candidate(value: Option<JsonView>) -> Option<Seq<char>> {
    match value {
        None => None,
        Some(JsonView::Null) => None,
        Some(JsonView::Str(s)) => Some(s),
        Some(v) => Some(written_text(sent_document(v))),
    }
}

/// A candidate: a text as it stands, another value as JSON text; null is none.
pub fn candidate_text(value: Option<&Json>) -> (r: Option<String>)
    ensures
        some_text(r) == candidate(
            match value {
                Some(v) => Some(v@),
                None => None,
            },
        ),
{
    match value {
        None => None,
        Some(v) => match v {
            Json::Null => None,
            Json::String(s) => Some(s.clone()),
            _ => Some(json_text(v)),
        },
    }
}

/// The candidates in a column of the first `n` rows, at most `max` of them.
pub open spec fn candidates(rows: Seq<JsonView>, column: Seq<char>, max: nat, n: int) -> Seq<
    Seq<char>,
>
    decreases n,
{
    if n <= 0 {
        Seq::empty()
    } else {
        let before = candidates(rows, column, max, n - 1);
        match candidate(rows[n - 1].get(column)) {
            Some(text) if before.len() < max => before.push(text),
            _ => before,
        }
    }
}

/// The candidates that rows give: those in the named column, at most `max`.
pub open spec fn completion_values(
    rows: Seq<JsonView>,
    column: Option<Seq<char>>,
    max: nat,
) -> Seq<Seq<char>> {
    match column {
        Some(name) => candidates(rows, name, max, rows.len() as int),
        None => Seq::empty(),
    }
}

/// Collect the candidates in the named column, at most `max` of them.
pub fn rows_to_completion_values(rows: &[Json], column: Option<&str>, max: usize) -> (r: Vec<String>)
    ensures
        texts(r@) == completion_values(json_views(rows@), some_chars(column), max as nat),
{
    let mut out: Vec<String> = Vec::new();
    assert(texts(out@) =~= Seq::<Seq<char>>::empty());
    let name = match column {
        Some(name) => name,
        None => {
            return out;
        },
    };
    let ghost documents = json_views(rows@);
    let mut i: usize = 0;
    while i < rows.len()
        invariant
            i <= rows@.len(),
            documents == json_views(rows@),
            texts(out@) == candidates(documents, name@, max as nat, i as int),
        decreases rows.len() - i,
    {
        assert(documents[i as int] == rows@[i as int]@);
        let ghost before = texts(out@);
        let found = candidate_text(rows[i].get(name));
        if let Some(text) = found {
            if out.len() < max {
                out.push(text);
                assert(texts(out@) =~= before.push(text@));
            }
        }
        i = i + 1;
    }
    out
}

/// What the reply to a completion query gives: the candidates in the first
/// column, or why the query failed.
pub open spec fn completion_settled(
    p: BigQueryProfile,
    max: usize,
    reply: Reply,
    r: Result<Vec<String>, BackendError>,
) -> bool {
    match r {
        Err(e) => query_answered(
            reply,
            max as nat,
            p.timeout_ms,
            Err::<Vec<Json>, BackendError>(e),
        ),
        Ok(values) => reply matches Reply::Replied(Ok(response)) && {
            let rows = reply_documents(response, max as nat);
            &&& response.job_complete
            &&& texts(values@) == completion_values(rows, first_column(rows), max as nat)
        },
    }
}

/// Turn the reply to a completion query into candidates: the values of the
/// first column.
pub fn settle_completion(p: &BigQueryProfile, max: usize, reply: Reply) -> (r: Result<
    Vec<String>,
    BackendError,
>)
    ensures
        completion_settled(*p, max, reply, r),
{
    match settle_rows(reply, max, p.timeout_ms) {
        Ok(rows) => {
            let column = first_column_name(rows.as_slice());
            Ok(
                rows_to_completion_values(
                    rows.as_slice(),
                    borrowed(&column),
                    max,
                ),
            )
        },
        Err(e) => Err(e),
    }
}

/// No more candidates are returned than the cap allows, nor more than there are
/// rows.
pub proof fn law_candidates_are_capped(rows: Seq<JsonView>, column: Seq<char>, max: nat, n: int)
    requires
        0 <= n,
    ensures
        candidates(rows, column, max, n).len() <= max,
        candidates(rows, column, max, n).len() <= n,
    decreases n,
{
    if n > 0 {
        law_candidates_are_capped(rows, column, max, n - 1);
    }
}

} // verus!
