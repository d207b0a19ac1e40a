//! What listings and completions give: pages by position, cursors, and
//! candidates in their order.

use vstd::prelude::*;

use crate::bigquery::{record_json, record_members, QueryResponse};
use crate::decimal::{all_digits, decimal, digits_value, law_decimal_reads_back};
use crate::json::{json_views, lemma_put_positions, Json, JsonView};
use crate::keyed::lookup;
use crate::laws::answers::are_kept_rows;
use crate::laws::rows::{columns_of, page_of};
use crate::laws::texts::law_numbers_are_digits_behind_a_sign;
use crate::listing::{
    candidate, candidates, completion_cap, completion_planned, completion_settled,
    completion_values, cursor_offset, first_column, listed, listed_views, listing_planned,
    listing_settled, page_cursor, page_rows, query_answered, row_resource, CompletionPlan,
    ListPlan, ListedResource, Reply, ResourcePage,
};
use crate::outside::{sent_document, written_text};
use crate::params::{bound, lowered, parameter_views};
use crate::plugin::{BackendError, BigQueryProfile};
use crate::surface::{is_page_at, page_end, PageWindow};
use crate::table::{TableFieldSchema, Tuple};
use crate::text::texts;
use crate::types::CompletionConfig;

verus! {

/// A listing or completion query gives rows exactly where a reply came, the call
/// went through and the job completed. Else it gives why not: no client by its
/// own words, no reply in time as a timeout, a failed call by its cause.
pub proof fn law_query_gives_rows_or_why_not(
    reply: Reply,
    max_rows: nat,
    timeout_ms: u64,
    r: Result<Vec<Json>, BackendError>,
)
    requires
        query_answered(reply, max_rows, timeout_ms, r),
    ensures
        r is Ok <==> (reply matches Reply::Replied(Ok(response)) && response.job_complete),
        reply matches Reply::NotConnected(cause) ==> (r matches Err(
            BackendError::Transport { message },
        ) && message@ == cause@),
        reply is TimedOut ==> (r matches Err(BackendError::Timeout { timeout_ms: t }) && t
            == timeout_ms),
        reply matches Reply::Replied(Err(cause)) ==> (r matches Err(
            BackendError::Transport { message },
        ) && message@ == "BigQuery query failed: "@ + cause@),
        reply matches Reply::Replied(Ok(response)) ==> (!response.job_complete ==> (r matches Err(
            BackendError::Transport { message },
        ) && message@ == "BigQuery query timed out: job did not complete"@)),
        reply matches Reply::Replied(Ok(response)) ==> (r matches Ok(rows) ==> are_kept_rows(
            json_views(rows@),
            response,
            max_rows,
        )),
{
}

/// Without a cursor a listing begins at the start; with the digits of a number,
/// at that number. A cursor that is not a number, or one too large, is refused.
pub proof fn law_cursors_are_offsets(cursor: Seq<char>, n: nat)
    ensures
        cursor_offset(None) == Some(0u64),
        n <= u64::MAX ==> cursor_offset(Some(decimal(n))) == Some(n as u64),
        n > u64::MAX ==> cursor_offset(Some(decimal(n))) is None,
        all_digits(cursor) && digits_value(cursor) <= u64::MAX ==> cursor_offset(Some(cursor))
            == Some(digits_value(cursor) as u64),
        cursor.len() == 0 ==> cursor_offset(Some(cursor)) is None,
        cursor.len() > 0 && cursor[0] != '+' && !('0' <= cursor[0] <= '9') ==> cursor_offset(
            Some(cursor),
        ) is None,
        forall|i: int|
            0 < i < cursor.len() && !('0' <= #[trigger] cursor[i] <= '9') ==> cursor_offset(
                Some(cursor),
            ) is None,
{
    law_decimal_reads_back(n as int);
    law_numbers_are_digits_behind_a_sign(cursor);
    if cursor.len() > 0 && cursor[0] == '-' {
        assert(!all_digits(cursor));
    }
}

/// A page holds the rows from its offset on, in their order: as many as it has
/// room for, or all that are left.
pub proof fn law_pages_by_position(rows: Seq<JsonView>, offset: nat, page_size: nat)
    ensures
        page_rows(rows, offset, page_size).len() <= page_size,
        offset >= rows.len() ==> page_rows(rows, offset, page_size).len() == 0,
        offset < rows.len() ==> page_rows(rows, offset, page_size).len() == page_size || offset
            + page_rows(rows, offset, page_size).len() == rows.len(),
        offset + page_rows(rows, offset, page_size).len() <= rows.len() || offset >= rows.len(),
        forall|i: int|
            0 <= i < page_rows(rows, offset, page_size).len() ==> #[trigger] page_rows(
                rows,
                offset,
                page_size,
            )[i] == rows[offset + i],
{
}

/// A page ends behind its last position, and never behind the result.
pub proof fn law_pages_end(total: nat, offset: nat, page_size: nat)
    ensures
        page_end(total, offset, page_size) <= total,
        page_end(total, offset, page_size) <= offset + page_size,
        page_end(total, offset, page_size) == total || page_end(total, offset, page_size) == offset
            + page_size,
{
}

/// There is a next page exactly where rows are left behind this one; its cursor
/// is the position of the first of them, in digits.
pub proof fn law_cursor_exactly_where_rows_are_left(total: nat, offset: nat, page_size: nat)
    ensures
        page_cursor(total, offset, page_size) is Some <==> offset + page_size < total,
        page_cursor(total, offset, page_size) matches Some(cursor) ==> cursor == decimal(
            offset + page_size,
        ),
{
}

/// A row names a resource exactly where its `uri` column is a text. The resource
/// has that URI, and a name, a description and a MIME type where the columns of
/// those names hold texts.
pub proof fn law_rows_name_resources(row: JsonView)
    ensures
        row_resource(row) is Some <==> row.at("uri"@) is Str,
        row_resource(row) matches Some(r) ==> {
            &&& row.at("uri"@) == JsonView::Str(r.uri)
            &&& (r.name matches Some(t) ==> row.at("name"@) == JsonView::Str(t))
            &&& r.name is None ==> !(row.at("name"@) is Str)
            &&& (r.description matches Some(t) ==> row.at("description"@) == JsonView::Str(t))
            &&& r.description is None ==> !(row.at("description"@) is Str)
            &&& (r.mime_type matches Some(t) ==> row.at("mime_type"@) == JsonView::Str(t))
            &&& r.mime_type is None ==> !(row.at("mime_type"@) is Str)
        },
{
}

/// One more row adds its resource behind the others, and nothing where it names
/// none; no rows name no resources.
pub proof fn law_resources_follow_the_rows(rows: Seq<JsonView>, last: JsonView)
    ensures
        listed(Seq::empty(), 0).len() == 0,
        row_resource(last) matches Some(r) ==> listed(rows.push(last), rows.len() as int + 1)
            == listed(rows, rows.len() as int).push(r),
        row_resource(last) is None ==> listed(rows.push(last), rows.len() as int + 1) == listed(
            rows,
            rows.len() as int,
        ),
{
    lemma_listed_first(rows, last, rows.len() as int);
}

/// One more row leaves the resources of the first ones as they are.
proof fn lemma_listed_first(rows: Seq<JsonView>, last: JsonView, n: int)
    requires
        0 <= n <= rows.len(),
    ensures
        listed(rows.push(last), n) == listed(rows, n),
    decreases n,
{
    if n > 0 {
        lemma_listed_first(rows, last, n - 1);
        assert(rows.push(last)[n - 1] == rows[n - 1]);
    }
}

/// Where every row has a text in its `uri` column, there are as many resources
/// as rows, and the one in each place has the URI of the row in that place.
pub proof fn law_every_row_with_a_uri_is_listed(rows: Seq<JsonView>)
    requires
        forall|i: int| 0 <= i < rows.len() ==> (#[trigger] rows[i]).at("uri"@) is Str,
    ensures
        listed(rows, rows.len() as int).len() == rows.len(),
        forall|i: int|
            0 <= i < rows.len() ==> rows[i].at("uri"@) == JsonView::Str(
                (#[trigger] listed(rows, rows.len() as int)[i]).uri,
            ),
{
    lemma_every_row_listed(rows, rows.len() as int);
}

/// Each of the first `n` rows is listed in its place.
proof fn lemma_every_row_listed(rows: Seq<JsonView>, n: int)
    requires
        0 <= n <= rows.len(),
        forall|i: int| 0 <= i < rows.len() ==> (#[trigger] rows[i]).at("uri"@) is Str,
    ensures
        listed(rows, n).len() == n,
        forall|i: int|
            0 <= i < n ==> rows[i].at("uri"@) == JsonView::Str((#[trigger] listed(rows, n)[i]).uri),
    decreases n,
{
    if n > 0 {
        lemma_every_row_listed(rows, n - 1);
        assert(rows[n - 1].at("uri"@) is Str);
    }
}

/// Listed resources stand for what they hold, each in its place.
pub proof fn law_resources_stand_for_themselves(rs: Seq<ListedResource>)
    ensures
        listed_views(rs).len() == rs.len(),
        forall|i: int|
            0 <= i < rs.len() ==> (#[trigger] listed_views(rs)[i]).uri == rs[i].uri@,
        forall|i: int|
            0 <= i < rs.len() ==> match rs[i].name {
                Some(t) => (#[trigger] listed_views(rs)[i]).name == Some(t@),
                None => listed_views(rs)[i].name is None,
            },
        forall|i: int|
            0 <= i < rs.len() ==> match rs[i].description {
                Some(t) => (#[trigger] listed_views(rs)[i]).description == Some(t@),
                None => listed_views(rs)[i].description is None,
            },
        forall|i: int|
            0 <= i < rs.len() ==> match rs[i].mime_type {
                Some(t) => (#[trigger] listed_views(rs)[i]).mime_type == Some(t@),
                None => listed_views(rs)[i].mime_type is None,
            },
{
}

/// The cap on candidates is the configured one, and 100 where there is none.
pub proof fn law_completion_cap(cfg: CompletionConfig)
    ensures
        cfg.max_results matches Some(n) ==> completion_cap(cfg) == n,
        cfg.max_results is None ==> completion_cap(cfg) == 100,
{
}

/// A text is a candidate as it stands and any other value by its JSON text; null
/// and what is not there are none.
pub proof fn law_candidates_by_kind(value: Option<JsonView>)
    ensures
        value is None ==> candidate(value) is None,
        value matches Some(v) ==> {
            &&& v is Null ==> candidate(value) is None
            &&& (v matches JsonView::Str(s) ==> candidate(value) == Some(s))
            &&& !(v is Null) && !(v is Str) ==> candidate(value) == Some(
                written_text(sent_document(v)),
            )
        },
{
}

/// One more row adds its candidate behind the others where there is room and it
/// has one, and else adds nothing; no rows give no candidates.
pub proof fn law_candidates_follow_the_rows(
    rows: Seq<JsonView>,
    last: JsonView,
    column: Seq<char>,
    max: nat,
)
    ensures
        completion_values(Seq::empty(), Some(column), max).len() == 0,
        completion_values(rows, None, max).len() == 0,
        ({
            let before = completion_values(rows, Some(column), max);
            let after = completion_values(rows.push(last), Some(column), max);
            &&& before.len() >= max ==> after == before
            &&& candidate(last.get(column)) is None ==> after == before
            &&& before.len() < max ==> (candidate(last.get(column)) matches Some(text) ==> after
                == before.push(text))
        }),
{
    lemma_candidates_first(rows, last, column, max, rows.len() as int);
}

/// One more row leaves the candidates of the first ones as they are.
proof fn lemma_candidates_first(
    rows: Seq<JsonView>,
    last: JsonView,
    column: Seq<char>,
    max: nat,
    n: int,
)
    requires
        0 <= n <= rows.len(),
    ensures
        candidates(rows.push(last), column, max, n) == candidates(rows, column, max, n),
    decreases n,
{
    if n > 0 {
        lemma_candidates_first(rows, last, column, max, n - 1);
        assert(rows.push(last)[n - 1] == rows[n - 1]);
    }
}

/// Where every row has a text in the column, the candidates are the texts of the
/// first rows in their order: of all rows, or of as many as the cap allows.
pub proof fn law_candidates_are_the_first_texts(
    rows: Seq<JsonView>,
    column: Seq<char>,
    max: nat,
)
    requires
        forall|i: int|
            0 <= i < rows.len() ==> (#[trigger] rows[i]).get(column) is Some && rows[i].get(
                column,
            )->0 is Str,
    ensures
        ({
            let values = completion_values(rows, Some(column), max);
            &&& values.len() <= max
            &&& values.len() <= rows.len()
            &&& values.len() == max || values.len() == rows.len()
            &&& forall|i: int|
                0 <= i < values.len() ==> rows[i].get(column) == Some(
                    JsonView::Str(#[trigger] values[i]),
                )
        }),
{
    lemma_candidates_are_texts(rows, column, max, rows.len() as int);
}

/// The candidates of the first `n` rows are their texts, up to the cap.
proof fn lemma_candidates_are_texts(rows: Seq<JsonView>, column: Seq<char>, max: nat, n: int)
    requires
        0 <= n <= rows.len(),
        forall|i: int|
            0 <= i < rows.len() ==> (#[trigger] rows[i]).get(column) is Some && rows[i].get(
                column,
            )->0 is Str,
    ensures
        ({
            let values = candidates(rows, column, max, n);
            &&& values.len() <= max
            &&& values.len() <= n
            &&& values.len() == max || values.len() == n
            &&& forall|i: int|
                0 <= i < values.len() ==> rows[i].get(column) == Some(
                    JsonView::Str(#[trigger] values[i]),
                )
        }),
    decreases n,
{
    if n > 0 {
        lemma_candidates_are_texts(rows, column, max, n - 1);
        assert(rows[n - 1].get(column) is Some);
    }
}

/// The column of the candidates is the first column of the query.
pub proof fn law_candidates_come_from_the_first_column(
    columns: Seq<TableFieldSchema>,
    first: Tuple,
    rows: Seq<JsonView>,
)
    requires
        rows.len() > 0,
        rows[0] == record_json(columns, first),
        columns.len() > 0,
        first.f@.len() > 0,
    ensures
        first_column(rows) == Some(columns[0].name@),
{
    let n = crate::bigquery::shared_len(columns, first.f@);
    lemma_first_member_is_first_column(columns, first, n);
}

/// The first member of a row has the name of the first column.
proof fn lemma_first_member_is_first_column(
    columns: Seq<TableFieldSchema>,
    row: Tuple,
    n: int,
)
    requires
        1 <= n <= columns.len(),
        n <= row.f@.len(),
    ensures
        record_members(columns, row.f@, n).len() > 0,
        record_members(columns, row.f@, n)[0].0 == columns[0].name@,
    decreases n,
{
    let before = record_members(columns, row.f@, n - 1);
    let value = crate::bigquery::value_json(columns[n - 1], row.f@[n - 1].v);
    lemma_put_positions(before, columns[n - 1].name@, value);
    if n > 1 {
        lemma_first_member_is_first_column(columns, row, n - 1);
        assert(crate::json::put(before, columns[n - 1].name@, value)[0].0 == before[0].0);
    } else {
        assert(before.len() == 0);
    }
}

/// A binding without a listing query has nothing to list. Another has its query
/// sent as it stands, without parameters, for as many rows as its cap allows;
/// the page begins at the cursor, or at the start without one. A cursor that is
/// not a number is refused by name.
pub proof fn law_listing_plans(
    p: BigQueryProfile,
    cursor: Option<&str>,
    r: Result<Option<ListPlan>, BackendError>,
)
    requires
        listing_planned(p, cursor, r),
    ensures
        p.list_query is None ==> r is Ok && r->Ok_0 is None,
        p.list_query is Some && cursor is None ==> r is Ok && r->Ok_0 is Some
            && r->Ok_0->0.offset == 0,
        p.list_query is Some ==> (cursor matches Some(c) ==> (all_digits(c@) && digits_value(c@)
            <= u64::MAX ==> r is Ok && r->Ok_0 is Some && r->Ok_0->0.offset == digits_value(c@))),
        p.list_query is Some ==> (cursor matches Some(c) ==> (c@.len() == 0 || (exists|i: int|
            0 < i < c@.len() && !('0' <= #[trigger] c@[i] <= '9')) || (c@[0] != '+' && !('0' <= c@[0]
            <= '9')) ==> (r matches Err(BackendError::InvalidSpec { message }) && message@
            == "list cursor '"@ + c@ + "' is not a non-negative integer"@))),
        r matches Ok(Some(plan)) ==> {
            &&& p.list_query matches Some(cfg) && {
                &&& plan.page_size == cfg.page_size
                &&& plan.request.query@ == cfg.sql@
            }
            &&& plan.request.query_parameters@.len() == 0
            &&& plan.request.parameter_mode is None
            &&& plan.request.dry_run is None
            &&& p.max_rows <= i64::MAX ==> plan.request.max_results == Some(p.max_rows as i64)
            &&& p.max_rows > i64::MAX ==> plan.request.max_results == Some(i64::MAX)
            &&& plan.request.use_legacy_sql == p.use_legacy_sql
            &&& p.timeout_ms <= i64::MAX ==> plan.request.timeout_ms == Some(p.timeout_ms as i64)
        },
{
    if let Some(c) = cursor {
        law_cursors_are_offsets(c@, 0);
    }
}

/// A listing gives a page exactly where the query gave rows. Where every row
/// has a text in its `uri` column, the page holds the resources of the rows from
/// its offset on, in their order, as many as it has room for or all that are
/// left. It has a cursor exactly where rows are left behind it: their position,
/// in digits.
pub proof fn law_listing_pages(
    p: BigQueryProfile,
    offset: u64,
    page_size: u64,
    reply: Reply,
    r: Result<ResourcePage, BackendError>,
    response: QueryResponse,
    rows: Seq<JsonView>,
)
    requires
        listing_settled(p, offset, page_size, reply, r),
        reply == Reply::Replied(Ok(response)),
        are_kept_rows(rows, response, p.max_rows as nat),
        forall|i: int| 0 <= i < rows.len() ==> (#[trigger] rows[i]).at("uri"@) is Str,
    ensures
        r is Ok <==> response.job_complete,
        r matches Ok(page) ==> {
            let n = page.resources@.len();
            &&& offset >= rows.len() ==> n == 0
            &&& offset < rows.len() ==> n <= page_size && offset + n <= rows.len() && (n
                == page_size || offset + n == rows.len())
            &&& forall|i: int|
                0 <= i < n ==> rows[offset + i].at("uri"@) == JsonView::Str(
                    (#[trigger] page.resources@[i]).uri@,
                )
            &&& page.next_cursor is Some <==> offset + page_size < rows.len()
            &&& (page.next_cursor matches Some(cursor) ==> cursor@ == decimal(
                (offset + page_size) as nat,
            ))
        },
{
    assert(rows =~= crate::bigquery::reply_documents(response, p.max_rows as nat));
    if let Ok(page) = r {
        let on_page = page_rows(rows, offset as nat, page_size as nat);
        law_pages_by_position(rows, offset as nat, page_size as nat);
        assert forall|i: int| 0 <= i < on_page.len() implies (#[trigger] on_page[i]).at("uri"@)
            is Str by {
            assert(on_page[i] == rows[offset + i]);
        }
        law_every_row_with_a_uri_is_listed(on_page);
        law_resources_stand_for_themselves(page.resources@);
        assert forall|i: int| 0 <= i < page.resources@.len() implies rows[offset + i].at("uri"@)
            == JsonView::Str((#[trigger] page.resources@[i]).uri@) by {
            assert(listed_views(page.resources@)[i].uri == page.resources@[i].uri@);
            assert(on_page[i] == rows[offset + i]);
        }
    }
}

/// A listing that failed says why as any other query does.
pub proof fn law_listing_failures(
    p: BigQueryProfile,
    offset: u64,
    page_size: u64,
    reply: Reply,
    r: Result<ResourcePage, BackendError>,
)
    requires
        listing_settled(p, offset, page_size, reply, r),
    ensures
        !(reply is Replied) ==> r is Err,
        reply matches Reply::NotConnected(cause) ==> (r matches Err(
            BackendError::Transport { message },
        ) && message@ == cause@),
        reply is TimedOut ==> (r matches Err(BackendError::Timeout { timeout_ms }) && timeout_ms
            == p.timeout_ms),
        reply matches Reply::Replied(Err(cause)) ==> (r matches Err(
            BackendError::Transport { message },
        ) && message@ == "BigQuery query failed: "@ + cause@),
        r is Ok ==> (reply matches Reply::Replied(Ok(response)) && response.job_complete),
{
}

/// A variable without a completion query has no candidates. Another has its
/// query sent as it stands, with the typed prefix as its one text parameter, for
/// as many rows as its cap allows.
pub proof fn law_completion_plans(
    p: BigQueryProfile,
    variable_name: Seq<char>,
    prefix: Seq<char>,
    r: Option<CompletionPlan>,
)
    requires
        completion_planned(p, variable_name, prefix, r),
    ensures
        r is Some <==> lookup(p.variable_completions@, variable_name) is Some,
        r matches Some(plan) ==> {
            let cfg = lookup(p.variable_completions@, variable_name)->0;
            let parameters = plan.request.query_parameters@;
            &&& (cfg.max_results matches Some(n) ==> plan.max == n && plan.request.max_results
                == Some(n as i64))
            &&& cfg.max_results is None ==> plan.max == 100 && plan.request.max_results == Some(
                100i64,
            )
            &&& plan.request.query@ == cfg.sql@
            &&& plan.request.dry_run is None
            &&& parameters.len() == 1
            &&& parameters[0].parameter_type@ == "STRING"@
            &&& parameters[0].value matches Some(text) && text@ == prefix
            &&& plan.request.parameter_mode matches Some(mode) && mode@ == "POSITIONAL"@
        },
{
    if let Some(plan) = r {
        let parameters = plan.request.query_parameters@;
        assert(parameter_views(parameters).len() == parameters.len());
        assert(bound(seq![JsonView::Str(prefix)]).len() == 1);
        assert(parameter_views(parameters)[0] == parameters[0]@);
        assert(bound(seq![JsonView::Str(prefix)])[0] == lowered(JsonView::Str(prefix)));
    }
}

/// A completion gives candidates exactly where the query gave rows. Where every
/// row has a text in the first column, they are those texts, in the order of the
/// rows.
pub proof fn law_completion_candidates(
    p: BigQueryProfile,
    max: usize,
    reply: Reply,
    r: Result<Vec<String>, BackendError>,
    response: QueryResponse,
    rows: Seq<JsonView>,
)
    requires
        completion_settled(p, max, reply, r),
        reply == Reply::Replied(Ok(response)),
        are_kept_rows(rows, response, max as nat),
        columns_of(response).len() > 0,
        rows.len() > 0 ==> page_of(response)[0].f@.len() > 0,
        forall|i: int|
            0 <= i < rows.len() ==> (#[trigger] rows[i]).get(columns_of(response)[0].name@) is Some
                && rows[i].get(columns_of(response)[0].name@)->0 is Str,
    ensures
        r is Ok <==> response.job_complete,
        r matches Ok(values) ==> {
            &&& values@.len() == rows.len()
            &&& forall|i: int|
                0 <= i < rows.len() ==> rows[i].get(columns_of(response)[0].name@) == Some(
                    JsonView::Str((#[trigger] values@[i])@),
                )
        },
{
    assert(rows =~= crate::bigquery::reply_documents(response, max as nat));
    if let Ok(values) = r {
        assert(texts(values@).len() == values@.len());
        if rows.len() > 0 {
            let column = columns_of(response)[0].name@;
            law_candidates_come_from_the_first_column(
                columns_of(response),
                page_of(response)[0],
                rows,
            );
            law_candidates_are_the_first_texts(rows, column, max as nat);
            assert forall|i: int| 0 <= i < rows.len() implies rows[i].get(column) == Some(
                JsonView::Str((#[trigger] values@[i])@),
            ) by {
                assert(texts(values@)[i] == values@[i]@);
            }
        }
    }
}

/// A completion that failed says why as any other query does.
pub proof fn law_completion_failures(
    p: BigQueryProfile,
    max: usize,
    reply: Reply,
    r: Result<Vec<String>, BackendError>,
)
    requires
        completion_settled(p, max, reply, r),
    ensures
        !(reply is Replied) ==> r is Err,
        reply matches Reply::NotConnected(cause) ==> (r matches Err(
            BackendError::Transport { message },
        ) && message@ == cause@),
        reply is TimedOut ==> (r matches Err(BackendError::Timeout { timeout_ms }) && timeout_ms
            == p.timeout_ms),
        reply matches Reply::Replied(Err(cause)) ==> (r matches Err(
            BackendError::Transport { message },
        ) && message@ == "BigQuery query failed: "@ + cause@),
        r is Ok ==> (reply matches Reply::Replied(Ok(response)) && response.job_complete),
{
}

/// The window of a page begins at its offset and ends behind its last row; both
/// stay within the result. What comes next begins where the page ends, and there
/// is nothing next where the result ends with the page.
pub proof fn law_page_windows(total: usize, offset: u64, page_size: u64, w: PageWindow)
    requires
        is_page_at(total, offset, page_size, w),
    ensures
        w.start <= w.end <= total,
        offset <= total ==> w.start == offset,
        offset > total ==> w.start == total && w.end == total,
        w.end - w.start <= page_size,
        offset <= total ==> w.end - w.start == page_size || w.end == total,
        w.next is Some <==> offset + page_size < total,
        w.next matches Some(next) ==> next == w.end && next == offset + page_size,
{
}

/// Whatever its rows hold, a listed page has the resources that the rows on it
/// name, and completed candidates are those in the first column of the rows.
pub proof fn law_pages_and_candidates_of_any_rows(
    p: BigQueryProfile,
    offset: u64,
    page_size: u64,
    page: ResourcePage,
    max: usize,
    values: Vec<String>,
    response: QueryResponse,
    listed_rows: Seq<JsonView>,
    candidate_rows: Seq<JsonView>,
)
    requires
        listing_settled(p, offset, page_size, Reply::Replied(Ok(response)), Ok(page)),
        completion_settled(p, max, Reply::Replied(Ok(response)), Ok(values)),
        are_kept_rows(listed_rows, response, p.max_rows as nat),
        are_kept_rows(candidate_rows, response, max as nat),
    ensures
        ({
            let on_page = page_rows(listed_rows, offset as nat, page_size as nat);
            listed_views(page.resources@) == listed(on_page, on_page.len() as int)
        }),
        texts(values@) == completion_values(
            candidate_rows,
            first_column(candidate_rows),
            max as nat,
        ),
{
    assert(listed_rows =~= crate::bigquery::reply_documents(response, p.max_rows as nat));
    assert(candidate_rows =~= crate::bigquery::reply_documents(response, max as nat));
}

} // verus!
