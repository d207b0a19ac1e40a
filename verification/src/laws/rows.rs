//! What becomes of the rows of a reply: how many an answer holds, which, and
//! when it says that there are more.

use vstd::prelude::*;

use crate::bigquery::{
    distinct_columns, element_json, law_record_follows_columns, marshalled, query_settled,
    record_json, record_members, scalar_json, value_json, QueryOutcome, QueryResponse,
};
use crate::call::Call;
use crate::envelope::{law_response_null_iff_failed, law_result_envelope_slots};
use crate::execute::{stepped, Action, Event, Stage};
use crate::json::{json_views, JsonView, NumberView};
use crate::observe::Outcome;
use crate::outside::{base64_decoded, base64_encoded, finite_double, parsed_text};
use crate::plugin::BigQueryProfile;
use crate::surface::Surface;
use crate::table::{
    Cell, CellValue, TableFieldMode, TableFieldSchema, TableFieldType, TableSchema, Tuple,
};

verus! {

/// The rows of a page.
pub open spec fn page_of(response: QueryResponse) -> Seq<Tuple> {
    match response.rows {
        Some(rows) => rows@,
        None => Seq::empty(),
    }
}

/// The columns of a page.
pub open spec fn columns_of(response: QueryResponse) -> Seq<TableFieldSchema> {
    match response.schema {
        Some(schema) => schema.fields@,
        None => Seq::empty(),
    }
}

/// Of marshalled rows, those come first that came first, as many as the cap
/// allows and no more. That there are more is said exactly where the page or
/// the whole result holds more rows than came out.
pub proof fn law_rows_are_kept_in_order(
    outcome: QueryOutcome,
    schema: TableSchema,
    rows: Seq<Tuple>,
    total: nat,
    max_rows: nat,
)
    requires
        marshalled(outcome, schema, rows, total, max_rows),
    ensures
        outcome.row_count == outcome.rows@.len(),
        outcome.rows@.len() <= max_rows,
        outcome.rows@.len() <= rows.len(),
        outcome.rows@.len() == max_rows || outcome.rows@.len() == rows.len(),
        forall|i: int|
            0 <= i < outcome.rows@.len() ==> (#[trigger] outcome.rows@[i])@ == record_json(
                schema.fields@,
                rows[i],
            ),
        outcome.truncated <==> total > outcome.rows@.len() || rows.len() > outcome.rows@.len(),
        !outcome.truncated ==> outcome.rows@.len() == rows.len() && total <= outcome.rows@.len(),
{
    assert(json_views(outcome.rows@).len() == outcome.rows@.len());
    assert forall|i: int| 0 <= i < outcome.rows@.len() implies (#[trigger] outcome.rows@[i])@
        == record_json(schema.fields@, rows[i]) by {
        assert(json_views(outcome.rows@)[i] == outcome.rows@[i]@);
    }
}

/// A reply to a query gives rows exactly where the call went through and the
/// job completed. What is said of a failed call ends in its cause; a job that
/// did not complete counts as timed out.
pub proof fn law_only_a_completed_job_gives_rows(
    reply: Result<QueryResponse, String>,
    max_rows: nat,
    r: Result<QueryOutcome, String>,
)
    requires
        query_settled(reply, max_rows, r),
    ensures
        r is Ok <==> reply is Ok && reply->Ok_0.job_complete,
        reply matches Err(cause) ==> (r matches Err(m) && m@ == "BigQuery query failed: "@
            + cause@),
        reply is Ok && !reply->Ok_0.job_complete ==> (r matches Err(m) && m@
            == "BigQuery query timed out: job did not complete"@),
{
}

/// Where the server reports more rows than a result holds, the result says that
/// it is truncated; one that does not say so holds every row of the page, and
/// no fewer than the server reports.
pub proof fn law_missing_rows_are_reported(
    response: QueryResponse,
    max_rows: nat,
    outcome: QueryOutcome,
)
    requires
        query_settled(Ok::<QueryResponse, String>(response), max_rows, Ok::<QueryOutcome, String>(outcome)),
    ensures
        response.job_complete,
        outcome.row_count == outcome.rows@.len(),
        outcome.rows@.len() <= max_rows,
        outcome.rows@.len() <= page_of(response).len(),
        outcome.rows@.len() == max_rows || outcome.rows@.len() == page_of(response).len(),
        forall|i: int|
            0 <= i < outcome.rows@.len() ==> (#[trigger] outcome.rows@[i])@ == record_json(
                columns_of(response),
                page_of(response)[i],
            ),
        response.total_rows matches Some(n) ==> (n > outcome.rows@.len() ==> outcome.truncated),
        page_of(response).len() > outcome.rows@.len() ==> outcome.truncated,
        !outcome.truncated ==> outcome.rows@.len() == page_of(response).len(),
        !outcome.truncated ==> (response.total_rows matches Some(n) ==> n <= outcome.rows@.len()),
        outcome.truncated ==> page_of(response).len() > outcome.rows@.len() || (
        response.total_rows matches Some(n) && n > outcome.rows@.len()),
{
    assert(json_views(outcome.rows@).len() == outcome.rows@.len());
    assert forall|i: int| 0 <= i < outcome.rows@.len() implies (#[trigger] outcome.rows@[i])@
        == record_json(columns_of(response), page_of(response)[i]) by {
        assert(json_views(outcome.rows@)[i] == outcome.rows@[i]@);
    }
}

/// The answer of a tool to a completed query is a success whose envelope holds
/// the first rows of the page, as many as the binding's cap allows, their
/// number, and how long the call took. Its two `truncated` slots agree; they
/// are true where the server reports more rows than the answer holds, and false
/// only where it holds every row.
pub proof fn law_tool_answer_holds_the_rows(
    p: BigQueryProfile,
    call: Call,
    response: QueryResponse,
    elapsed_ms: u64,
    next: Stage,
    action: Action,
)
    requires
        p.surface == Surface::Tool,
        response.job_complete,
        stepped(
            p,
            call,
            Stage::Running,
            Event::Replied(Ok(response)),
            elapsed_ms,
            next,
            action,
        ),
    ensures
        next is Done,
        action is Answer,
        ({
            let answer = action->Answer_0;
            let body = answer.body@;
            let slot = body.at("response"@);
            let rows = slot.at("rows"@)->Array_0;
            let truncated = body.at("truncated"@)->Bool_0;
            &&& answer.outcome == Outcome::Success
            &&& answer.reason is None
            &&& body.at("toolName"@) == JsonView::Str(call.tool_name@)
            &&& body.at("profile"@) == JsonView::Str(call.backend_name@)
            &&& body.at("request"@).at("project"@) == JsonView::Str(p.project_id@)
            &&& body.at("request"@).at("dataset"@) == (match p.dataset {
                Some(d) => JsonView::Str(d@),
                None => JsonView::Null,
            })
            &&& body.at("downstreamError"@) is Null
            &&& body.at("downstreamErrors"@) == JsonView::Array(Seq::empty())
            &&& body.at("error"@) is Null
            &&& slot.at("rows"@) is Array
            &&& slot.at("count"@) == JsonView::Number(NumberView::PosInt(rows.len() as u64))
            &&& slot.at("durationMs"@) == JsonView::Number(NumberView::PosInt(elapsed_ms))
            &&& slot.at("truncated"@) == body.at("truncated"@)
            &&& body.at("truncated"@) is Bool
            &&& rows.len() <= p.max_rows
            &&& rows.len() == p.max_rows || rows.len() == page_of(response).len()
            &&& rows.len() <= page_of(response).len()
            &&& forall|i: int|
                0 <= i < rows.len() ==> #[trigger] rows[i] == record_json(
                    columns_of(response),
                    page_of(response)[i],
                )
            &&& (response.total_rows matches Some(n) ==> (n > rows.len() ==> truncated))
            &&& !truncated ==> rows.len() == page_of(response).len()
            &&& !truncated ==> (response.total_rows matches Some(n) ==> n <= rows.len())
            &&& truncated ==> page_of(response).len() > rows.len() || (
            response.total_rows matches Some(n) && n > rows.len())
        }),
{
    let body = action->Answer_0.body@;
    let kept = crate::bigquery::kept_len(crate::bigquery::reply_rows(response), p.max_rows as nat);
    let documents = crate::bigquery::reply_documents(response, p.max_rows as nat);
    let truncated = crate::bigquery::reply_truncated(response, p.max_rows as nat);
    let count = JsonView::Number(NumberView::PosInt(kept as u64));
    let slot = crate::envelope::response_slot(
        JsonView::Array(documents),
        count,
        truncated,
        elapsed_ms,
        false,
    );
    law_response_null_iff_failed(JsonView::Array(documents), count, truncated, elapsed_ms, false);
    law_result_envelope_slots(
        call.tool_name@,
        call.backend_name@,
        p.project_id@,
        crate::execute::dataset_slot(p),
        slot,
        truncated,
        JsonView::Null,
        JsonView::Array(Seq::empty()),
        JsonView::Null,
    );
    assert(body.at("response"@) == slot);
    assert(documents.len() == kept);
}

/// A row is an object with a member for each column that has a cell, in column
/// order and under the column's name.
pub proof fn law_row_follows_columns(columns: Seq<TableFieldSchema>, row: Tuple)
    requires
        distinct_columns(columns),
    ensures
        record_json(columns, row) is Object,
        ({
            let members = record_json(columns, row)->Object_0;
            &&& members.len() <= columns.len()
            &&& members.len() <= row.f@.len()
            &&& members.len() == columns.len() || members.len() == row.f@.len()
            &&& forall|k: int|
                0 <= k < members.len() ==> (#[trigger] members[k]).0 == columns[k].name@
            &&& forall|k: int|
                0 <= k < members.len() ==> (#[trigger] members[k]).1 == value_json(
                    columns[k],
                    row.f@[k].v,
                )
        }),
{
    let n = crate::bigquery::shared_len(columns, row.f@);
    law_record_follows_columns(columns, row.f@, n);
}

/// Of two columns of one name the later one's value is in the row.
pub proof fn law_later_column_wins(columns: Seq<TableFieldSchema>, row: Tuple, k: int)
    requires
        0 <= k < columns.len(),
        k < row.f@.len(),
        forall|j: int|
            k < j < columns.len() && j < row.f@.len() ==> (#[trigger] columns[j]).name@
                != columns[k].name@,
    ensures
        record_json(columns, row).get(columns[k].name@) == Some(
            value_json(columns[k], row.f@[k].v),
        ),
{
    let n = crate::bigquery::shared_len(columns, row.f@);
    lemma_later_column_wins(columns, row.f@, k, n);
}

/// The value of a column stands once it is set and no later column has its
/// name.
proof fn lemma_later_column_wins(columns: Seq<TableFieldSchema>, cells: Seq<Cell>, k: int, n: int)
    requires
        0 <= k < n <= columns.len(),
        n <= cells.len(),
        forall|j: int| k < j < n ==> (#[trigger] columns[j]).name@ != columns[k].name@,
    ensures
        crate::json::member(record_members(columns, cells, n), columns[k].name@) == Some(
            value_json(columns[k], cells[k].v),
        ),
    decreases n,
{
    let before = record_members(columns, cells, n - 1);
    crate::json::law_put_then_member(
        before,
        columns[n - 1].name@,
        value_json(columns[n - 1], cells[n - 1].v),
        columns[k].name@,
    );
    if n - 1 > k {
        lemma_later_column_wins(columns, cells, k, n - 1);
    }
}

/// A cell of a repeated column is an array of its parts, and an empty one where
/// it holds no parts. A cell of any other column is null where it holds null, a
/// nested object where it holds a record, and an array where it holds parts.
pub proof fn law_cell_shapes(column: TableFieldSchema, value: CellValue)
    ensures
        column.mode == Some(TableFieldMode::Repeated) && !(value is Array) ==> value_json(
            column,
            value,
        ) == JsonView::Array(Seq::empty()),
        column.mode != Some(TableFieldMode::Repeated) && value is Null ==> value_json(column, value)
            is Null,
        column.mode != Some(TableFieldMode::Repeated) ==> (value matches CellValue::Struct(tuple)
            ==> value_json(column, value) == record_json(
            match column.fields {
                Some(nested) => nested@,
                None => Seq::empty(),
            },
            tuple,
        )),
        value matches CellValue::Array(parts) ==> (value_json(column, value) matches JsonView::Array(
            xs,
        ) && xs.len() == parts@.len() && forall|i: int|
            0 <= i < xs.len() ==> #[trigger] xs[i] == element_json(column, parts@[i].v)),
        column.mode != Some(TableFieldMode::Repeated) ==> (value matches CellValue::String(raw)
            ==> value_json(column, value) == scalar_json(column.data_type, raw@)),
{
}

/// A part of a repeated cell is null where it holds null, a nested object where
/// it holds a record, and goes by the column's type where it holds a text.
pub proof fn law_part_shapes(column: TableFieldSchema, part: CellValue)
    ensures
        part is Null ==> element_json(column, part) is Null,
        part matches CellValue::Struct(tuple) ==> element_json(column, part) == record_json(
            match column.fields {
                Some(nested) => nested@,
                None => Seq::empty(),
            },
            tuple,
        ),
        part matches CellValue::Array(parts) ==> (element_json(column, part) matches JsonView::Array(
            xs,
        ) && xs.len() == parts@.len() && forall|i: int|
            0 <= i < xs.len() ==> #[trigger] xs[i] == element_json(column, parts@[i].v)),
        part matches CellValue::String(raw) ==> element_json(column, part) == scalar_json(
            column.data_type,
            raw@,
        ),
{
}

/// The words for the truth values come out as truth values, a finite double as
/// a number, base64 as the text of the bytes that it stands for, and a JSON text
/// as its document. Whatever does not read as its column's type keeps its text,
/// and so does every text of a column of another type.
pub proof fn law_scalars_go_by_type(t: TableFieldType, raw: Seq<char>)
    ensures
        t == TableFieldType::Boolean || t == TableFieldType::Bool ==> {
            &&& raw == "true"@ ==> scalar_json(t, raw) == JsonView::Bool(true)
            &&& raw == "false"@ ==> scalar_json(t, raw) == JsonView::Bool(false)
            &&& raw != "true"@ && raw != "false"@ ==> scalar_json(t, raw) == JsonView::Str(raw)
        },
        t == TableFieldType::Float || t == TableFieldType::Float64 ==> match finite_double(raw) {
            Some(text) => scalar_json(t, raw) == JsonView::Number(NumberView::Float(text)),
            None => scalar_json(t, raw) == JsonView::Str(raw),
        },
        t == TableFieldType::Bytes ==> match base64_decoded(raw) {
            Some(bytes) => scalar_json(t, raw) == JsonView::Str(base64_encoded(bytes)),
            None => scalar_json(t, raw) == JsonView::Str(raw),
        },
        t == TableFieldType::Json ==> match parsed_text(raw) {
            Some(document) => scalar_json(t, raw) == document,
            None => scalar_json(t, raw) == JsonView::Str(raw),
        },
        t == TableFieldType::String || t == TableFieldType::Timestamp || t == TableFieldType::Record
            || t == TableFieldType::Date || t == TableFieldType::Time || t
            == TableFieldType::Datetime || t == TableFieldType::Numeric || t
            == TableFieldType::Decimal || t == TableFieldType::Bignumeric || t
            == TableFieldType::Interval || t == TableFieldType::Bigdecimal || t
            == TableFieldType::Struct ==> scalar_json(t, raw) == JsonView::Str(raw),
{
    assert("true"@ != "false"@) by {
        reveal_strlit("true");
        reveal_strlit("false");
        assert("true"@.len() == 4);
        assert("false"@.len() == 5);
    }
}

} // verus!
