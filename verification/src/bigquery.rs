//! The schema-driven row marshaller, and the requests and replies of
//! `jobs.query` around it.

use vstd::prelude::*;

use crate::decimal::{law_decimal_reads_back, parse_i64, signed_decimal, signed_value};
use crate::json::{
    distinct_names, json_views, law_put_keeps_names_distinct, law_put_then_member,
    lemma_put_positions, member, no_members, put, whole_number, Json, JsonObject, JsonView, Number, NumberView,
};
use crate::outside::{
    all_settled, base64_decode, base64_decoded, base64_encode, base64_encoded, finite_double,
    lemma_settled_array, lemma_settled_empty, lemma_settled_push, lemma_settled_put,
    numbers_settled, parse_finite_double, parse_json_text, parsed_text,
};
use crate::table::{
    mode_word, type_word, Cell, CellValue, TableFieldMode, TableFieldSchema, TableFieldType,
    TableSchema, Tuple,
};
use crate::text::same_text;

verus! {

/// The text as a whole number where it is one that fits an `i64`, else as
/// it stands.
pub open spec fn integer_cell(raw: Seq<char>) -> JsonView {
    match signed_value(raw) {
        Some(n) if i64::MIN <= n <= i64::MAX => JsonView::Number(whole_number(n)),
        _ => JsonView::Str(raw),
    }
}

/// A read double where there is one, else the text as it stands.
pub open spec fn double_cell(double: Option<Seq<char>>, raw: Seq<char>) -> JsonView {
    match double {
        Some(text) => JsonView::Number(NumberView::Float(text)),
        None => JsonView::Str(raw),
    }
}

/// A truth value for the words `true` and `false`, else the text as it stands.
pub open spec fn boolean_cell(raw: Seq<char>) -> JsonView {
    if raw == "true"@ {
        JsonView::Bool(true)
    } else if raw == "false"@ {
        JsonView::Bool(false)
    } else {
        JsonView::Str(raw)
    }
}

/// A decoded and encoded text where there is one, else the text as it stands.
pub open spec fn bytes_cell(recoded: Option<Seq<char>>, raw: Seq<char>) -> JsonView {
    match recoded {
        Some(t) => JsonView::Str(t),
        None => JsonView::Str(raw),
    }
}

/// A read document where there is one, else the text as it stands.
pub open spec fn document_cell(document: Option<JsonView>, raw: Seq<char>) -> JsonView {
    match document {
        Some(d) => d,
        None => JsonView::Str(raw),
    }
}

/// What base64 makes of a text that it decodes and encodes again.
pub open spec fn recoded_base64(raw: Seq<char>) -> Option<Seq<char>> {
    match base64_decoded(raw) {
        Some(bytes) => Some(base64_encoded(bytes)),
        None => None,
    }
}

/// The document of a scalar cell, by its column's type.
pub open spec fn scalar_json(t: TableFieldType, raw: Seq<char>) -> JsonView {
    match t {
        TableFieldType::Integer | TableFieldType::Int64 => integer_cell(raw),
        TableFieldType::Float | TableFieldType::Float64 => double_cell(finite_double(raw), raw),
        TableFieldType::Boolean | TableFieldType::Bool => boolean_cell(raw),
        TableFieldType::Bytes => bytes_cell(recoded_base64(raw), raw),
        TableFieldType::Json => document_cell(parsed_text(raw), raw),
        _ => JsonView::Str(raw),
    }
}

/// The document of one value of a column. Null stays null; a record is an
/// object over the nested columns; an array has its parts typed by the column;
/// a scalar goes by the column's type.
pub open spec fn element_json(field: TableFieldSchema, value: CellValue) -> JsonView
    decreases value, 0int,
{
    match value {
        CellValue::Null => JsonView::Null,
        CellValue::Struct(tuple) => JsonView::Object(
            record_members(nested_fields(field), tuple.f@, shared_len(nested_fields(field), tuple.f@)),
        ),
        CellValue::Array(cells) => JsonView::Array(
            Seq::new(
                cells@.len(),
                |i: int|
                    if 0 <= i < cells@.len() {
                        element_json(field, cells@[i].v)
                    } else {
                        JsonView::Null
                    },
            ),
        ),
        CellValue::String(s) => scalar_json(field.data_type, s@),
    }
}

/// The document of a cell. A repeated column is an array: of its parts, or
/// empty where the cell holds none.
pub open spec fn value_json(field: TableFieldSchema, value: CellValue) -> JsonView
    decreases value, 1int,
{
    if field.mode == Some(TableFieldMode::Repeated) && !(value is Array) {
        JsonView::Array(Seq::empty())
    } else {
        element_json(field, value)
    }
}

/// The members of a record's first `n` columns, in column order.
pub open spec fn record_members(fields: Seq<TableFieldSchema>, cells: Seq<Cell>, n: int) -> Seq<
    (Seq<char>, JsonView),
>
    decreases cells, n,
{
    if n <= 0 || n > cells.len() {
        no_members()
    } else {
        put(
            record_members(fields, cells, n - 1),
            fields[n - 1].name@,
            value_json(fields[n - 1], cells[n - 1].v),
        )
    }
}

/// The nested columns of a record column.
pub open spec fn nested_fields(field: TableFieldSchema) -> Seq<TableFieldSchema> {
    match field.fields {
        Some(fs) => fs@,
        None => Seq::empty(),
    }
}

/// How many columns have both a schema and a cell.
pub open spec fn shared_len(fields: Seq<TableFieldSchema>, cells: Seq<Cell>) -> int {
    if fields.len() <= cells.len() {
        fields.len() as int
    } else {
        cells.len() as int
    }
}

/// The document of a record.
pub open spec fn record_json(fields: Seq<TableFieldSchema>, tuple: Tuple) -> JsonView {
    JsonView::Object(record_members(fields, tuple.f@, shared_len(fields, tuple.f@)))
}

/// A read double where there is one, else the text as it stands.
pub fn double_or_text(double: Option<String>, raw: &str) -> (r: Json)
    ensures
        r@ == double_cell(
            match double {
                Some(text) => Some(text@),
                None => None,
            },
            raw@,
        ),
{
    match double {
        Some(text) => Json::Number(Number::Float(text)),
        None => Json::text(raw),
    }
}

/// A decoded and encoded text where there is one, else the text as it stands.
pub fn recoded_or_text(recoded: Option<String>, raw: &str) -> (r: Json)
    ensures
        r@ == bytes_cell(
            match recoded {
                Some(t) => Some(t@),
                None => None,
            },
            raw@,
        ),
{
    match recoded {
        Some(t) => Json::String(t),
        None => Json::text(raw),
    }
}

/// A read document where there is one, else the text as it stands.
pub fn document_or_text(document: Option<Json>, raw: &str) -> (r: Json)
    ensures
        r@ == document_cell(
            match document {
                Some(d) => Some(d@),
                None => None,
            },
            raw@,
        ),
{
    match document {
        Some(d) => d,
        None => Json::text(raw),
    }
}

/// Decode a scalar cell by its column's type. Whole numbers beyond `i64` and
/// decimals stay texts, so that no digit is lost.
pub fn marshal_scalar(data_type: TableFieldType, raw: &str) -> (r: Json)
    ensures
        r@ == scalar_json(data_type, raw@),
        data_type == TableFieldType::Bytes ==> r@ == JsonView::Str(raw@),
        numbers_settled(r@),
{
    match data_type {
        TableFieldType::Integer | TableFieldType::Int64 => match parse_i64(raw) {
            Some(n) => if n < 0 {
                Json::Number(Number::NegInt(n))
            } else {
                Json::Number(Number::PosInt(n as u64))
            },
            None => Json::text(raw),
        },
        TableFieldType::Float | TableFieldType::Float64 => {
            double_or_text(parse_finite_double(raw), raw)
        },
        TableFieldType::Boolean | TableFieldType::Bool => {
            if same_text(raw, "true") {
                Json::Bool(true)
            } else if same_text(raw, "false") {
                Json::Bool(false)
            } else {
                Json::text(raw)
            }
        },
        TableFieldType::Bytes => {
            let recoded = match base64_decode(raw) {
                Some(bytes) => Some(base64_encode(&bytes)),
                None => None,
            };
            recoded_or_text(recoded, raw)
        },
        TableFieldType::Json => document_or_text(parse_json_text(raw), raw),
        _ => Json::text(raw),
    }
}

/// Marshal one value of a column.
pub fn marshal_element(field: &TableFieldSchema, value: &CellValue) -> (r: Json)
    ensures
        r@ == element_json(*field, *value),
        numbers_settled(r@),
    decreases *value, 0int,
{
    match value {
        CellValue::Null => Json::Null,
        CellValue::Struct(tuple) => {
            assert(decreases_to!(*value => (*value)->Struct_0));
            match &field.fields {
                Some(nested) => marshal_record(nested, tuple),
                None => {
                    let nested: Vec<TableFieldSchema> = Vec::new();
                    assert(nested@ =~= Seq::<TableFieldSchema>::empty());
                    marshal_record(&nested, tuple)
                },
            }
        },
        CellValue::Array(cells) => {
            let mut out: Vec<Json> = Vec::new();
            let mut i: usize = 0;
            while i < cells.len()
                invariant
                    i <= cells.len(),
                    *value == CellValue::Array(*cells),
                    out@.len() == i,
                    forall|j: int|
                        0 <= j < i ==> (#[trigger] out@[j])@ == element_json(*field, cells@[j].v)
                            && numbers_settled(out@[j]@),
                decreases cells.len() - i,
            {
                assert(decreases_to!(*value => (*value)->Array_0));
                assert(decreases_to!(*cells => cells@));
                assert(decreases_to!(cells@ => cells@[i as int]));
                assert(decreases_to!(cells@[i as int] => cells@[i as int].v));
                out.push(marshal_element(field, &cells[i].v));
                i = i + 1;
            }
            assert(json_views(out@) =~= element_json(*field, *value)->Array_0);
            proof {
                lemma_settled_array(out@);
            }
            Json::array(out)
        },
        CellValue::String(s) => marshal_scalar(field.data_type, s.as_str()),
    }
}

/// Marshal a cell, typed by its column.
pub fn marshal_value(field: &TableFieldSchema, value: &CellValue) -> (r: Json)
    ensures
        r@ == value_json(*field, *value),
        numbers_settled(r@),
    decreases *value, 1int,
{
    let repeated = matches!(field.mode, Some(TableFieldMode::Repeated));
    let many = matches!(value, CellValue::Array(_));
    if repeated && !many {
        let none: Vec<Json> = Vec::new();
        assert(json_views(none@) =~= Seq::<JsonView>::empty());
        return Json::array(none);
    }
    marshal_element(field, value)
}

/// Marshal a record into an object keyed by column name.
pub fn marshal_record(fields: &Vec<TableFieldSchema>, tuple: &Tuple) -> (r: Json)
    ensures
        r@ == record_json(fields@, *tuple),
        numbers_settled(r@),
    decreases *tuple, 0int,
{
    let mut obj = JsonObject::new();
    let n: usize = if fields.len() <= tuple.f.len() {
        fields.len()
    } else {
        tuple.f.len()
    };
    let mut i: usize = 0;
    while i < n
        invariant
            i <= n,
            n == shared_len(fields@, tuple.f@),
            obj@ == record_members(fields@, tuple.f@, i as int),
            numbers_settled(JsonView::Object(obj@)),
        decreases n - i,
    {
        assert(decreases_to!(*tuple => tuple.f));
        assert(decreases_to!(tuple.f => tuple.f@));
        assert(decreases_to!(tuple.f@ => tuple.f@[i as int]));
        assert(decreases_to!(tuple.f@[i as int] => tuple.f@[i as int].v));
        let v = marshal_value(&fields[i], &tuple.f[i].v);
        proof {
            lemma_settled_put(obj@, fields@[i as int].name@, v@);
        }
        obj.insert(fields[i].name.as_str(), v);
        i = i + 1;
    }
    obj.build()
}

/// A whole number that fits an `i64` comes out of its decimal text as that
/// number; one that does not keeps its text, so that no digit is lost.
pub proof fn law_integer_cell_is_exact(t: TableFieldType, n: int)
    requires
        t == TableFieldType::Integer || t == TableFieldType::Int64,
    ensures
        scalar_json(t, signed_decimal(n)) == (if i64::MIN <= n <= i64::MAX {
            JsonView::Number(whole_number(n))
        } else {
            JsonView::Str(signed_decimal(n))
        }),
{
    law_decimal_reads_back(n);
}

/// Decimals, dates and times, intervals and texts keep their text.
pub proof fn law_text_stays_text(t: TableFieldType, raw: Seq<char>)
    requires
        t == TableFieldType::Numeric || t == TableFieldType::Bignumeric || t
            == TableFieldType::Decimal || t == TableFieldType::Bigdecimal || t
            == TableFieldType::Timestamp || t == TableFieldType::Date || t == TableFieldType::Time
            || t == TableFieldType::Datetime || t == TableFieldType::Interval || t
            == TableFieldType::String,
    ensures
        scalar_json(t, raw) == JsonView::Str(raw),
{
}

/// A repeated column is always an array; in any other column a null is null and
/// a record is an object.
pub proof fn law_shape_follows_mode(field: TableFieldSchema, value: CellValue)
    ensures
        field.mode == Some(TableFieldMode::Repeated) ==> value_json(field, value) is Array,
        field.mode != Some(TableFieldMode::Repeated) && value is Null ==> value_json(field, value)
            is Null,
        field.mode != Some(TableFieldMode::Repeated) && value is Struct ==> value_json(field, value)
            is Object,
{
}

/// No two of the columns have the same name.
pub open spec fn distinct_columns(fields: Seq<TableFieldSchema>) -> bool {
    forall|i: int, j: int|
        #![trigger fields[i], fields[j]]
        0 <= i < j < fields.len() ==> fields[i].name@ != fields[j].name@
}

/// A record is an object with one member for each column that has a cell, in
/// column order, under the column's name.
pub proof fn law_record_follows_columns(
    fields: Seq<TableFieldSchema>,
    cells: Seq<Cell>,
    n: int,
)
    requires
        distinct_columns(fields),
        0 <= n <= shared_len(fields, cells),
    ensures
        record_members(fields, cells, n).len() == n,
        forall|i: int|
            0 <= i < n ==> #[trigger] record_members(fields, cells, n)[i] == (
                fields[i].name@,
                value_json(fields[i], cells[i].v),
            ),
        distinct_names(record_members(fields, cells, n)),
    decreases n,
{
    if n > 0 {
        law_record_follows_columns(fields, cells, n - 1);
        let before = record_members(fields, cells, n - 1);
        let name = fields[n - 1].name@;
        let value = value_json(fields[n - 1], cells[n - 1].v);
        assert forall|i: int| 0 <= i < before.len() implies (#[trigger] before[i]).0 != name by {
            assert(fields[i].name@ != fields[n - 1].name@);
        }
        lemma_put_positions(before, name, value);
        law_put_keeps_names_distinct(before, name, value);
        assert(record_members(fields, cells, n) == before.push((name, value)));
    }
}

/// A record has a member for each of its columns and for nothing else, also
/// where columns share a name.
pub proof fn law_record_has_its_columns(
    fields: Seq<TableFieldSchema>,
    cells: Seq<Cell>,
    n: int,
    k: Seq<char>,
)
    requires
        0 <= n <= shared_len(fields, cells),
    ensures
        member(record_members(fields, cells, n), k) is Some <==> exists|i: int|
            0 <= i < n && (#[trigger] fields[i]).name@ == k,
    decreases n,
{
    if n > 0 {
        law_record_has_its_columns(fields, cells, n - 1, k);
        let before = record_members(fields, cells, n - 1);
        let name = fields[n - 1].name@;
        law_put_then_member(before, name, value_json(fields[n - 1], cells[n - 1].v), k);
    }
}

/// Outcome of a completed query: the rows as documents, capped, whether more
/// rows exist beyond those, and how many were kept.
#[derive(Debug)]
pub struct QueryOutcome {
    pub rows: Vec<Json>,
    pub truncated: bool,
    pub row_count: usize,
}

/// Outcome of a dry run: the bytes that the query would process, whether its
/// result would come from the cache, and its columns. A dry run has no rows.
#[derive(Debug)]
pub struct EstimateOutcome {
    pub total_bytes_processed: Option<u64>,
    pub cache_hit: bool,
    pub schema: Vec<Json>,
}

/// How many of `rows` a cap of `max_rows` keeps.
pub open spec fn kept_len(rows: Seq<Tuple>, max_rows: nat) -> nat {
    if rows.len() <= max_rows {
        rows.len()
    } else {
        max_rows
    }
}

/// The documents of the rows that a cap of `max_rows` keeps.
pub open spec fn kept_rows(schema: TableSchema, rows: Seq<Tuple>, max_rows: nat) -> Seq<JsonView> {
    Seq::new(kept_len(rows, max_rows), |i: int| record_json(schema.fields@, rows[i]))
}

/// The outcome of marshalling: the kept rows, their number, and `truncated`
/// exactly where the server reports more rows than were kept or the page held
/// more.
pub open spec fn marshalled(
    outcome: QueryOutcome,
    schema: TableSchema,
    rows: Seq<Tuple>,
    total: nat,
    max_rows: nat,
) -> bool {
    let kept = kept_len(rows, max_rows);
    &&& json_views(outcome.rows@) == kept_rows(schema, rows, max_rows)
    &&& outcome.row_count == kept
    &&& outcome.truncated == (total > kept || rows.len() > kept)
}

/// Marshal raw row tuples against the result schema into documents keyed by
/// column name, capped at `max_rows`.
pub fn marshal_rows(schema: &TableSchema, rows: &[Tuple], total: usize, max_rows: usize) -> (r:
    Result<QueryOutcome, String>)
    ensures
        r matches Ok(outcome) && marshalled(outcome, *schema, rows@, total as nat, max_rows as nat)
            && all_settled(outcome.rows@),
{
    let n: usize = if rows.len() <= max_rows {
        rows.len()
    } else {
        max_rows
    };
    let mut kept: Vec<Json> = Vec::new();
    let mut i: usize = 0;
    while i < n
        invariant
            i <= n,
            n == kept_len(rows@, max_rows as nat),
            n <= rows@.len(),
            kept@.len() == i,
            forall|j: int|
                0 <= j < i ==> (#[trigger] kept@[j])@ == record_json(schema.fields@, rows@[j])
                    && numbers_settled(kept@[j]@),
        decreases n - i,
    {
        kept.push(marshal_record(&schema.fields, &rows[i]));
        i = i + 1;
    }
    assert(json_views(kept@) =~= kept_rows(*schema, rows@, max_rows as nat));
    let truncated = total > n || rows.len() > n;
    Ok(QueryOutcome { rows: kept, truncated, row_count: n })
}

/// A cap keeps no more rows than it says, a larger cap keeps them and goes on
/// behind them, and where nothing is truncated every row is there.
pub proof fn law_cap_keeps_first_rows(
    schema: TableSchema,
    rows: Seq<Tuple>,
    total: nat,
    cap: nat,
    larger: nat,
)
    requires
        cap <= larger,
    ensures
        kept_rows(schema, rows, cap).len() <= cap,
        kept_rows(schema, rows, cap) == kept_rows(schema, rows, larger).take(
            kept_rows(schema, rows, cap).len() as int,
        ),
        !(total > kept_len(rows, cap) || rows.len() > kept_len(rows, cap)) ==> kept_len(rows, cap)
            == rows.len() && total <= rows.len(),
{
    assert(kept_rows(schema, rows, cap) =~= kept_rows(schema, rows, larger).take(
        kept_rows(schema, rows, cap).len() as int,
    ));
}

/// A `jobs.query` reply, as far as the library reads it.
#[derive(Debug)]
pub struct QueryResponse {
    pub schema: Option<TableSchema>,
    pub rows: Option<Vec<Tuple>>,
    pub total_rows: Option<i64>,
    pub total_bytes_processed: Option<i64>,
    pub job_complete: bool,
    pub cache_hit: Option<bool>,
}

/// The columns of a reply.
pub open spec fn reply_schema(response: QueryResponse) -> Seq<TableFieldSchema> {
    match response.schema {
        Some(s) => s.fields@,
        None => Seq::empty(),
    }
}

/// The rows of a reply.
pub open spec fn reply_rows(response: QueryResponse) -> Seq<Tuple> {
    match response.rows {
        Some(rows) => rows@,
        None => Seq::empty(),
    }
}

/// The number of rows in the whole result: what the server reports, never
/// below zero, else what the page holds.
pub open spec fn reply_total(response: QueryResponse) -> nat {
    match response.total_rows {
        Some(n) => if n < 0 {
            0
        } else {
            n as nat
        },
        None => reply_rows(response).len(),
    }
}

/// The documents of a reply's rows, capped.
pub open spec fn reply_documents(response: QueryResponse, max_rows: nat) -> Seq<JsonView> {
    Seq::new(
        kept_len(reply_rows(response), max_rows),
        |i: int| record_json(reply_schema(response), reply_rows(response)[i]),
    )
}

/// A reply has more rows than a cap of `max_rows` keeps.
pub open spec fn reply_truncated(response: QueryResponse, max_rows: nat) -> bool {
    let kept = kept_len(reply_rows(response), max_rows);
    reply_total(response) > kept || reply_rows(response).len() > kept
}

/// Why a query reply is a failure: the call failed, or the job did not
/// complete.
pub open spec fn query_failure(reply: Result<QueryResponse, String>) -> Option<Seq<char>> {
    match reply {
        Err(cause) => Some("BigQuery query failed: "@ + cause@),
        Ok(response) => if response.job_complete {
            None
        } else {
            Some("BigQuery query timed out: job did not complete"@)
        },
    }
}

/// What a query reply gives: a failure where the call failed or the job did
/// not complete, else the marshalled rows.
pub open spec fn query_settled(
    reply: Result<QueryResponse, String>,
    max_rows: nat,
    r: Result<QueryOutcome, String>,
) -> bool {
    match query_failure(reply) {
        Some(message) => r matches Err(m) && m@ == message,
        None => reply matches Ok(response) && r matches Ok(outcome) && {
            &&& json_views(outcome.rows@) == reply_documents(response, max_rows)
            &&& outcome.row_count == kept_len(reply_rows(response), max_rows)
            &&& outcome.truncated == reply_truncated(response, max_rows)
        },
    }
}

/// Turn the reply to a query into its outcome. A job that did not complete has
/// no rows yet, and counts as timed out rather than as empty.
pub fn settle_query(reply: Result<QueryResponse, String>, max_rows: usize) -> (r: Result<
    QueryOutcome,
    String,
>)
    ensures
        query_settled(reply, max_rows as nat, r),
        r matches Ok(outcome) ==> all_settled(outcome.rows@),
{
    match reply {
        Err(cause) => {
            let mut m = "BigQuery query failed: ".to_owned();
            m.append(cause.as_str());
            Err(m)
        },
        Ok(response) => {
            if !response.job_complete {
                return Err("BigQuery query timed out: job did not complete".to_owned());
            }
            let total_rows = response.total_rows;
            let schema = match response.schema {
                Some(s) => s,
                None => {
                    let fields: Vec<TableFieldSchema> = Vec::new();
                    assert(fields@ =~= Seq::<TableFieldSchema>::empty());
                    TableSchema { fields }
                },
            };
            let rows = match response.rows {
                Some(rows) => rows,
                None => {
                    let rows: Vec<Tuple> = Vec::new();
                    assert(rows@ =~= Seq::<Tuple>::empty());
                    rows
                },
            };
            let reported: u64 = match total_rows {
                Some(n) => if n < 0 {
                    0
                } else {
                    n as u64
                },
                None => rows.len() as u64,
            };
            let total: usize = if reported <= usize::MAX as u64 {
                reported as usize
            } else {
                usize::MAX
            };
            assert(kept_rows(schema, rows@, max_rows as nat) =~= reply_documents(
                response,
                max_rows as nat,
            ));
            match marshal_rows(&schema, rows.as_slice(), total, max_rows) {
                Err(cause) => Err(cause),
                // A reported number may be larger than any number of rows that
                // fits in memory.
                Ok(outcome) => Ok(
                    QueryOutcome {
                        truncated: outcome.truncated || reported > outcome.row_count as u64,
                        rows: outcome.rows,
                        row_count: outcome.row_count,
                    },
                ),
            }
        },
    }
}

/// The document of a column for an estimate: its name, type and mode.
pub open spec fn field_json(field: TableFieldSchema) -> JsonView {
    JsonView::Object(
        no_members().push(("name"@, JsonView::Str(field.name@))).push(
            ("type"@, JsonView::Str(type_word(field.data_type))),
        ).push(("mode"@, JsonView::Str(mode_word(field.mode)))),
    )
}

/// Render one column as `{name, type, mode}`.
pub fn schema_field_json(field: &TableFieldSchema) -> (r: Json)
    ensures
        r@ == field_json(*field),
        numbers_settled(r@),
{
    broadcast use {lemma_settled_push, lemma_settled_empty};

    let mode = match field.mode {
        Some(TableFieldMode::Required) => "REQUIRED",
        Some(TableFieldMode::Repeated) => "REPEATED",
        _ => "NULLABLE",
    };
    JsonObject::new().with("name", Json::text(field.name.as_str())).with(
        "type",
        Json::text(field.data_type.name()),
    ).with("mode", Json::text(mode)).build()
}

/// The bytes that a reply reports, where it reports any and they are not
/// negative.
pub open spec fn reply_bytes(response: QueryResponse) -> Option<u64> {
    match response.total_bytes_processed {
        Some(b) if b >= 0 => Some(b as u64),
        _ => None,
    }
}

/// The estimate that a reply gives.
pub open spec fn estimated(response: QueryResponse, e: EstimateOutcome) -> bool {
    &&& e.total_bytes_processed == reply_bytes(response)
    &&& e.cache_hit == (response.cache_hit == Some(true))
    &&& json_views(e.schema@) == Seq::new(
        reply_schema(response).len(),
        |i: int| field_json(reply_schema(response)[i]),
    )
}

/// Project a `jobs.query` reply into an estimate.
pub fn estimate_from_response(response: &QueryResponse) -> (r: EstimateOutcome)
    ensures
        estimated(*response, r),
        all_settled(r.schema@),
{
    let total_bytes_processed = match response.total_bytes_processed {
        Some(b) => if b >= 0 {
            Some(b as u64)
        } else {
            None
        },
        None => None,
    };
    let mut schema: Vec<Json> = Vec::new();
    if let Some(s) = &response.schema {
        let mut i: usize = 0;
        while i < s.fields.len()
            invariant
                i <= s.fields.len(),
                schema@.len() == i,
                forall|j: int|
                    0 <= j < i ==> (#[trigger] schema@[j])@ == field_json(s.fields@[j])
                        && numbers_settled(schema@[j]@),
            decreases s.fields.len() - i,
        {
            schema.push(schema_field_json(&s.fields[i]));
            i = i + 1;
        }
    }
    assert(json_views(schema@) =~= Seq::new(
        reply_schema(*response).len(),
        |i: int| field_json(reply_schema(*response)[i]),
    ));
    let cache_hit = match response.cache_hit {
        Some(hit) => hit,
        None => false,
    };
    EstimateOutcome { total_bytes_processed, cache_hit, schema }
}

/// Why the reply to a dry run is a failure: the call failed.
pub open spec fn dry_run_failure(reply: Result<QueryResponse, String>) -> Option<Seq<char>> {
    match reply {
        Err(cause) => Some("BigQuery dry run failed: "@ + cause@),
        Ok(_) => None,
    }
}

/// What the reply to a dry run gives: a failure where the call failed, else
/// the estimate.
pub open spec fn dry_run_settled(
    reply: Result<QueryResponse, String>,
    r: Result<EstimateOutcome, String>,
) -> bool {
    match dry_run_failure(reply) {
        Some(message) => r matches Err(m) && m@ == message,
        None => reply matches Ok(response) && r matches Ok(e) && estimated(response, e),
    }
}

/// Turn the reply to a dry run into its outcome.
pub fn settle_dry_run(reply: Result<QueryResponse, String>) -> (r: Result<EstimateOutcome, String>)
    ensures
        dry_run_settled(reply, r),
        r matches Ok(e) ==> all_settled(e.schema@),
{
    match reply {
        Err(cause) => {
            let mut m = "BigQuery dry run failed: ".to_owned();
            m.append(cause.as_str());
            Err(m)
        },
        Ok(response) => Ok(estimate_from_response(&response)),
    }
}

/// A positional query parameter: its type's name, and its value unless null.
#[derive(Debug, PartialEq)]
pub struct QueryParameter {
    pub parameter_type: String,
    pub value: Option<String>,
}

/// A dataset of a project.
#[derive(Debug, PartialEq)]
pub struct DatasetReference {
    pub project_id: String,
    pub dataset_id: String,
}

/// A `jobs.query` request, as far as the library fills it.
#[derive(Debug, PartialEq)]
pub struct QueryRequest {
    pub query: String,
    pub use_legacy_sql: bool,
    pub max_results: Option<i64>,
    pub timeout_ms: Option<i64>,
    pub maximum_bytes_billed: Option<i64>,
    pub location: String,
    pub default_dataset: Option<DatasetReference>,
    pub dry_run: Option<bool>,
    pub parameter_mode: Option<String>,
    pub query_parameters: Vec<QueryParameter>,
}

/// Where and how a statement runs.
pub struct JobSettings<'a> {
    pub project_id: &'a str,
    pub dataset: Option<&'a str>,
    pub location: Option<&'a str>,
    pub use_legacy_sql: bool,
    pub maximum_bytes_billed: Option<u64>,
    pub timeout_ms: u64,
}

/// The number, or the largest one that the wire carries.
pub open spec fn wire_count(n: nat) -> i64 {
    if n <= i64::MAX {
        n as i64
    } else {
        i64::MAX
    }
}

/// The number, or the largest one that the wire carries.
fn to_wire_count(n: u64) -> (r: i64)
    ensures
        r == wire_count(n as nat),
{
    if n <= 0x7fff_ffff_ffff_ffff {
        n as i64
    } else {
        i64::MAX
    }
}

/// What every request says: the statement as it stands, the settings, the
/// bound parameters as they came, and the positional mode exactly where there
/// are any.
pub open spec fn request_carries(
    request: QueryRequest,
    settings: JobSettings,
    statement: Seq<char>,
    parameters: Seq<QueryParameter>,
) -> bool {
    &&& request.query@ == statement
    &&& request.use_legacy_sql == settings.use_legacy_sql
    &&& request.timeout_ms == Some(wire_count(settings.timeout_ms as nat))
    &&& request.maximum_bytes_billed == (match settings.maximum_bytes_billed {
        Some(b) => Some(wire_count(b as nat)),
        None => None,
    })
    &&& request.location@ == (match settings.location {
        Some(l) => l@,
        None => Seq::empty(),
    })
    &&& match settings.dataset {
        Some(d) => request.default_dataset matches Some(reference) && reference.project_id@
            == settings.project_id@ && reference.dataset_id@ == d@,
        None => request.default_dataset is None,
    }
    &&& if parameters.len() == 0 {
        request.parameter_mode is None
    } else {
        request.parameter_mode matches Some(m) && m@ == "POSITIONAL"@
    }
    &&& request.query_parameters@ == parameters
}

/// Fill a request.
fn fill_request(
    settings: &JobSettings,
    statement: &str,
    parameters: Vec<QueryParameter>,
    max_results: Option<i64>,
    dry_run: Option<bool>,
) -> (r: QueryRequest)
    ensures
        request_carries(r, *settings, statement@, parameters@),
        r.max_results == max_results,
        r.dry_run == dry_run,
{
    let parameter_mode = if parameters.len() == 0 {
        None
    } else {
        Some("POSITIONAL".to_owned())
    };
    let maximum_bytes_billed = match settings.maximum_bytes_billed {
        Some(b) => Some(to_wire_count(b)),
        None => None,
    };
    let location = match settings.location {
        Some(l) => l.to_owned(),
        None => String::new(),
    };
    let default_dataset = match settings.dataset {
        Some(d) => Some(
            DatasetReference {
                project_id: settings.project_id.to_owned(),
                dataset_id: d.to_owned(),
            },
        ),
        None => None,
    };
    QueryRequest {
        query: statement.to_owned(),
        use_legacy_sql: settings.use_legacy_sql,
        max_results,
        timeout_ms: Some(to_wire_count(settings.timeout_ms)),
        maximum_bytes_billed,
        location,
        default_dataset,
        dry_run,
        parameter_mode,
        query_parameters: parameters,
    }
}

/// The request that runs a statement and asks for at most `max_rows` rows.
pub fn query_request(
    settings: &JobSettings,
    statement: &str,
    max_rows: usize,
    parameters: Vec<QueryParameter>,
) -> (r: QueryRequest)
    ensures
        request_carries(r, *settings, statement@, parameters@),
        r.max_results == Some(wire_count(max_rows as nat)),
        r.dry_run is None,
{
    let cap: i64 = to_wire_count(max_rows as u64);
    fill_request(settings, statement, parameters, Some(cap), None)
}

/// The request that plans a statement without running it. It asks for no rows.
pub fn dry_run_request(
    settings: &JobSettings,
    statement: &str,
    parameters: Vec<QueryParameter>,
) -> (r: QueryRequest)
    ensures
        request_carries(r, *settings, statement@, parameters@),
        r.max_results is None,
        r.dry_run == Some(true),
{
    fill_request(settings, statement, parameters, None, Some(true))
}

/// The step of setting up a client that failed.
#[derive(Debug, Clone, Copy, PartialEq, Eq, Structural)]
pub enum ClientStep {
    Credentials,
    Auth,
    Init,
}

/// What is said of a failed step of setting up a client.
pub open spec fn client_failure(step: ClientStep, cause: Seq<char>) -> Seq<char> {
    match step {
        ClientStep::Credentials => "BigQuery credentials parse failed: "@ + cause,
        ClientStep::Auth => "BigQuery client auth failed: "@ + cause,
        ClientStep::Init => "BigQuery client init failed: "@ + cause,
    }
}

/// What is said of a failed step of setting up a client.
pub fn client_failure_text(step: ClientStep, cause: &str) -> (r: String)
    ensures
        r@ == client_failure(step, cause@),
{
    let mut m = match step {
        ClientStep::Credentials => "BigQuery credentials parse failed: ".to_owned(),
        ClientStep::Auth => "BigQuery client auth failed: ".to_owned(),
        ClientStep::Init => "BigQuery client init failed: ".to_owned(),
    };
    m.append(cause);
    m
}

} // verus!
