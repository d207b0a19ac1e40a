//! What the library takes from `serde_json` and `base64`: the calls
//! themselves, with what is trusted of them, and the verified code that turns
//! their results into the library's own values.

use base64::Engine;
use vstd::prelude::*;

use crate::json::{
    distinct_names, json_views, lemma_member_push, member, no_members, put, whole_number, Json, JsonView, Number, NumberView,
};
use crate::keyed::{
    ascending, comes_before, entry_views, law_stored_then_lookup, lookup, stored, NameTable,
};

verus! {

/// `serde_json::Value`, a parsed JSON document.
#[verifier::external_type_specification]
#[verifier::external_body]
pub struct ExValue(serde_json::Value);

/// The document that a `serde_json::Value` holds. The members of an object
/// stand in the order in which its map hands them out.
pub uninterp spec fn value_content(v: serde_json::Value) -> JsonView;

/// What `serde_json::from_str` reads from a text: a document, or nothing where
/// the text is not one JSON document.
pub uninterp spec fn parsed_text(raw: Seq<char>) -> Option<JsonView>;

/// What `serde_json::from_slice` reads from bytes: a document, or nothing
/// where the bytes are not one JSON document.
pub uninterp spec fn parsed_bytes(raw: Seq<u8>) -> Option<JsonView>;

/// The bytes that `serde_json::to_vec` writes a document in.
pub uninterp spec fn written_bytes(document: JsonView) -> Seq<u8>;

/// The text that `serde_json::to_string` writes a document in.
pub uninterp spec fn written_text(document: JsonView) -> Seq<char>;

/// The finite double that `str::parse` and `serde_json::Number::from_f64` make
/// of a text, by the text that `serde_json::Number` displays it as; nothing
/// where the text is no number, or stands for an infinity or for what is not a
/// number.
pub uninterp spec fn finite_double(raw: Seq<char>) -> Option<Seq<char>>;

/// The bytes that the standard, padded base64 alphabet decodes a text to;
/// nothing where the text is not base64.
pub uninterp spec fn base64_decoded(raw: Seq<char>) -> Option<Seq<u8>>;

/// The text that the standard, padded base64 alphabet gives bytes.
pub uninterp spec fn base64_encoded(bytes: Seq<u8>) -> Seq<char>;

/// One level of a `serde_json::Value`, taken apart. A number comes as three
/// readings that `serde_json::Number` offers: `as_u64`, `as_i64`, and its
/// display.
pub enum OpenedValue {
    Null,
    Bool(bool),
    Number(Option<u64>, Option<i64>, String),
    String(String),
    Array(Vec<serde_json::Value>),
    Object(Vec<(String, serde_json::Value)>),
}

/// The number behind the three readings: a whole number where one of the first
/// two gives it, else a double.
pub open spec fn number_read(
    unsigned: Option<u64>,
    signed: Option<i64>,
    display: Seq<char>,
) -> NumberView {
    match (unsigned, signed) {
        (Some(n), _) => NumberView::PosInt(n),
        (None, Some(n)) => NumberView::NegInt(n),
        (None, None) => NumberView::Float(display),
    }
}

/// The members that named values hold.
pub open spec fn member_contents(ms: Seq<(String, serde_json::Value)>) -> Seq<
    (Seq<char>, JsonView),
> {
    Seq::new(ms.len(), |i: int| (ms[i].0@, value_content(ms[i].1)))
}

/// The document that one opened level stands for.
pub open spec fn opened_content(o: OpenedValue) -> JsonView {
    match o {
        OpenedValue::Null => JsonView::Null,
        OpenedValue::Bool(b) => JsonView::Bool(b),
        OpenedValue::Number(u, i, d) => JsonView::Number(number_read(u, i, d@)),
        OpenedValue::String(s) => JsonView::Str(s@),
        OpenedValue::Array(xs) => JsonView::Array(
            Seq::new(xs@.len(), |i: int| value_content(xs@[i])),
        ),
        OpenedValue::Object(ms) => JsonView::Object(member_contents(ms@)),
    }
}

/// Matches on `serde_json::Value` and hands out its parts: each variant gives
/// the part of the document that it names. What `serde_json::Number` reads as
/// signed only is negative. What it reads as neither is a finite double, which
/// it displays by the shortest text that `str::parse` reads as that double.
#[verifier::external_body]
fn open_value(v: serde_json::Value) -> (r: OpenedValue)
    ensures
        value_content(v) == opened_content(r),
        match r {
            OpenedValue::Number(None, Some(n), _) => n < 0,
            OpenedValue::Number(None, None, display) => finite_double(display@) == Some(display@),
            _ => true,
        },
{
    match v {
        serde_json::Value::Null => OpenedValue::Null,
        serde_json::Value::Bool(b) => OpenedValue::Bool(b),
        serde_json::Value::Number(n) => {
            OpenedValue::Number(n.as_u64(), n.as_i64(), n.to_string())
        },
        serde_json::Value::String(s) => OpenedValue::String(s),
        serde_json::Value::Array(xs) => OpenedValue::Array(xs),
        serde_json::Value::Object(m) => OpenedValue::Object(m.into_iter().collect()),
    }
}

/// Calls `serde_json::from_str`: the document read from the text, or nothing
/// where it reports an error.
#[verifier::external_body]
fn read_text(raw: &str) -> (r: Option<serde_json::Value>)
    ensures
        parsed_text(raw@) == (match r {
            Some(v) => Some(value_content(v)),
            None => None,
        }),
{
    serde_json::from_str(raw).ok()
}

/// Calls `serde_json::from_slice`: the document read from the bytes, or
/// nothing where it reports an error.
#[verifier::external_body]
fn read_bytes(raw: &[u8]) -> (r: Option<serde_json::Value>)
    ensures
        parsed_bytes(raw@) == (match r {
            Some(v) => Some(value_content(v)),
            None => None,
        }),
{
    serde_json::from_slice(raw).ok()
}

/// The parts that one level of a `serde_json::Value` is made of. A number comes
/// as one of the three types that `serde_json::Value` is made from; a double as
/// a text.
pub enum ValueParts {
    Null,
    Bool(bool),
    Unsigned(u64),
    Signed(i64),
    Double(String),
    String(String),
    Array(Vec<serde_json::Value>),
    Object(Vec<(String, serde_json::Value)>),
}

/// The double that a text stands for where it stands for a finite one, else
/// null.
pub open spec fn double_document(text: Seq<char>) -> JsonView {
    match finite_double(text) {
        Some(display) => JsonView::Number(NumberView::Float(display)),
        None => JsonView::Null,
    }
}

/// The document that the parts make.
pub open spec fn made_content(p: ValueParts) -> JsonView {
    match p {
        ValueParts::Null => JsonView::Null,
        ValueParts::Bool(b) => JsonView::Bool(b),
        ValueParts::Unsigned(n) => JsonView::Number(NumberView::PosInt(n)),
        ValueParts::Signed(n) => JsonView::Number(whole_number(n as int)),
        ValueParts::Double(text) => double_document(text@),
        ValueParts::String(s) => JsonView::Str(s@),
        ValueParts::Array(xs) => JsonView::Array(
            Seq::new(xs@.len(), |i: int| value_content(xs@[i])),
        ),
        ValueParts::Object(ms) => JsonView::Object(member_contents(ms@)),
    }
}

/// The members of an object stand in the order of their names, each name once.
pub open spec fn in_name_order(p: ValueParts) -> bool {
    p matches ValueParts::Object(ms) ==> ascending(member_contents(ms@))
}

/// Makes a `serde_json::Value` of its parts, by its variants, its `From` impls,
/// and `str::parse` and `serde_json::Number::from_f64` for a double: a text
/// that stands for no finite double becomes null, and the map of an object,
/// which is ordered by name, hands out members that come in that order as they
/// came.
#[verifier::external_body]
fn make_value(p: ValueParts) -> (r: serde_json::Value)
    requires
        in_name_order(p),
    ensures
        value_content(r) == made_content(p),
{
    match p {
        ValueParts::Null => serde_json::Value::Null,
        ValueParts::Bool(b) => serde_json::Value::Bool(b),
        ValueParts::Unsigned(n) => serde_json::Value::from(n),
        ValueParts::Signed(n) => serde_json::Value::from(n),
        ValueParts::Double(text) => {
            text.parse().ok().and_then(serde_json::Number::from_f64).into()
        },
        ValueParts::String(s) => serde_json::Value::String(s),
        ValueParts::Array(xs) => serde_json::Value::Array(xs),
        ValueParts::Object(ms) => serde_json::Value::Object(ms.into_iter().collect()),
    }
}

/// Calls `serde_json::to_vec`, which writes every `serde_json::Value`: its map
/// keys are strings, and a vector takes all bytes.
#[verifier::external_body]
fn write_bytes(v: &serde_json::Value) -> (r: Result<Vec<u8>, String>)
    ensures
        r is Ok,
        r->Ok_0@ == written_bytes(value_content(*v)),
{
    serde_json::to_vec(v).map_err(|e| e.to_string())
}

/// Calls `serde_json::to_string`, which writes every `serde_json::Value`: its
/// map keys are strings, and a vector takes all bytes.
#[verifier::external_body]
fn write_text(v: &serde_json::Value) -> (r: Result<String, String>)
    ensures
        r is Ok,
        r->Ok_0@ == written_text(value_content(*v)),
{
    serde_json::to_string(v).map_err(|e| e.to_string())
}

/// Calls `str::parse` for a double and `serde_json::Number::from_f64` on it:
/// the display of the number where it is finite, else nothing. The display is
/// the shortest text that `str::parse` reads as that double, so it displays as
/// itself again.
#[verifier::external_body]
pub(crate) fn parse_finite_double(raw: &str) -> (r: Option<String>)
    ensures
        finite_double(raw@) == (match r {
            Some(text) => Some(text@),
            None => None,
        }),
        match r {
            Some(text) => finite_double(text@) == Some(text@),
            None => true,
        },
{
    let number: Option<serde_json::Number> = raw.parse().ok().and_then(serde_json::Number::from_f64);
    number.map(|n| n.to_string())
}

/// Calls `decode` of base64's `STANDARD` engine on the text's bytes. That
/// engine takes canonical padding only and no stray trailing bits, so what it
/// decodes encodes to the same text again.
#[verifier::external_body]
pub(crate) fn base64_decode(raw: &str) -> (r: Option<Vec<u8>>)
    ensures
        match r {
            Some(bytes) => base64_decoded(raw@) == Some(bytes@) && base64_encoded(bytes@) == raw@,
            None => base64_decoded(raw@) is None,
        },
{
    base64::engine::general_purpose::STANDARD.decode(raw.as_bytes()).ok()
}

/// Calls `encode` of base64's `STANDARD` engine on the bytes. What it encodes
/// decodes to the same bytes again.
#[verifier::external_body]
pub(crate) fn base64_encode(bytes: &Vec<u8>) -> (r: String)
    ensures
        r@ == base64_encoded(bytes@),
        base64_decoded(r@) == Some(bytes@),
{
    base64::engine::general_purpose::STANDARD.encode(bytes)
}

/// Every number of the document is written as it is read: a negative one as
/// such, and a double by the text that it is displayed as.
pub open spec fn numbers_settled(d: JsonView) -> bool
    decreases d,
{
    match d {
        JsonView::Number(n) => number_settled(n),
        JsonView::Array(xs) => forall|i: int|
            0 <= i < xs.len() ==> numbers_settled(#[trigger] xs[i]),
        JsonView::Object(ms) => forall|i: int|
            0 <= i < ms.len() ==> numbers_settled((#[trigger] ms[i]).1),
        _ => true,
    }
}

/// The number is written as it is read.
pub open spec fn number_settled(n: NumberView) -> bool {
    match n {
        NumberView::PosInt(_) => true,
        NumberView::NegInt(i) => i < 0,
        NumberView::Float(text) => finite_double(text) == Some(text),
    }
}

/// Every number of each document is written as it is read.
pub open spec fn all_settled(xs: Seq<Json>) -> bool {
    forall|i: int| 0 <= i < xs.len() ==> numbers_settled((#[trigger] xs[i])@)
}

/// The numbers of a member are numbers of the object.
proof fn lemma_settled_member(ms: Seq<(Seq<char>, JsonView)>, i: int)
    requires
        numbers_settled(JsonView::Object(ms)),
        0 <= i < ms.len(),
    ensures
        numbers_settled(ms[i].1),
{
    assert(JsonView::Object(ms)->Object_0[i] == ms[i]);
}

/// The numbers of an object with one more member are those of the object and
/// those of the member.
pub broadcast proof fn lemma_settled_push(
    ms: Seq<(Seq<char>, JsonView)>,
    k: Seq<char>,
    v: JsonView,
)
    ensures
        #[trigger] numbers_settled(JsonView::Object(ms.push((k, v)))) == (numbers_settled(
            JsonView::Object(ms),
        ) && numbers_settled(v)),
{
    let t = ms.push((k, v));
    if numbers_settled(JsonView::Object(t)) {
        lemma_settled_member(t, ms.len() as int);
        assert forall|i: int| 0 <= i < ms.len() implies numbers_settled((#[trigger] ms[i]).1) by {
            lemma_settled_member(t, i);
        }
    } else if numbers_settled(JsonView::Object(ms)) && numbers_settled(v) {
        assert forall|i: int| 0 <= i < t.len() implies numbers_settled((#[trigger] t[i]).1) by {
            if i < ms.len() {
                lemma_settled_member(ms, i);
            }
        }
    }
}

/// An object without members has no numbers.
pub broadcast proof fn lemma_settled_empty()
    ensures
        #[trigger] numbers_settled(JsonView::Object(no_members())),
{
}

/// The numbers of an object in which a member is set are settled where those of
/// the object and of the member are.
pub proof fn lemma_settled_put(ms: Seq<(Seq<char>, JsonView)>, k: Seq<char>, v: JsonView)
    requires
        numbers_settled(JsonView::Object(ms)),
        numbers_settled(v),
    ensures
        numbers_settled(JsonView::Object(put(ms, k, v))),
    decreases ms.len(),
{
    let t = put(ms, k, v);
    if ms.len() > 0 {
        lemma_settled_member(ms, 0);
        let rest = ms.drop_first();
        assert forall|i: int| 0 <= i < rest.len() implies numbers_settled(
            (#[trigger] rest[i]).1,
        ) by {
            lemma_settled_member(ms, i + 1);
        }
        lemma_settled_put(rest, k, v);
        assert forall|i: int| 0 <= i < t.len() implies numbers_settled((#[trigger] t[i]).1) by {
            if i > 0 {
                if ms[0].0 == k {
                    lemma_settled_member(rest, i - 1);
                } else {
                    lemma_settled_member(put(rest, k, v), i - 1);
                }
            }
        }
    }
}

/// The numbers of an array are those of its parts.
pub proof fn lemma_settled_array(xs: Seq<Json>)
    requires
        all_settled(xs),
    ensures
        numbers_settled(JsonView::Array(json_views(xs))),
{
    assert forall|i: int| 0 <= i < xs.len() implies numbers_settled(
        #[trigger] json_views(xs)[i],
    ) by {
        assert(json_views(xs)[i] == xs[i]@);
    }
}

/// The library's own document for a parsed one.
pub fn json_from_value(v: serde_json::Value) -> (r: Json)
    ensures
        r@ == value_content(v),
        numbers_settled(r@),
    decreases value_content(v),
{
    let ghost whole = value_content(v);
    match open_value(v) {
        OpenedValue::Null => Json::Null,
        OpenedValue::Bool(b) => Json::Bool(b),
        OpenedValue::Number(u, i, display) => match (u, i) {
            (Some(n), _) => Json::Number(Number::PosInt(n)),
            (None, Some(n)) => Json::Number(Number::NegInt(n)),
            (None, None) => Json::Number(Number::Float(display)),
        },
        OpenedValue::String(s) => Json::String(s),
        OpenedValue::Array(xs) => {
            let ghost parts = xs@;
            let mut out: Vec<Json> = Vec::new();
            for x in it: xs
                invariant
                    it.seq() == parts,
                    whole == value_content(v),
                    whole == JsonView::Array(
                        Seq::new(parts.len(), |i: int| value_content(parts[i])),
                    ),
                    out@.len() == it.index(),
                    forall|j: int|
                        0 <= j < out@.len() ==> (#[trigger] out@[j])@ == value_content(parts[j])
                            && numbers_settled(out@[j]@),
            {
                assert(decreases_to!(whole => whole->Array_0));
                assert(decreases_to!(whole->Array_0 => whole->Array_0[it.index()]));
                out.push(json_from_value(x));
            }
            let r = Json::Array(out);
            assert(r@->Array_0 =~= whole->Array_0);
            assert forall|j: int| 0 <= j < r@->Array_0.len() implies numbers_settled(
                #[trigger] r@->Array_0[j],
            ) by {
                assert(r@->Array_0[j] == out@[j]@);
            }
            r
        },
        OpenedValue::Object(ms) => {
            let ghost parts = ms@;
            let mut out: Vec<(String, Json)> = Vec::new();
            for m in it: ms
                invariant
                    it.seq() == parts,
                    whole == value_content(v),
                    whole == JsonView::Object(member_contents(parts)),
                    out@.len() == it.index(),
                    forall|j: int|
                        0 <= j < out@.len() ==> (#[trigger] out@[j]).0@ == parts[j].0@
                            && out@[j].1@ == value_content(parts[j].1) && numbers_settled(
                            out@[j].1@,
                        ),
            {
                assert(decreases_to!(whole => whole->Object_0));
                assert(decreases_to!(whole->Object_0 => whole->Object_0[it.index()]));
                assert(decreases_to!(whole->Object_0[it.index()] => whole->Object_0[it.index()].1));
                let (name, value) = m;
                out.push((name, json_from_value(value)));
            }
            let r = Json::Object(out);
            assert(r@->Object_0 =~= whole->Object_0);
            assert forall|j: int| 0 <= j < r@->Object_0.len() implies numbers_settled(
                (#[trigger] r@->Object_0[j]).1,
            ) by {
                assert(r@->Object_0[j].1 == out@[j].1@);
            }
            r
        },
    }
}

/// Read a JSON text.
pub fn parse_json_text(raw: &str) -> (r: Option<Json>)
    ensures
        match r {
            Some(j) => parsed_text(raw@) == Some(j@) && numbers_settled(j@),
            None => parsed_text(raw@) is None,
        },
{
    match read_text(raw) {
        Some(v) => Some(json_from_value(v)),
        None => None,
    }
}

/// Read JSON bytes.
pub fn parse_json_bytes(raw: &[u8]) -> (r: Option<Json>)
    ensures
        match r {
            Some(j) => parsed_bytes(raw@) == Some(j@) && numbers_settled(j@),
            None => parsed_bytes(raw@) is None,
        },
{
    match read_bytes(raw) {
        Some(v) => Some(json_from_value(v)),
        None => None,
    }
}

/// A number as it is sent: a whole number goes by its sign, and a text that
/// stands for no finite double becomes null.
pub open spec fn sent_number(n: NumberView) -> JsonView {
    match n {
        NumberView::PosInt(u) => JsonView::Number(NumberView::PosInt(u)),
        NumberView::NegInt(i) => JsonView::Number(whole_number(i as int)),
        NumberView::Float(text) => double_document(text),
    }
}

/// A document as it is sent: the members of each object in the order of their
/// names, and null for a text that stands for no finite double.
pub open spec fn sent_document(d: JsonView) -> JsonView
    decreases d, 0int,
{
    match d {
        JsonView::Number(n) => sent_number(n),
        JsonView::Array(xs) => JsonView::Array(
            Seq::new(
                xs.len(),
                |i: int|
                    if 0 <= i < xs.len() {
                        sent_document(xs[i])
                    } else {
                        JsonView::Null
                    },
            ),
        ),
        JsonView::Object(ms) => JsonView::Object(sent_members(ms, ms.len() as int)),
        _ => d,
    }
}

/// The first `n` members of an object as they are sent.
pub open spec fn sent_members(ms: Seq<(Seq<char>, JsonView)>, n: int) -> Seq<(Seq<char>, JsonView)>
    decreases ms, n,
{
    if n <= 0 || n > ms.len() {
        Seq::empty()
    } else {
        stored(sent_members(ms, n - 1), ms[n - 1].0, sent_document(ms[n - 1].1))
    }
}

/// The members that a table of values holds.
pub open spec fn held_members(t: Seq<(Seq<char>, serde_json::Value)>) -> Seq<
    (Seq<char>, JsonView),
> {
    Seq::new(t.len(), |i: int| (t[i].0, value_content(t[i].1)))
}

/// Storing a value stores the member that it holds.
proof fn lemma_held_stored(
    t: Seq<(Seq<char>, serde_json::Value)>,
    k: Seq<char>,
    v: serde_json::Value,
)
    ensures
        held_members(stored(t, k, v)) == stored(held_members(t), k, value_content(v)),
    decreases t.len(),
{
    if t.len() > 0 {
        let rest = t.drop_first();
        lemma_held_stored(rest, k, v);
        assert(held_members(t).drop_first() =~= held_members(rest));
    }
    assert(held_members(stored(t, k, v)) =~= stored(held_members(t), k, value_content(v)));
}

/// The `serde_json::Value` of a document.
pub fn value_from_json(j: &Json) -> (r: serde_json::Value)
    ensures
        value_content(r) == sent_document(j@),
    decreases *j,
{
    match j {
        Json::Null => make_value(ValueParts::Null),
        Json::Bool(b) => make_value(ValueParts::Bool(*b)),
        Json::Number(n) => match n {
            Number::PosInt(u) => make_value(ValueParts::Unsigned(*u)),
            Number::NegInt(i) => make_value(ValueParts::Signed(*i)),
            Number::Float(text) => make_value(ValueParts::Double(text.clone())),
        },
        Json::String(s) => make_value(ValueParts::String(s.clone())),
        Json::Array(xs) => {
            let mut out: Vec<serde_json::Value> = Vec::new();
            let mut i: usize = 0;
            while i < xs.len()
                invariant
                    i <= xs.len(),
                    *j == Json::Array(*xs),
                    out@.len() == i,
                    forall|k: int|
                        0 <= k < i ==> value_content(#[trigger] out@[k]) == sent_document(xs@[k]@),
                decreases xs.len() - i,
            {
                assert(decreases_to!(*j => (*j)->Array_0));
                assert(decreases_to!(*xs => xs@));
                assert(decreases_to!(xs@ => xs@[i as int]));
                out.push(value_from_json(&xs[i]));
                i = i + 1;
            }
            let r = make_value(ValueParts::Array(out));
            assert(value_content(r)->Array_0 =~= sent_document(j@)->Array_0);
            r
        },
        Json::Object(ms) => {
            let mut table: NameTable<serde_json::Value> = NameTable::new();
            let mut i: usize = 0;
            assert(held_members(table@) =~= sent_members(j@->Object_0, 0));
            while i < ms.len()
                invariant
                    i <= ms.len(),
                    *j == Json::Object(*ms),
                    j@->Object_0.len() == ms@.len(),
                    held_members(table@) == sent_members(j@->Object_0, i as int),
                decreases ms.len() - i,
            {
                assert(decreases_to!(*j => (*j)->Object_0));
                assert(decreases_to!(*ms => ms@));
                assert(decreases_to!(ms@ => ms@[i as int]));
                assert(decreases_to!(ms@[i as int] => ms@[i as int].1));
                let value = value_from_json(&ms[i].1);
                proof {
                    lemma_held_stored(table@, ms@[i as int].0@, value);
                }
                table.insert(ms[i].0.clone(), value);
                i = i + 1;
            }
            let ghost held = table@;
            let entries = table.into_entries();
            proof {
                let made = member_contents(entries@);
                assert(entry_views(entries@) == held);
                assert forall|k: int| 0 <= k < made.len() implies #[trigger] made[k]
                    == held_members(held)[k] by {
                    assert(entry_views(entries@)[k] == held[k]);
                }
                assert(made =~= held_members(held));
                assert forall|a: int, b: int| 0 <= a < b < made.len() implies comes_before(
                    made[a].0,
                    made[b].0,
                ) by {
                    assert(comes_before(held[a].0, held[b].0));
                }
            }
            make_value(ValueParts::Object(entries))
        },
    }
}

/// A number that is written as it is read is sent as that number: a double that
/// a cell or a document gave is never sent as null.
pub proof fn law_settled_number_is_sent(n: NumberView)
    requires
        number_settled(n),
    ensures
        sent_document(JsonView::Number(n)) == JsonView::Number(n),
{
}

/// What is sent of an array is what is sent of each part, in the same place.
pub proof fn law_sent_keeps_parts(xs: Seq<JsonView>, i: int)
    requires
        0 <= i < xs.len(),
    ensures
        sent_document(JsonView::Array(xs)) is Array,
        sent_document(JsonView::Array(xs))->Array_0.len() == xs.len(),
        sent_document(JsonView::Array(xs))->Array_0[i] == sent_document(xs[i]),
{
}

/// What is sent under a name is what is sent of the member of that name: no
/// member is lost, made up or mixed up.
pub proof fn law_sent_keeps_members(ms: Seq<(Seq<char>, JsonView)>, k: Seq<char>)
    requires
        distinct_names(ms),
    ensures
        sent_document(JsonView::Object(ms)).get(k) == (match member(ms, k) {
            Some(v) => Some(sent_document(v)),
            None => None,
        }),
{
    lemma_sent_lookup(ms, ms.len() as int, k);
    assert(ms.take(ms.len() as int) =~= ms);
    lemma_member_is_lookup(sent_members(ms, ms.len() as int), k);
}

/// A member is found as an entry of that name is.
proof fn lemma_member_is_lookup(ms: Seq<(Seq<char>, JsonView)>, k: Seq<char>)
    ensures
        member(ms, k) == lookup(ms, k),
    decreases ms.len(),
{
    if ms.len() > 0 {
        lemma_member_is_lookup(ms.drop_first(), k);
    }
}

/// What the first `n` sent members hold under a name.
proof fn lemma_sent_lookup(ms: Seq<(Seq<char>, JsonView)>, n: int, k: Seq<char>)
    requires
        distinct_names(ms),
        0 <= n <= ms.len(),
    ensures
        lookup(sent_members(ms, n), k) == (match member(ms.take(n), k) {
            Some(v) => Some(sent_document(v)),
            None => None,
        }),
    decreases n,
{
    if n > 0 {
        let before = ms.take(n - 1);
        let (name, value) = ms[n - 1];
        lemma_sent_lookup(ms, n - 1, k);
        assert(ms.take(n) =~= before.push((name, value)));
        lemma_member_push(before, name, value, k);
        law_stored_then_lookup(sent_members(ms, n - 1), name, sent_document(value), k);
        if k == name {
            lemma_absent(before, name);
        }
    }
}

/// A name that no member has is not found.
proof fn lemma_absent(ms: Seq<(Seq<char>, JsonView)>, k: Seq<char>)
    requires
        forall|i: int| 0 <= i < ms.len() ==> (#[trigger] ms[i]).0 != k,
    ensures
        member(ms, k) is None,
    decreases ms.len(),
{
    if ms.len() > 0 {
        assert(ms[0].0 != k);
        let rest = ms.drop_first();
        assert forall|i: int| 0 <= i < rest.len() implies (#[trigger] rest[i]).0 != k by {
            assert(rest[i] == ms[i + 1]);
        }
        lemma_absent(rest, k);
    }
}

/// Write a document as JSON bytes.
pub fn json_bytes(j: &Json) -> (r: Result<Vec<u8>, String>)
    ensures
        r matches Ok(bytes) && bytes@ == written_bytes(sent_document(j@)),
{
    write_bytes(&value_from_json(j))
}

/// Write a document as a JSON text.
pub fn json_text(j: &Json) -> (r: String)
    ensures
        r@ == written_text(sent_document(j@)),
{
    match write_text(&value_from_json(j)) {
        Ok(text) => text,
        Err(cause) => cause,
    }
}

} // verus!
