//! What a document is, finds and sends, and what the schemas of envelopes and
//! arguments say.

use vstd::prelude::*;

use crate::arguments::{
    all_argument_names, argument_names, first_at, first_seen, input_schema_of,
    law_first_seen_is_a_set, lemma_first_at, lemma_name_end, marker, name_end, names_from,
    untyped_properties, CompiledParam,
};
use crate::envelope::{envelope_schema, estimate_properties, result_properties};
use crate::json::{
    law_put_then_member, lemma_member_push, lemma_put_positions, member, put, whole_number, Json,
    JsonView, Number, NumberView,
};
use crate::keyed::{
    ascending, law_stored_keeps_order, law_stored_then_lookup, lookup, stored,
};
use crate::outside::{finite_double, number_read, sent_document, sent_members};
use crate::plugin::{input_schema_for, output_schema_of, BigQueryProfile};
use crate::text::occurs_at;

verus! {

/// A document stands for what it is: null, a truth value, a number, a text, its
/// parts in their places, or its members in their places.
pub proof fn law_documents_stand_for_themselves(j: Json)
    ensures
        j is Null ==> j@ is Null,
        j matches Json::Bool(b) ==> j@ == JsonView::Bool(b),
        j matches Json::Number(Number::PosInt(n)) ==> j@ == JsonView::Number(
            NumberView::PosInt(n),
        ),
        j matches Json::Number(Number::NegInt(n)) ==> j@ == JsonView::Number(
            NumberView::NegInt(n),
        ),
        j matches Json::Number(Number::Float(text)) ==> j@ == JsonView::Number(
            NumberView::Float(text@),
        ),
        j matches Json::String(s) ==> j@ == JsonView::Str(s@),
        j matches Json::Array(parts) ==> (j@ matches JsonView::Array(xs) && xs.len()
            == parts@.len() && forall|i: int|
            0 <= i < xs.len() ==> #[trigger] xs[i] == parts@[i]@),
        j matches Json::Object(members) ==> (j@ matches JsonView::Object(ms) && ms.len()
            == members@.len() && forall|i: int|
            0 <= i < ms.len() ==> #[trigger] ms[i] == (members@[i].0@, members@[i].1@)),
{
}

/// A name finds the value of the first member that has it, and nothing where no
/// member has it. Only objects have members.
pub proof fn law_first_member_is_found(d: JsonView, k: Seq<char>)
    ensures
        !(d is Object) ==> d.get(k) is None && d.at(k) is Null && !d.has(k),
        d matches JsonView::Object(ms) ==> {
            &&& forall|i: int|
                0 <= i < ms.len() && (#[trigger] ms[i]).0 == k && (forall|j: int|
                    0 <= j < i ==> (#[trigger] ms[j]).0 != k) ==> d.get(k) == Some(ms[i].1)
                    && d.at(k) == ms[i].1
            &&& (forall|i: int| 0 <= i < ms.len() ==> (#[trigger] ms[i]).0 != k) ==> d.get(k)
                is None && d.at(k) is Null && !d.has(k)
        },
{
    if let JsonView::Object(ms) = d {
        assert forall|i: int|
            0 <= i < ms.len() && (#[trigger] ms[i]).0 == k && (forall|j: int|
                0 <= j < i ==> (#[trigger] ms[j]).0 != k) implies d.get(k) == Some(ms[i].1)
            && d.at(k) == ms[i].1 by {
            lemma_first_member(ms, k, i);
        }
        if forall|i: int| 0 <= i < ms.len() ==> (#[trigger] ms[i]).0 != k {
            lemma_no_member(ms, k);
        }
    }
}

/// The first member of a name is the one found.
proof fn lemma_first_member(ms: Seq<(Seq<char>, JsonView)>, k: Seq<char>, i: int)
    requires
        0 <= i < ms.len(),
        ms[i].0 == k,
        forall|j: int| 0 <= j < i ==> (#[trigger] ms[j]).0 != k,
    ensures
        member(ms, k) == Some(ms[i].1),
    decreases i,
{
    if i > 0 {
        assert(ms[0].0 != k);
        let rest = ms.drop_first();
        assert forall|j: int| 0 <= j < i - 1 implies (#[trigger] rest[j]).0 != k by {
            assert(rest[j] == ms[j + 1]);
        }
        lemma_first_member(rest, k, i - 1);
    }
}

/// A name that no member has finds nothing.
proof fn lemma_no_member(ms: Seq<(Seq<char>, JsonView)>, k: Seq<char>)
    requires
        forall|i: int| 0 <= i < ms.len() ==> (#[trigger] ms[i]).0 != k,
    ensures
        member(ms, k) is None,
    decreases ms.len(),
{
    if ms.len() > 0 {
        assert(ms[0].0 != k);
        let rest = ms.drop_first();
        assert forall|j: int| 0 <= j < rest.len() implies (#[trigger] rest[j]).0 != k by {
            assert(rest[j] == ms[j + 1]);
        }
        lemma_no_member(rest, k);
    }
}

/// Setting a member keeps the others in their places and values. A known name
/// keeps its place; a new one comes last.
pub proof fn law_set_members_keep_their_places(
    ms: Seq<(Seq<char>, JsonView)>,
    k: Seq<char>,
    v: JsonView,
)
    ensures
        forall|i: int| 0 <= i < ms.len() ==> (#[trigger] put(ms, k, v)[i]).0 == ms[i].0,
        (forall|i: int| 0 <= i < ms.len() ==> (#[trigger] ms[i]).0 != k) ==> put(ms, k, v)
            == ms.push((k, v)),
        (exists|i: int| 0 <= i < ms.len() && (#[trigger] ms[i]).0 == k) ==> put(ms, k, v).len()
            == ms.len(),
        member(put(ms, k, v), k) == Some(v),
{
    lemma_put_positions(ms, k, v);
    law_put_then_member(ms, k, v, k);
    if put(ms, k, v).len() == ms.len() + 1 {
        assert(forall|i: int| 0 <= i < ms.len() ==> (#[trigger] ms[i]).0 != k);
    }
}

/// A number that reads as unsigned is that number, one that reads as signed only
/// is the negative one, and any other is the double that it displays as.
pub proof fn law_numbers_are_read_by_sign(
    unsigned: Option<u64>,
    signed: Option<i64>,
    display: Seq<char>,
)
    ensures
        unsigned matches Some(n) ==> number_read(unsigned, signed, display) == NumberView::PosInt(
            n,
        ),
        unsigned is None ==> (signed matches Some(n) ==> number_read(unsigned, signed, display)
            == NumberView::NegInt(n)),
        unsigned is None && signed is None ==> number_read(unsigned, signed, display)
            == NumberView::Float(display),
{
}

/// Null, truth values, texts and whole numbers are sent as they are, a double as
/// the text that it is displayed as, and what is no finite double as null.
pub proof fn law_scalars_are_sent(d: JsonView)
    ensures
        d is Null || d is Bool || d is Str ==> sent_document(d) == d,
        d matches JsonView::Number(NumberView::PosInt(n)) ==> sent_document(d) == d,
        d matches JsonView::Number(NumberView::NegInt(n)) ==> (n < 0 ==> sent_document(d) == d),
        d matches JsonView::Number(NumberView::NegInt(n)) ==> (n >= 0 ==> sent_document(d)
            == JsonView::Number(NumberView::PosInt(n as u64))),
        d matches JsonView::Number(NumberView::Float(text)) ==> match finite_double(text) {
            Some(display) => sent_document(d) == JsonView::Number(NumberView::Float(display)),
            None => sent_document(d) is Null,
        },
{
}

/// An object is sent as an object whose names ascend.
pub proof fn law_sent_names_ascend(ms: Seq<(Seq<char>, JsonView)>)
    ensures
        sent_document(JsonView::Object(ms)) is Object,
        ascending(sent_document(JsonView::Object(ms))->Object_0),
{
    lemma_sent_ascending(ms, ms.len() as int);
}

/// The names of the first `n` sent members ascend.
proof fn lemma_sent_ascending(ms: Seq<(Seq<char>, JsonView)>, n: int)
    requires
        0 <= n <= ms.len(),
    ensures
        ascending(sent_members(ms, n)),
    decreases n,
{
    if n > 0 {
        lemma_sent_ascending(ms, n - 1);
        law_stored_keeps_order(
            sent_members(ms, n - 1),
            ms[n - 1].0,
            sent_document(ms[n - 1].1),
        );
    }
}

/// A whole number is kept by its sign.
pub proof fn law_whole_numbers_by_sign(n: int)
    ensures
        0 <= n <= u64::MAX ==> whole_number(n) == NumberView::PosInt(n as u64),
        i64::MIN <= n < 0 ==> whole_number(n) == NumberView::NegInt(n as i64),
{
}

/// A character of an argument's name.
pub open spec fn in_a_name(c: char) -> bool {
    ||| 'a' <= c <= 'z'
    ||| 'A' <= c <= 'Z'
    ||| '0' <= c <= '9'
    ||| c == '_'
}

/// The names behind whatever stands in front are those of the text alone.
proof fn lemma_names_behind(front: Seq<char>, b: Seq<char>, from: int)
    requires
        0 <= from <= b.len(),
    ensures
        names_from(front + b, front.len() + from) == names_from(b, from),
    decreases b.len() - from,
{
    reveal_strlit("arguments.");
    let s = front + b;
    let n = front.len();
    let m = marker();
    lemma_first_at(b, m, from);
    lemma_first_at(s, m, n + from);
    assert forall|j: int| from <= j implies occurs_at(s, m, n + j) == occurs_at(b, m, j) by {
        if j + m.len() <= b.len() {
            assert(s.subrange(n + j, n + j + m.len()) =~= b.subrange(j, j + m.len()));
        }
    }
    match first_at(b, m, from) {
        Some(i) => {
            assert(occurs_at(s, m, n + i));
            if let Some(k) = first_at(s, m, n + from) {
                assert(occurs_at(s, m, n + (k - n)) == occurs_at(b, m, k - n));
                assert(k == n + i);
            }
            let start = i + m.len();
            let end = name_end(b, start);
            lemma_name_end(b, start);
            lemma_name_end_behind(front, b, start);
            lemma_names_behind(front, b, end);
            assert(s.subrange(n + start, n + end) =~= b.subrange(start, end));
        },
        None => {
            if let Some(k) = first_at(s, m, n + from) {
                assert(occurs_at(s, m, n + (k - n)) == occurs_at(b, m, k - n));
            }
        },
    }
}

/// A run of name characters ends behind whatever stands in front as it does
/// alone.
proof fn lemma_name_end_behind(front: Seq<char>, b: Seq<char>, start: int)
    requires
        0 <= start <= b.len(),
    ensures
        name_end(front + b, front.len() + start) == front.len() + name_end(b, start),
    decreases b.len() - start,
{
    let s = front + b;
    if start < b.len() {
        assert(s[front.len() + start] == b[start]);
        lemma_name_end_behind(front, b, start + 1);
    }
}

/// What stands right behind `arguments.` is a name as far as its letters, digits
/// and underscores reach; the search goes on behind it. Where no such character
/// stands there, there is no name.
pub proof fn law_names_follow_the_word(name: Seq<char>, rest: Seq<char>)
    requires
        forall|i: int| 0 <= i < name.len() ==> in_a_name(#[trigger] name[i]),
        rest.len() > 0 ==> !in_a_name(rest[0]),
    ensures
        name.len() > 0 ==> argument_names("arguments."@ + name + rest) == seq![name]
            + argument_names(rest),
        name.len() == 0 ==> argument_names("arguments."@ + rest) == argument_names(rest),
{
    reveal_strlit("arguments.");
    let front = "arguments."@ + name;
    let s = front + rest;
    let m = marker();
    let start = m.len() as int;
    assert(s.subrange(0, start) =~= m);
    assert(occurs_at(s, m, 0));
    lemma_first_at(s, m, 0);
    lemma_name_run(s, start, front.len() as int);
    assert(name_end(s, start) == front.len());
    lemma_names_behind(front, rest, 0);
    assert(s.subrange(start, front.len() as int) =~= name);
    if name.len() == 0 {
        assert("arguments."@ + rest =~= s);
    }
}

/// A run of name characters ends where the first other character stands.
proof fn lemma_name_run(s: Seq<char>, start: int, end: int)
    requires
        0 <= start <= end <= s.len(),
        forall|i: int| start <= i < end ==> in_a_name(#[trigger] s[i]),
        end < s.len() ==> !in_a_name(s[end]),
    ensures
        name_end(s, start) == end,
    decreases end - start,
{
    if start < end {
        assert(in_a_name(s[start]));
        lemma_name_run(s, start + 1, end);
    }
}

/// A text without the word refers to no argument.
pub proof fn law_without_the_word_no_names(s: Seq<char>)
    requires
        forall|i: int| !occurs_at(s, "arguments."@, i),
    ensures
        argument_names(s).len() == 0,
{
    lemma_first_at(s, marker(), 0);
}

/// An argument is referred to by a binding exactly where one of its parameter
/// expressions refers to it, and is named once.
pub proof fn law_arguments_of_all_parameters(params: Seq<CompiledParam>, name: Seq<char>)
    ensures
        first_seen(all_argument_names(params, params.len() as int)).contains(name) <==> exists|i: int|
            0 <= i < params.len() && argument_names((#[trigger] params[i]).source@).contains(name),
        forall|i: int, j: int|
            0 <= i < j < first_seen(all_argument_names(params, params.len() as int)).len()
                ==> first_seen(all_argument_names(params, params.len() as int))[i] != first_seen(
                all_argument_names(params, params.len() as int),
            )[j],
{
    law_first_seen_is_a_set(all_argument_names(params, params.len() as int));
    lemma_all_names(params, params.len() as int, name);
}

/// The names of the first `n` expressions are those of each of them.
proof fn lemma_all_names(params: Seq<CompiledParam>, n: int, name: Seq<char>)
    requires
        0 <= n <= params.len(),
    ensures
        all_argument_names(params, n).contains(name) <==> exists|i: int|
            0 <= i < n && argument_names((#[trigger] params[i]).source@).contains(name),
    decreases n,
{
    if n > 0 {
        lemma_all_names(params, n - 1, name);
        let before = all_argument_names(params, n - 1);
        let more = argument_names(params[n - 1].source@);
        let all = before + more;
        if before.contains(name) {
            let k = choose|k: int| 0 <= k < before.len() && before[k] == name;
            assert(all[k] == name);
        }
        if more.contains(name) {
            let k = choose|k: int| 0 <= k < more.len() && more[k] == name;
            assert(all[before.len() + k] == name);
        }
        if all.contains(name) {
            let k = choose|k: int| 0 <= k < all.len() && all[k] == name;
            if k < before.len() {
                assert(before[k] == name);
            } else {
                assert(more[k - before.len()] == name);
            }
        }
    }
}

/// The names of one expression come in its order, and those of an expression
/// before those of the next.
pub proof fn law_names_follow_the_parameters(params: Seq<CompiledParam>, last: CompiledParam)
    ensures
        all_argument_names(params.push(last), params.len() as int + 1) == all_argument_names(
            params,
            params.len() as int,
        ) + argument_names(last.source@),
        all_argument_names(Seq::empty(), 0).len() == 0,
{
    lemma_names_of_first(params, last, params.len() as int);
}

/// One more expression leaves the names of the first ones as they are.
proof fn lemma_names_of_first(params: Seq<CompiledParam>, last: CompiledParam, n: int)
    requires
        0 <= n <= params.len(),
    ensures
        all_argument_names(params.push(last), n) == all_argument_names(params, n),
    decreases n,
{
    if n > 0 {
        lemma_names_of_first(params, last, n - 1);
        assert(params.push(last)[n - 1] == params[n - 1]);
    }
}

/// An input schema takes any object: it declares exactly the given names, each
/// without a type, and refuses no other.
pub proof fn law_input_schema_declares_the_names(names: Seq<Seq<char>>, k: Seq<char>)
    ensures
        ({
            let schema = input_schema_of(names);
            let declared = schema.at("properties"@);
            &&& schema.at("type"@) == JsonView::Str("object"@)
            &&& schema.at("additionalProperties"@) == JsonView::Bool(true)
            &&& schema is Object
            &&& schema->Object_0.len() == 3
            &&& declared is Object
            &&& declared.has(k) <==> names.contains(k)
            &&& declared.has(k) ==> declared.at(k) == JsonView::Object(Seq::empty())
        }),
{
    broadcast use lemma_member_push;

    reveal_strlit("type");
    reveal_strlit("properties");
    reveal_strlit("additionalProperties");
    assert("type"@.len() == 4 && "properties"@.len() == 10 && "additionalProperties"@.len() == 20);
    lemma_declared(names, names.len() as int, k);
    if names.contains(k) {
        let i = choose|i: int| 0 <= i < names.len() && names[i] == k;
    }
}

/// The first `n` names are declared, each without a type.
proof fn lemma_declared(names: Seq<Seq<char>>, n: int, k: Seq<char>)
    requires
        0 <= n <= names.len(),
    ensures
        member(untyped_properties(names, n), k) is Some <==> exists|i: int|
            0 <= i < n && #[trigger] names[i] == k,
        member(untyped_properties(names, n), k) matches Some(v) ==> v == JsonView::Object(
            Seq::empty(),
        ),
    decreases n,
{
    if n > 0 {
        lemma_declared(names, n - 1, k);
        law_put_then_member(
            untyped_properties(names, n - 1),
            names[n - 1],
            JsonView::Object(Seq::empty()),
            k,
        );
        if names[n - 1] == k {
            law_put_then_member(
                untyped_properties(names, n - 1),
                k,
                JsonView::Object(Seq::empty()),
                k,
            );
        }
    }
}

/// The input schema of a binding declares exactly the arguments that one of its
/// parameter expressions refers to; that of an unknown name declares none.
pub proof fn law_binding_declares_its_arguments(p: BigQueryProfile, k: Seq<char>)
    ensures
        input_schema_for(Some(p)).at("properties"@).has(k) <==> exists|i: int|
            0 <= i < p.compiled_params@.len() && argument_names(
                (#[trigger] p.compiled_params@[i]).source@,
            ).contains(k),
        !input_schema_for(None).at("properties"@).has(k),
        input_schema_for(None).at("type"@) == JsonView::Str("object"@),
{
    let names = first_seen(
        all_argument_names(p.compiled_params@, p.compiled_params@.len() as int),
    );
    law_arguments_of_all_parameters(p.compiled_params@, k);
    law_input_schema_declares_the_names(names, k);
    law_input_schema_declares_the_names(Seq::empty(), k);
}

/// The words of the schemas differ from each other where they stand together.
proof fn lemma_schema_words()
    ensures
        "toolName"@.len() == 8,
        "profile"@.len() == 7,
        "request"@.len() == 7,
        "response"@.len() == 8,
        "estimate"@.len() == 8,
        "truncated"@.len() == 9,
        "downstreamError"@.len() == 15,
        "downstreamErrors"@.len() == 16,
        "error"@.len() == 5,
        "toolName"@[0] == 't',
        "profile"@[0] == 'p',
        "request"@[0] == 'r',
        "response"@[0] == 'r',
        "estimate"@[0] == 'e',
        "$schema"@.len() == 7,
        "type"@.len() == 4,
        "items"@.len() == 5,
        "properties"@.len() == 10,
        "additionalProperties"@.len() == 20,
        "project"@.len() == 7,
        "dataset"@.len() == 7,
        "project"@[0] == 'p',
        "dataset"@[0] == 'd',
        "dryRun"@.len() == 6,
        "rows"@.len() == 4,
        "count"@.len() == 5,
        "durationMs"@.len() == 10,
        "totalBytesProcessed"@.len() == 19,
        "estimatedCostUsd"@.len() == 16,
        "cacheHit"@.len() == 8,
        "schema"@.len() == 6,
{
    reveal_strlit("toolName");
    reveal_strlit("profile");
    reveal_strlit("request");
    reveal_strlit("response");
    reveal_strlit("estimate");
    reveal_strlit("truncated");
    reveal_strlit("downstreamError");
    reveal_strlit("downstreamErrors");
    reveal_strlit("error");
    reveal_strlit("$schema");
    reveal_strlit("type");
    reveal_strlit("items");
    reveal_strlit("properties");
    reveal_strlit("additionalProperties");
    reveal_strlit("project");
    reveal_strlit("dataset");
    reveal_strlit("dryRun");
    reveal_strlit("rows");
    reveal_strlit("count");
    reveal_strlit("durationMs");
    reveal_strlit("totalBytesProcessed");
    reveal_strlit("estimatedCostUsd");
    reveal_strlit("cacheHit");
    reveal_strlit("schema");
}

/// The schema of an envelope is an open object schema of the draft that it names.
/// What both envelopes hold has its type in both: texts, the truncation flag, and
/// the failure slots, which may be null.
pub proof fn law_envelope_schema_types(dry_run: bool)
    ensures
        ({
            let schema = if dry_run {
                envelope_schema(estimate_properties())
            } else {
                envelope_schema(result_properties())
            };
            let declared = schema.at("properties"@);
            let request = declared.at("request"@);
            &&& schema.at("$schema"@) == JsonView::Str(
                "https://json-schema.org/draft/2020-12/schema"@,
            )
            &&& schema.at("type"@) == JsonView::Str("object"@)
            &&& schema.at("additionalProperties"@) == JsonView::Bool(true)
            &&& declared.at("toolName"@).at("type"@) == JsonView::Str("string"@)
            &&& declared.at("profile"@).at("type"@) == JsonView::Str("string"@)
            &&& declared.at("truncated"@).at("type"@) == JsonView::Str("boolean"@)
            &&& declared.at("downstreamError"@).at("type"@) == JsonView::Array(
                seq![JsonView::Str("object"@), JsonView::Str("null"@)],
            )
            &&& declared.at("downstreamErrors"@).at("type"@) == JsonView::Str("array"@)
            &&& declared.at("downstreamErrors"@).at("items"@) == JsonView::Object(Seq::empty())
            &&& declared.at("error"@).at("type"@) == JsonView::Array(
                seq![JsonView::Str("string"@), JsonView::Str("null"@)],
            )
            &&& request.at("type"@) == JsonView::Str("object"@)
            &&& request.at("additionalProperties"@) == JsonView::Bool(true)
            &&& request.at("properties"@).at("project"@).at("type"@) == JsonView::Str("string"@)
            &&& request.at("properties"@).at("dataset"@).at("type"@) == JsonView::Array(
                seq![JsonView::Str("string"@), JsonView::Str("null"@)],
            )
        }),
{
    broadcast use lemma_member_push;

    lemma_schema_words();
}

/// The row envelope's response may be null. Its rows may be anything, and its
/// count, its truncation flag and its time have their types.
pub proof fn law_result_schema_types()
    ensures
        ({
            let response = envelope_schema(result_properties()).at("properties"@).at("response"@);
            let declared = response.at("properties"@);
            &&& response.at("type"@) == JsonView::Array(
                seq![JsonView::Str("object"@), JsonView::Str("null"@)],
            )
            &&& response.at("additionalProperties"@) == JsonView::Bool(true)
            &&& declared.at("rows"@).at("type"@) == JsonView::Array(
                seq![JsonView::Str("array"@), JsonView::Str("null"@)],
            )
            &&& declared.at("rows"@).at("items"@) == JsonView::Object(Seq::empty())
            &&& declared.at("count"@).at("type"@) == JsonView::Array(
                seq![JsonView::Str("integer"@), JsonView::Str("null"@)],
            )
            &&& declared.at("truncated"@).at("type"@) == JsonView::Str("boolean"@)
            &&& declared.at("durationMs"@).at("type"@) == JsonView::Str("integer"@)
        }),
{
    broadcast use lemma_member_push;

    lemma_schema_words();
}

/// The estimate envelope's estimate may be null. Its bytes and its cost may be
/// null, and its cache hit, its columns and its time have their types.
pub proof fn law_estimate_schema_types()
    ensures
        ({
            let whole = envelope_schema(estimate_properties()).at("properties"@);
            let estimate = whole.at("estimate"@);
            let declared = estimate.at("properties"@);
            &&& whole.at("request"@).at("properties"@).at("dryRun"@).at("type"@) == JsonView::Str(
                "boolean"@,
            )
            &&& estimate.at("type"@) == JsonView::Array(
                seq![JsonView::Str("object"@), JsonView::Str("null"@)],
            )
            &&& estimate.at("additionalProperties"@) == JsonView::Bool(true)
            &&& declared.at("totalBytesProcessed"@).at("type"@) == JsonView::Array(
                seq![JsonView::Str("integer"@), JsonView::Str("null"@)],
            )
            &&& declared.at("estimatedCostUsd"@).at("type"@) == JsonView::Array(
                seq![JsonView::Str("number"@), JsonView::Str("null"@)],
            )
            &&& declared.at("cacheHit"@).at("type"@) == JsonView::Str("boolean"@)
            &&& declared.at("schema"@).at("type"@) == JsonView::Str("array"@)
            &&& declared.at("schema"@).at("items"@) == JsonView::Object(Seq::empty())
            &&& declared.at("durationMs"@).at("type"@) == JsonView::Str("integer"@)
        }),
{
    broadcast use lemma_member_push;

    lemma_schema_words();
}

/// A dry-run binding declares an estimate and no response; every other binding,
/// and an unknown name, declares a response and no estimate.
pub proof fn law_output_schema_by_kind(p: BigQueryProfile)
    ensures
        ({
            let declared = output_schema_of(Some(p)).at("properties"@);
            &&& declared.has("estimate"@) <==> p.dry_run
            &&& declared.has("response"@) <==> !p.dry_run
        }),
        output_schema_of(None).at("properties"@).has("response"@),
        !output_schema_of(None).at("properties"@).has("estimate"@),
{
    broadcast use lemma_member_push;

    lemma_schema_words();
}

/// Of members of one name the last one is sent, and one more member changes what
/// is sent under no other name.
pub proof fn law_last_member_is_sent(
    ms: Seq<(Seq<char>, JsonView)>,
    k: Seq<char>,
    v: JsonView,
    other: Seq<char>,
)
    ensures
        sent_document(JsonView::Object(ms.push((k, v)))).get(k) == Some(sent_document(v)),
        other != k ==> sent_document(JsonView::Object(ms.push((k, v)))).get(other)
            == sent_document(JsonView::Object(ms)).get(other),
        sent_document(JsonView::Object(Seq::empty())) == JsonView::Object(Seq::empty()),
{
    let n = ms.len() as int;
    let longer = ms.push((k, v));
    let before = sent_members(ms, n);
    lemma_sent_prefix(ms, k, v, n);
    assert(longer[n] == (k, v));
    assert(sent_members(longer, n + 1) == stored(before, k, sent_document(v)));
    law_stored_then_lookup(before, k, sent_document(v), other);
    lemma_found_alike(sent_members(longer, n + 1), k);
    lemma_found_alike(sent_members(longer, n + 1), other);
    lemma_found_alike(before, other);
    let none = Seq::<(Seq<char>, JsonView)>::empty();
    assert(sent_members(none, none.len() as int) =~= none);
}

/// One more member leaves what is sent of the first ones as it is.
proof fn lemma_sent_prefix(ms: Seq<(Seq<char>, JsonView)>, k: Seq<char>, v: JsonView, n: int)
    requires
        0 <= n <= ms.len(),
    ensures
        sent_members(ms.push((k, v)), n) == sent_members(ms, n),
    decreases n,
{
    if n > 0 {
        lemma_sent_prefix(ms, k, v, n - 1);
        assert(ms.push((k, v))[n - 1] == ms[n - 1]);
    }
}

/// A member is found as an entry of its name is.
proof fn lemma_found_alike(ms: Seq<(Seq<char>, JsonView)>, k: Seq<char>)
    ensures
        member(ms, k) == lookup(ms, k),
    decreases ms.len(),
{
    if ms.len() > 0 {
        lemma_found_alike(ms.drop_first(), k);
    }
}

/// What stands in front of the first `arguments.` names nothing and hides
/// nothing, whatever it is.
pub proof fn law_text_before_the_word_hides_nothing(front: Seq<char>, rest: Seq<char>)
    requires
        forall|i: int| 0 <= i < front.len() ==> !occurs_at(front + rest, "arguments."@, i),
    ensures
        argument_names(front + rest) == argument_names(rest),
{
    let s = front + rest;
    let n = front.len() as int;
    lemma_first_at(s, marker(), 0);
    lemma_first_at(s, marker(), n);
    if let Some(i) = first_at(s, marker(), 0) {
        assert(n <= i);
        if let Some(j) = first_at(s, marker(), n) {
            assert(i == j);
        }
    } else if let Some(j) = first_at(s, marker(), n) {
        assert(0 <= j);
    }
    assert(first_at(s, marker(), 0) == first_at(s, marker(), n));
    lemma_names_behind(front, rest, 0);
}

} // verus!
