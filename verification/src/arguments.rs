//! The argument names that a binding's parameter expressions refer to, and the
//! input schema made of them.

use vstd::prelude::*;

use crate::envelope::{open_object, open_object_schema};
use crate::json::{no_members, put, Json, JsonObject, JsonView};
use crate::text::{chars_of, find_from, occurs_at, same_text, texts};

verus! {

/// A parameter expression that compiled.
#[derive(Debug, Clone)]
pub struct CompiledParam {
    pub source: String,
}

/// The word before an argument's name.
pub open spec fn marker() -> Seq<char> {
    "arguments."@
}

/// A character of an argument's name: an ASCII letter or digit, or `_`.
pub open spec fn is_name_char(c: char) -> bool {
    'a' <= c <= 'z' || 'A' <= c <= 'Z' || '0' <= c <= '9' || c == '_'
}

/// Where the run of name characters that begins at `start` ends.
pub open spec fn name_end(s: Seq<char>, start: int) -> int
    decreases s.len() - start,
{
    if 0 <= start < s.len() && is_name_char(s[start]) {
        name_end(s, start + 1)
    } else {
        start
    }
}

/// The first position at or after `from` where `needle` stands.
pub open spec fn first_at(s: Seq<char>, needle: Seq<char>, from: int) -> Option<int>
    decreases s.len() - from + 1,
{
    if from < 0 || from + needle.len() > s.len() {
        None
    } else if occurs_at(s, needle, from) {
        Some(from)
    } else {
        first_at(s, needle, from + 1)
    }
}

/// The names that follow the marker from `from` on, each as long as it can be.
/// The search goes on behind each name.
pub open spec fn names_from(s: Seq<char>, from: int) -> Seq<Seq<char>>
    decreases s.len() - from,
{
    match first_at(s, marker(), from) {
        Some(i) => {
            let start = i + marker().len();
            let end = name_end(s, start);
            proof {
                reveal_strlit("arguments.");
                lemma_first_at(s, marker(), from);
                lemma_name_end(s, start);
            }
            if start < end {
                seq![s.subrange(start, end)] + names_from(s, end)
            } else {
                names_from(s, end)
            }
        },
        None => Seq::empty(),
    }
}

/// The argument names in a parameter expression, in order.
pub open spec fn argument_names(source: Seq<char>) -> Seq<Seq<char>> {
    names_from(source, 0)
}

/// A run of name characters ends at or after its start, within the text, and
/// where no name character follows.
pub proof fn lemma_name_end(s: Seq<char>, start: int)
    requires
        0 <= start <= s.len(),
    ensures
        start <= name_end(s, start) <= s.len(),
        forall|i: int| start <= i < name_end(s, start) ==> is_name_char(#[trigger] s[i]),
        name_end(s, start) < s.len() ==> !is_name_char(s[name_end(s, start)]),
    decreases s.len() - start,
{
    if start < s.len() && is_name_char(s[start]) {
        lemma_name_end(s, start + 1);
    }
}

/// The first position is one where the needle stands, and none before it is.
pub proof fn lemma_first_at(s: Seq<char>, needle: Seq<char>, from: int)
    requires
        0 <= from,
    ensures
        match first_at(s, needle, from) {
            Some(i) => {
                &&& from <= i
                &&& occurs_at(s, needle, i)
                &&& forall|j: int| from <= j < i ==> !occurs_at(s, needle, j)
            },
            None => forall|j: int| from <= j ==> !occurs_at(s, needle, j),
        },
    decreases s.len() - from + 1,
{
    if from + needle.len() <= s.len() && !occurs_at(s, needle, from) {
        lemma_first_at(s, needle, from + 1);
    }
}

/// Extract the names that stand as `arguments.<name>` in a parameter
/// expression. A plain scan, and a hint only: it refuses nothing.
pub fn extract_argument_idents(source: &str) -> (r: Vec<String>)
    ensures
        texts(r@) == argument_names(source@),
{
    proof {
        reveal_strlit("arguments.");
    }
    let cs = chars_of(source);
    let mark = chars_of("arguments.");
    let mut out: Vec<String> = Vec::new();
    let mut from: usize = 0;
    assert(texts(out@) =~= Seq::<Seq<char>>::empty());
    assert(texts(out@) + names_from(source@, 0) =~= argument_names(source@));
    loop
        invariant
            cs@ == source@,
            mark@ == marker(),
            marker().len() == 10,
            from <= cs.len(),
            texts(out@) + names_from(source@, from as int) == argument_names(source@),
        ensures
            texts(out@) + names_from(source@, from as int) == argument_names(source@),
            forall|j: int| from <= j ==> !occurs_at(source@, marker(), j),
        decreases cs.len() - from,
    {
        let i: usize = match find_from(&cs, &mark, from) {
            Some(i) => i,
            None => {
                break ;
            },
        };
        proof {
            lemma_first_at(source@, marker(), from as int);
            lemma_name_end(source@, i + marker().len());
        }
        let start: usize = i + mark.len();
        let mut end: usize = start;
        while end < cs.len() && name_char(cs[end])
            invariant
                cs@ == source@,
                start <= end <= cs.len(),
                name_end(source@, start as int) == name_end(source@, end as int),
            decreases cs.len() - end,
        {
            end = end + 1;
        }
        let ghost before = texts(out@);
        if end > start {
            out.push(source.substring_char(start, end).to_owned());
            assert(texts(out@) =~= before + seq![source@.subrange(start as int, end as int)]);
            assert(texts(out@) + names_from(source@, end as int) =~= before + (seq![
                source@.subrange(start as int, end as int),
            ] + names_from(source@, end as int)));
        }
        from = end;
    }
    proof {
        lemma_first_at(source@, marker(), from as int);
        assert(texts(out@) + names_from(source@, from as int) =~= texts(out@));
    }
    out
}

/// Whether the character can stand in an argument's name.
fn name_char(c: char) -> (r: bool)
    ensures
        r == is_name_char(c),
{
    ('a' <= c && c <= 'z') || ('A' <= c && c <= 'Z') || ('0' <= c && c <= '9') || c == '_'
}

/// The names with repetitions left out, each where it first came.
pub open spec fn first_seen(names: Seq<Seq<char>>) -> Seq<Seq<char>>
    decreases names.len(),
{
    if names.len() == 0 {
        Seq::empty()
    } else {
        let kept = first_seen(names.drop_last());
        if kept.contains(names.last()) {
            kept
        } else {
            kept.push(names.last())
        }
    }
}

/// The argument names in the first `n` parameter expressions, in order.
pub open spec fn all_argument_names(params: Seq<CompiledParam>, n: int) -> Seq<Seq<char>>
    decreases n,
{
    if n <= 0 {
        Seq::empty()
    } else {
        all_argument_names(params, n - 1) + argument_names(params[n - 1].source@)
    }
}

/// Whether the name stands in the vector.
fn holds(names: &Vec<String>, name: &str) -> (r: bool)
    ensures
        r == texts(names@).contains(name@),
{
    let mut i: usize = 0;
    while i < names.len()
        invariant
            i <= names.len(),
            forall|j: int| 0 <= j < i ==> #[trigger] texts(names@)[j] != name@,
        decreases names.len() - i,
    {
        if same_text(names[i].as_str(), name) {
            assert(texts(names@)[i as int] == name@);
            return true;
        }
        i = i + 1;
    }
    false
}

/// Collect the distinct argument names that the parameter expressions refer
/// to, in the order in which they first come.
pub fn arguments_referenced_by_params(params: &[CompiledParam]) -> (r: Vec<String>)
    ensures
        texts(r@) == first_seen(all_argument_names(params@, params@.len() as int)),
{
    let mut names: Vec<String> = Vec::new();
    assert(texts(names@) =~= Seq::<Seq<char>>::empty());
    let mut i: usize = 0;
    while i < params.len()
        invariant
            i <= params.len(),
            texts(names@) == first_seen(all_argument_names(params@, i as int)),
        decreases params.len() - i,
    {
        let found = extract_argument_idents(params[i].source.as_str());
        let ghost base = all_argument_names(params@, i as int);
        let ghost more = argument_names(params@[i as int].source@);
        let mut k: usize = 0;
        assert(base + more.take(0) =~= base);
        while k < found.len()
            invariant
                k <= found.len(),
                texts(found@) == more,
                texts(names@) == first_seen(base + more.take(k as int)),
            decreases found.len() - k,
        {
            proof {
                let longer = base + more.take(k + 1);
                assert(longer.drop_last() =~= base + more.take(k as int));
                assert(longer.last() == texts(found@)[k as int]);
            }
            if !holds(&names, found[k].as_str()) {
                let ghost before = texts(names@);
                names.push(found[k].clone());
                assert(texts(names@) =~= before.push(found@[k as int]@));
            }
            k = k + 1;
        }
        assert(more.take(more.len() as int) =~= more);
        i = i + 1;
    }
    names
}

/// The properties of an input schema: each name, untyped.
pub open spec fn untyped_properties(names: Seq<Seq<char>>, n: int) -> Seq<(Seq<char>, JsonView)>
    decreases n,
{
    if n <= 0 {
        no_members()
    } else {
        put(untyped_properties(names, n - 1), names[n - 1], JsonView::Object(no_members()))
    }
}

/// The input schema over the given names: open, so that it refuses no
/// argument.
pub open spec fn input_schema_of(names: Seq<Seq<char>>) -> JsonView {
    open_object(JsonView::Str("object"@), untyped_properties(names, names.len() as int))
}

/// Build an open object schema from the names of the arguments. Without names
/// it takes any object.
pub fn params_input_schema(names: &[String]) -> (r: Json)
    ensures
        r@ == input_schema_of(texts(names@)),
{
    let mut properties = JsonObject::new();
    let mut i: usize = 0;
    while i < names.len()
        invariant
            i <= names.len(),
            properties@ == untyped_properties(texts(names@), i as int),
        decreases names.len() - i,
    {
        assert(texts(names@)[i as int] == names@[i as int]@);
        properties.insert(names[i].as_str(), JsonObject::new().build());
        i = i + 1;
    }
    open_object_schema(Json::text("object"), properties)
}

/// Every extracted name stands in the expression right behind a marker, is not
/// empty, holds name characters only, and is as long as it can be.
pub open spec fn is_argument_name(s: Seq<char>, name: Seq<char>, i: int) -> bool {
    let start = i + marker().len();
    let end = start + name.len();
    &&& occurs_at(s, marker(), i)
    &&& 0 < name.len()
    &&& end <= s.len()
    &&& s.subrange(start, end) == name
    &&& forall|k: int| start <= k < end ==> is_name_char(#[trigger] s[k])
    &&& end < s.len() ==> !is_name_char(s[end])
}

/// Each extracted name is one that the expression refers to.
pub proof fn law_names_are_referenced(s: Seq<char>, from: int, k: int)
    requires
        0 <= from,
        0 <= k < names_from(s, from).len(),
    ensures
        exists|i: int| from <= i && is_argument_name(s, names_from(s, from)[k], i),
    decreases s.len() - from,
{
    reveal_strlit("arguments.");
    lemma_first_at(s, marker(), from);
    match first_at(s, marker(), from) {
        Some(i) => {
            let start = i + marker().len();
            lemma_name_end(s, start);
            let end = name_end(s, start);
            let all = names_from(s, from);
            if start < end {
                if k == 0 {
                    assert(all[0] == s.subrange(start, end));
                    assert(is_argument_name(s, all[0], i));
                } else {
                    assert(all[k] == names_from(s, end)[k - 1]);
                    law_names_are_referenced(s, end, k - 1);
                    let j = choose|j: int| end <= j && is_argument_name(s, all[k], j);
                    assert(from <= j);
                }
            } else {
                law_names_are_referenced(s, end, k);
                let j = choose|j: int| end <= j && is_argument_name(s, all[k], j);
                assert(from <= j);
            }
        },
        None => {},
    }
}

/// An expression that does not hold the marker refers to no argument.
pub proof fn law_no_marker_no_names(s: Seq<char>)
    requires
        forall|i: int| !occurs_at(s, marker(), i),
    ensures
        argument_names(s) == Seq::<Seq<char>>::empty(),
{
    lemma_first_at(s, marker(), 0);
}

/// Of repeated names one is left, no name is lost, and none is made up.
pub proof fn law_first_seen_is_a_set(names: Seq<Seq<char>>)
    ensures
        forall|i: int, j: int|
            0 <= i < j < first_seen(names).len() ==> first_seen(names)[i] != first_seen(names)[j],
        forall|name: Seq<char>| first_seen(names).contains(name) == names.contains(name),
    decreases names.len(),
{
    if names.len() > 0 {
        let rest = names.drop_last();
        let kept = first_seen(rest);
        law_first_seen_is_a_set(rest);
        assert forall|name: Seq<char>| first_seen(names).contains(name) == names.contains(
            name,
        ) by {
            assert(kept.contains(name) == rest.contains(name));
            if names.contains(name) {
                let i = choose|i: int| 0 <= i < names.len() && names[i] == name;
                if i < rest.len() {
                    assert(rest[i] == name);
                }
            }
            if rest.contains(name) {
                let i = choose|i: int| 0 <= i < rest.len() && rest[i] == name;
                assert(names[i] == name);
            }
            assert(names[names.len() - 1] == names.last());
            if kept.contains(name) {
                let i = choose|i: int| 0 <= i < kept.len() && kept[i] == name;
                assert(first_seen(names)[i] == name);
            }
            if !kept.contains(names.last()) {
                assert(first_seen(names)[kept.len() as int] == names.last());
            }
            if first_seen(names).contains(name) {
                let i = choose|i: int| 0 <= i < first_seen(names).len() && first_seen(names)[i]
                    == name;
                if i < kept.len() {
                    assert(kept[i] == name);
                }
            }
        }
    }
}

/// Names are kept in the order in which they first come: every occurrence of a
/// kept name has an occurrence of each name kept before it in front of it.
pub proof fn law_first_seen_keeps_order(names: Seq<Seq<char>>, i: int, j: int, b: int)
    requires
        0 <= i < j < first_seen(names).len(),
        0 <= b < names.len(),
        names[b] == first_seen(names)[j],
    ensures
        exists|a: int| 0 <= a < b && #[trigger] names[a] == first_seen(names)[i],
    decreases names.len(),
{
    let rest = names.drop_last();
    let kept = first_seen(rest);
    law_first_seen_is_a_set(rest);
    assert(first_seen(names)[i] == kept[i]);
    if j < kept.len() {
        assert(first_seen(names)[j] == kept[j]);
        if b < rest.len() {
            law_first_seen_keeps_order(rest, i, j, b);
            let a = choose|a: int| 0 <= a < b && #[trigger] rest[a] == kept[i];
            assert(names[a] == kept[i]);
        } else {
            assert(kept.contains(kept[j]));
            assert(rest.contains(kept[j]));
            let earlier = choose|e: int| 0 <= e < rest.len() && rest[e] == kept[j];
            law_first_seen_keeps_order(rest, i, j, earlier);
            let a = choose|a: int| 0 <= a < earlier && #[trigger] rest[a] == kept[i];
            assert(names[a] == kept[i]);
        }
    } else {
        if b < rest.len() {
            assert(rest[b] == names.last());
            assert(rest.contains(names.last()));
        }
        assert(kept.contains(kept[i]));
        assert(rest.contains(kept[i]));
        let a = choose|a: int| 0 <= a < rest.len() && rest[a] == kept[i];
        assert(names[a] == kept[i]);
    }
}

/// The first position is the one where the needle stands and before which it
/// does not.
proof fn lemma_first_at_is(s: Seq<char>, needle: Seq<char>, from: int, i: int)
    requires
        0 <= from <= i,
        occurs_at(s, needle, i),
        forall|j: int| from <= j < i ==> !occurs_at(s, needle, j),
    ensures
        first_at(s, needle, from) == Some(i),
{
    lemma_first_at(s, needle, from);
}

/// Where the marker stands in two texts joined by a space: in the one or in the
/// other.
proof fn lemma_marker_in_joined(a: Seq<char>, b: Seq<char>, i: int)
    ensures
        ({
            let s = a + " "@ + b;
            let n = a.len();
            &&& i + marker().len() <= n ==> (occurs_at(s, marker(), i) <==> occurs_at(
                a,
                marker(),
                i,
            ))
            &&& i <= n < i + marker().len() ==> !occurs_at(s, marker(), i)
            &&& i > n ==> (occurs_at(s, marker(), i) <==> occurs_at(b, marker(), i - n - 1))
            &&& i <= n < i + marker().len() ==> !occurs_at(a, marker(), i)
        }),
{
    reveal_strlit(" ");
    reveal_strlit("arguments.");
    let s = a + " "@ + b;
    let n = a.len();
    let m = marker();
    if 0 <= i && i + m.len() <= n {
        assert(s.subrange(i, i + m.len()) =~= a.subrange(i, i + m.len()));
    } else if 0 <= i <= n && i + m.len() <= s.len() {
        assert(s.subrange(i, i + m.len())[n - i] == s[n as int]);
        assert(s[n as int] == ' ');
        assert(m[n - i] != ' ');
    } else if i > n && i + m.len() <= s.len() {
        assert(s.subrange(i, i + m.len()) =~= b.subrange(i - n - 1, i - n - 1 + m.len()));
    }
}

/// A run of name characters in the first of two joined texts ends in it.
proof fn lemma_name_end_first(a: Seq<char>, b: Seq<char>, start: int)
    requires
        0 <= start <= a.len(),
    ensures
        name_end(a + " "@ + b, start) == name_end(a, start),
    decreases a.len() - start,
{
    reveal_strlit(" ");
    let s = a + " "@ + b;
    if start < a.len() {
        assert(s[start] == a[start]);
        lemma_name_end_first(a, b, start + 1);
    } else {
        assert(s[start] == ' ');
    }
}

/// A run of name characters in the second of two joined texts ends where it does
/// in that text alone.
proof fn lemma_name_end_second(a: Seq<char>, b: Seq<char>, start: int)
    requires
        0 <= start <= b.len(),
    ensures
        name_end(a + " "@ + b, a.len() + 1 + start) == a.len() + 1 + name_end(b, start),
    decreases b.len() - start,
{
    reveal_strlit(" ");
    let s = a + " "@ + b;
    assert(s.len() == a.len() + 1 + b.len());
    if start < b.len() {
        assert(s[a.len() + 1 + start] == b[start]);
        lemma_name_end_second(a, b, start + 1);
    }
}

/// The names behind the space of two joined texts are those of the second.
proof fn lemma_names_of_second(a: Seq<char>, b: Seq<char>, from: int)
    requires
        0 <= from <= b.len(),
    ensures
        names_from(a + " "@ + b, a.len() + 1 + from) == names_from(b, from),
    decreases b.len() - from,
{
    reveal_strlit(" ");
    reveal_strlit("arguments.");
    let s = a + " "@ + b;
    let n = a.len() + 1;
    let m = marker();
    lemma_first_at(b, m, from);
    lemma_first_at(s, m, n + from);
    assert forall|j: int| n + from <= j implies occurs_at(s, m, j) == occurs_at(b, m, j - n) by {
        lemma_marker_in_joined(a, b, j);
    }
    match first_at(b, m, from) {
        Some(i) => {
            assert(occurs_at(s, m, n + i));
            lemma_first_at_is(s, m, n + from, n + i);
            let start = i + m.len();
            let end = name_end(b, start);
            lemma_name_end(b, start);
            lemma_name_end_second(a, b, start);
            lemma_names_of_second(a, b, end);
            assert(s.subrange(n + start, n + end) =~= b.subrange(start, end));
        },
        None => {
            if let Some(i) = first_at(s, m, n + from) {
                assert(occurs_at(b, m, i - n));
            }
        },
    }
}

/// The names in two texts joined by a space are those from `from` on in the
/// first, and then those in the second.
proof fn lemma_names_of_joined(a: Seq<char>, b: Seq<char>, from: int)
    requires
        0 <= from <= a.len(),
    ensures
        names_from(a + " "@ + b, from) == names_from(a, from) + names_from(b, 0),
    decreases a.len() - from,
{
    reveal_strlit(" ");
    reveal_strlit("arguments.");
    let s = a + " "@ + b;
    let n = a.len();
    let m = marker();
    lemma_first_at(a, m, from);
    lemma_first_at(s, m, from);
    match first_at(a, m, from) {
        Some(i) => {
            assert forall|j: int| from <= j < i implies !occurs_at(s, m, j) by {
                lemma_marker_in_joined(a, b, j);
            }
            lemma_marker_in_joined(a, b, i);
            lemma_first_at_is(s, m, from, i);
            let start = i + m.len();
            let end = name_end(a, start);
            lemma_name_end(a, start);
            lemma_name_end_first(a, b, start);
            lemma_names_of_joined(a, b, end);
            if start < end {
                let name = a.subrange(start, end);
                assert(s.subrange(start, end) =~= name);
                assert(seq![name] + (names_from(a, end) + names_from(b, 0)) =~= (seq![name]
                    + names_from(a, end)) + names_from(b, 0));
            }
        },
        None => {
            lemma_names_of_second(a, b, 0);
            lemma_first_at(s, m, n as int + 1);
            assert forall|j: int| from <= j <= n implies !occurs_at(s, m, j) by {
                lemma_marker_in_joined(a, b, j);
            }
            if let Some(i) = first_at(s, m, from) {
                lemma_first_at_is(s, m, n as int + 1, i);
            } else if let Some(i) = first_at(s, m, n as int + 1) {
                assert(from <= i);
            }
            assert(names_from(s, from) == names_from(s, n as int + 1));
            assert(names_from(a, from) + names_from(b, 0) =~= names_from(b, 0));
        },
    }
}

/// The names in two expressions joined by a space are those in the first, and
/// then those in the second.
pub proof fn law_names_of_joined(a: Seq<char>, b: Seq<char>)
    ensures
        argument_names(a + " "@ + b) == argument_names(a) + argument_names(b),
{
    lemma_names_of_joined(a, b, 0);
}

} // verus!
