//! JSON documents as plain values, and the mathematical documents they stand
//! for.

use vstd::prelude::*;

use crate::text::same_text;

verus! {

/// A JSON number.
#[derive(Debug, PartialEq, Eq)]
pub enum Number {
    /// A whole number that is not negative.
    PosInt(u64),
    /// A negative whole number.
    NegInt(i64),
    /// A finite double, by the shortest decimal text that reads as it.
    Float(String),
}

/// A JSON number as a mathematical value.
pub enum NumberView {
    PosInt(u64),
    NegInt(i64),
    Float(Seq<char>),
}

impl View for Number {
    type V = NumberView;

    open spec fn view(&self) -> NumberView {
        match self {
            Number::PosInt(n) => NumberView::PosInt(*n),
            Number::NegInt(n) => NumberView::NegInt(*n),
            Number::Float(text) => NumberView::Float(text@),
        }
    }
}

impl Clone for Number {
    fn clone(&self) -> (r: Number)
        ensures
            r@ == self@,
    {
        match self {
            Number::PosInt(n) => Number::PosInt(*n),
            Number::NegInt(n) => Number::NegInt(*n),
            Number::Float(text) => Number::Float(text.clone()),
        }
    }
}

/// The number of a whole number: it goes by its sign.
pub open spec fn whole_number(n: int) -> NumberView {
    if n < 0 {
        NumberView::NegInt(n as i64)
    } else {
        NumberView::PosInt(n as u64)
    }
}

/// A JSON document. The members of an object keep the order in which their
/// names first came.
#[derive(Debug, PartialEq)]
pub enum Json {
    Null,
    Bool(bool),
    Number(Number),
    String(String),
    Array(Vec<Json>),
    Object(Vec<(String, Json)>),
}

/// A JSON document as a mathematical value.
pub enum JsonView {
    Null,
    Bool(bool),
    Number(NumberView),
    Str(Seq<char>),
    Array(Seq<JsonView>),
    Object(Seq<(Seq<char>, JsonView)>),
}

/// The document that a `Json` stands for.
pub open spec fn json_view(j: Json) -> JsonView
    decreases j,
{
    match j {
        Json::Null => JsonView::Null,
        Json::Bool(b) => JsonView::Bool(b),
        Json::Number(n) => JsonView::Number(n@),
        Json::String(s) => JsonView::Str(s@),
        Json::Array(xs) => JsonView::Array(
            Seq::new(
                xs@.len(),
                |i: int|
                    if 0 <= i < xs@.len() {
                        json_view(xs@[i])
                    } else {
                        JsonView::Null
                    },
            ),
        ),
        Json::Object(ms) => JsonView::Object(
            Seq::new(
                ms@.len(),
                |i: int|
                    if 0 <= i < ms@.len() {
                        (ms@[i].0@, json_view(ms@[i].1))
                    } else {
                        (Seq::empty(), JsonView::Null)
                    },
            ),
        ),
    }
}

impl View for Json {
    type V = JsonView;

    open spec fn view(&self) -> JsonView {
        json_view(*self)
    }
}

/// The documents that a sequence of `Json` stands for.
pub open spec fn json_views(xs: Seq<Json>) -> Seq<JsonView> {
    Seq::new(xs.len(), |i: int| xs[i]@)
}

/// The members that a sequence of named `Json` stands for.
pub open spec fn member_views(ms: Seq<(String, Json)>) -> Seq<(Seq<char>, JsonView)> {
    Seq::new(ms.len(), |i: int| (ms[i].0@, ms[i].1@))
}

/// The value of the first member named `k`.
pub open spec fn member(ms: Seq<(Seq<char>, JsonView)>, k: Seq<char>) -> Option<JsonView>
    decreases ms.len(),
{
    if ms.len() == 0 {
        None
    } else if ms[0].0 == k {
        Some(ms[0].1)
    } else {
        member(ms.drop_first(), k)
    }
}

/// The members of an empty object, to which more are pushed.
pub open spec fn no_members() -> Seq<(Seq<char>, JsonView)> {
    Seq::empty()
}

/// A name is found among pushed members where it was found before, else in the
/// member pushed last.
pub broadcast proof fn lemma_member_push(
    ms: Seq<(Seq<char>, JsonView)>,
    k: Seq<char>,
    v: JsonView,
    q: Seq<char>,
)
    ensures
        #[trigger] member(ms.push((k, v)), q) == (match member(ms, q) {
            Some(w) => Some(w),
            None => if q == k {
                Some(v)
            } else {
                None
            },
        }),
    decreases ms.len(),
{
    reveal_with_fuel(member, 2);
    let t = ms.push((k, v));
    if ms.len() == 0 {
        assert(t.drop_first() =~= ms);
    } else {
        assert(t.drop_first() =~= ms.drop_first().push((k, v)));
        if ms[0].0 != q {
            lemma_member_push(ms.drop_first(), k, v, q);
        }
    }
}

/// The members once `k` is set to `v`: in its place where the name is known,
/// else at the end.
pub open spec fn put(ms: Seq<(Seq<char>, JsonView)>, k: Seq<char>, v: JsonView) -> Seq<
    (Seq<char>, JsonView),
>
    decreases ms.len(),
{
    if ms.len() == 0 {
        seq![(k, v)]
    } else if ms[0].0 == k {
        seq![(k, v)] + ms.drop_first()
    } else {
        seq![ms[0]] + put(ms.drop_first(), k, v)
    }
}

impl JsonView {
    /// The member named `k` of an object; nothing of any other document.
    pub open spec fn get(self, k: Seq<char>) -> Option<JsonView> {
        match self {
            JsonView::Object(ms) => member(ms, k),
            _ => None,
        }
    }

    /// The member named `k`, or null.
    pub open spec fn at(self, k: Seq<char>) -> JsonView {
        match self.get(k) {
            Some(v) => v,
            None => JsonView::Null,
        }
    }

    /// The object has a member named `k`.
    pub open spec fn has(self, k: Seq<char>) -> bool {
        self.get(k) is Some
    }
}

/// What a set member reads back as, and that the others stay.
pub proof fn law_put_then_member(
    ms: Seq<(Seq<char>, JsonView)>,
    k: Seq<char>,
    v: JsonView,
    other: Seq<char>,
)
    ensures
        member(put(ms, k, v), k) == Some(v),
        other != k ==> member(put(ms, k, v), other) == member(ms, other),
    decreases ms.len(),
{
    reveal_with_fuel(member, 2);
    if ms.len() == 0 {
        assert(put(ms, k, v).drop_first() =~= ms);
    } else if ms[0].0 == k {
        assert(put(ms, k, v).drop_first() =~= ms.drop_first());
    } else {
        law_put_then_member(ms.drop_first(), k, v, other);
        assert(put(ms, k, v).drop_first() =~= put(ms.drop_first(), k, v));
    }
}

/// No two members have the same name.
pub open spec fn distinct_names(ms: Seq<(Seq<char>, JsonView)>) -> bool {
    forall|i: int, j: int| 0 <= i < j < ms.len() ==> ms[i].0 != ms[j].0
}

/// Setting a member, seen by position.
pub proof fn lemma_put_positions(ms: Seq<(Seq<char>, JsonView)>, k: Seq<char>, v: JsonView)
    ensures
        put(ms, k, v).len() >= ms.len(),
        put(ms, k, v).len() <= ms.len() + 1,
        forall|i: int| 0 <= i < ms.len() ==> (#[trigger] put(ms, k, v)[i]).0 == ms[i].0,
        (forall|i: int| 0 <= i < ms.len() ==> (#[trigger] ms[i]).0 != k) ==> put(ms, k, v) == ms.push((k, v)),
        put(ms, k, v).len() == ms.len() + 1 ==> {
            &&& put(ms, k, v)[ms.len() as int].0 == k
            &&& forall|i: int| 0 <= i < ms.len() ==> (#[trigger] ms[i]).0 != k
        },
    decreases ms.len(),
{
    if ms.len() == 0 {
        assert(put(ms, k, v) =~= ms.push((k, v)));
    } else if ms[0].0 == k {
        assert(put(ms, k, v).len() == ms.len());
    } else {
        let rest = ms.drop_first();
        lemma_put_positions(rest, k, v);
        let p = put(ms, k, v);
        assert forall|i: int| 0 <= i < ms.len() implies (#[trigger] p[i]).0 == ms[i].0 by {
            if i > 0 {
                assert(p[i] == put(rest, k, v)[i - 1]);
                assert(rest[i - 1] == ms[i]);
            }
        }
        if forall|i: int| 0 <= i < ms.len() ==> (#[trigger] ms[i]).0 != k {
            assert forall|i: int| 0 <= i < rest.len() implies (#[trigger] rest[i]).0 != k by {
                assert(rest[i] == ms[i + 1]);
            }
            assert(p =~= ms.push((k, v)));
        }
        if p.len() == ms.len() + 1 {
            assert(p[ms.len() as int] == put(rest, k, v)[rest.len() as int]);
            assert forall|i: int| 0 <= i < ms.len() implies (#[trigger] ms[i]).0 != k by {
                if i > 0 {
                    assert(rest[i - 1] == ms[i]);
                }
            }
        }
    }
}

/// An object whose names are distinct keeps them distinct when a member is
/// set.
pub proof fn law_put_keeps_names_distinct(
    ms: Seq<(Seq<char>, JsonView)>,
    k: Seq<char>,
    v: JsonView,
)
    requires
        distinct_names(ms),
    ensures
        distinct_names(put(ms, k, v)),
{
    lemma_put_positions(ms, k, v);
}

impl Json {
    /// A string document.
    pub fn text(s: &str) -> (r: Json)
        ensures
            r@ == JsonView::Str(s@),
    {
        Json::String(s.to_owned())
    }

    /// A string document, or null.
    pub fn optional_text(s: Option<&str>) -> (r: Json)
        ensures
            r@ == optional_str(s),
    {
        match s {
            Some(t) => Json::text(t),
            None => Json::Null,
        }
    }

    /// A whole number.
    pub fn unsigned(n: u64) -> (r: Json)
        ensures
            r@ == JsonView::Number(NumberView::PosInt(n)),
    {
        Json::Number(Number::PosInt(n))
    }

    /// A whole number, or null.
    pub fn optional_unsigned(n: Option<u64>) -> (r: Json)
        ensures
            r@ == optional_count(n),
    {
        match n {
            Some(v) => Json::unsigned(v),
            None => Json::Null,
        }
    }

    /// An array document.
    pub fn array(xs: Vec<Json>) -> (r: Json)
        ensures
            r@ == JsonView::Array(json_views(xs@)),
    {
        let r = Json::Array(xs);
        assert(r@->Array_0 =~= json_views(xs@));
        r
    }

    /// A copy of the document.
    pub fn copy(&self) -> (r: Json)
        ensures
            r@ == self@,
        decreases *self,
    {
        match self {
            Json::Null => Json::Null,
            Json::Bool(b) => Json::Bool(*b),
            Json::Number(n) => Json::Number(n.clone()),
            Json::String(s) => Json::String(s.clone()),
            Json::Array(xs) => {
                let mut out: Vec<Json> = Vec::new();
                let mut i: usize = 0;
                while i < xs.len()
                    invariant
                        i <= xs.len(),
                        *self == Json::Array(*xs),
                        out@.len() == i,
                        forall|j: int| 0 <= j < i ==> (#[trigger] out@[j])@ == xs@[j]@,
                    decreases xs.len() - i,
                {
                    assert(decreases_to!(*self => (*self)->Array_0));
                    assert(decreases_to!(*xs => xs@));
                    assert(decreases_to!(xs@ => xs@[i as int]));
                    out.push(xs[i].copy());
                    i = i + 1;
                }
                let r = Json::Array(out);
                assert(r@->Array_0 =~= self@->Array_0);
                r
            },
            Json::Object(ms) => {
                let mut out: Vec<(String, Json)> = Vec::new();
                let mut i: usize = 0;
                while i < ms.len()
                    invariant
                        i <= ms.len(),
                        *self == Json::Object(*ms),
                        out@.len() == i,
                        forall|j: int|
                            0 <= j < i ==> (#[trigger] out@[j]).0@ == ms@[j].0@ && out@[j].1@
                                == ms@[j].1@,
                    decreases ms.len() - i,
                {
                    assert(decreases_to!(*self => (*self)->Object_0));
                    assert(decreases_to!(*ms => ms@));
                    assert(decreases_to!(ms@ => ms@[i as int]));
                    assert(decreases_to!(ms@[i as int] => ms@[i as int].1));
                    out.push((ms[i].0.clone(), ms[i].1.copy()));
                    i = i + 1;
                }
                let r = Json::Object(out);
                assert(r@->Object_0 =~= self@->Object_0);
                r
            },
        }
    }

    /// The member named `k` of an object; nothing of any other document.
    pub fn get(&self, k: &str) -> (r: Option<&Json>)
        ensures
            match r {
                Some(v) => self@.get(k@) == Some(v@),
                None => self@.get(k@) is None,
            },
    {
        match self {
            Json::Object(ms) => {
                let ghost whole = member_views(ms@);
                assert(self@->Object_0 =~= whole);
                let mut i: usize = 0;
                assert(whole.skip(0) =~= whole);
                while i < ms.len()
                    invariant
                        i <= ms.len(),
                        whole == member_views(ms@),
                        self@ == JsonView::Object(whole),
                        member(whole, k@) == member(whole.skip(i as int), k@),
                    decreases ms.len() - i,
                {
                    assert(whole.skip(i as int)[0] == whole[i as int]);
                    assert(whole.skip(i as int).drop_first() =~= whole.skip(i + 1));
                    if same_text(ms[i].0.as_str(), k) {
                        assert(whole[i as int].1 == ms@[i as int].1@);
                        return Some(&ms[i].1);
                    }
                    i = i + 1;
                }
                None
            },
            _ => None,
        }
    }

    /// The text of a string document.
    pub fn as_text(&self) -> (r: Option<&str>)
        ensures
            match r {
                Some(s) => self@ == JsonView::Str(s@),
                None => !(self@ is Str),
            },
    {
        match self {
            Json::String(s) => Some(s.as_str()),
            _ => None,
        }
    }
}

impl Clone for Json {
    fn clone(&self) -> (r: Json)
        ensures
            r@ == self@,
    {
        self.copy()
    }
}

/// A copy of the documents.
pub fn copied(xs: &[Json]) -> (r: Vec<Json>)
    ensures
        json_views(r@) == json_views(xs@),
{
    let mut out: Vec<Json> = Vec::new();
    let mut i: usize = 0;
    while i < xs.len()
        invariant
            i <= xs.len(),
            out@.len() == i,
            forall|j: int| 0 <= j < i ==> (#[trigger] out@[j])@ == xs@[j]@,
        decreases xs.len() - i,
    {
        out.push(xs[i].copy());
        i = i + 1;
    }
    assert(json_views(out@) =~= json_views(xs@));
    out
}

/// A string document, or null.
pub open spec fn optional_str(s: Option<&str>) -> JsonView {
    match s {
        Some(t) => JsonView::Str(t@),
        None => JsonView::Null,
    }
}

/// A whole number, or null.
pub open spec fn optional_count(n: Option<u64>) -> JsonView {
    match n {
        Some(v) => JsonView::Number(NumberView::PosInt(v)),
        None => JsonView::Null,
    }
}

/// An object under construction.
pub struct JsonObject {
    pub entries: Vec<(String, Json)>,
}

impl View for JsonObject {
    type V = Seq<(Seq<char>, JsonView)>;

    open spec fn view(&self) -> Seq<(Seq<char>, JsonView)> {
        member_views(self.entries@)
    }
}

impl JsonObject {
    /// An object without members.
    pub fn new() -> (r: JsonObject)
        ensures
            r@ == no_members(),
    {
        let r = JsonObject { entries: Vec::new() };
        assert(r@ =~= Seq::<(Seq<char>, JsonView)>::empty());
        r
    }

    /// The object with one more member at its end.
    pub fn with(self, k: &str, v: Json) -> (r: JsonObject)
        ensures
            r@ == self@.push((k@, v@)),
    {
        let mut entries = self.entries;
        entries.push((k.to_owned(), v));
        let r = JsonObject { entries };
        assert(r@ =~= self@.push((k@, v@)));
        r
    }

    /// Set a member: in its place where the name is known, else at the end.
    pub fn insert(&mut self, k: &str, v: Json)
        ensures
            final(self)@ == put(old(self)@, k@, v@),
    {
        let ghost whole = self@;
        let mut i: usize = 0;
        assert(whole.skip(0) =~= whole);
        assert(whole.take(0) + put(whole.skip(0), k@, v@) =~= put(whole, k@, v@));
        while i < self.entries.len()
            invariant
                i <= self.entries.len(),
                *self == *old(self),
                whole == self@,
                put(whole, k@, v@) == whole.take(i as int) + put(whole.skip(i as int), k@, v@),
            decreases self.entries.len() - i,
        {
            assert(whole.skip(i as int)[0] == whole[i as int]);
            assert(whole.skip(i as int).drop_first() =~= whole.skip(i + 1));
            if same_text(self.entries[i].0.as_str(), k) {
                self.entries.set(i, (k.to_owned(), v));
                assert(self@ =~= whole.take(i as int) + (seq![(k@, v@)] + whole.skip(i + 1)));
                return ;
            }
            assert(whole.take(i as int) + (seq![whole[i as int]] + put(whole.skip(i + 1), k@, v@))
                =~= whole.take(i + 1) + put(whole.skip(i + 1), k@, v@));
            i = i + 1;
        }
        self.entries.push((k.to_owned(), v));
        assert(whole.skip(i as int) =~= Seq::<(Seq<char>, JsonView)>::empty());
        assert(self@ =~= whole.take(i as int) + seq![(k@, v@)]);
    }

    /// The finished object.
    pub fn build(self) -> (r: Json)
        ensures
            r@ == JsonView::Object(self@),
    {
        let r = Json::Object(self.entries);
        assert(r@->Object_0 =~= member_views(self.entries@));
        r
    }
}

} // verus!
