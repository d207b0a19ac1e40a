//! A table keyed by name. Its entries stand in ascending order of their names,
//! each name once.

use vstd::prelude::*;

use crate::text::{chars_of, same_text};

verus! {

/// `a` comes before `b`: the first character in which they differ decides, and
/// a proper beginning comes first.
pub open spec fn comes_before(a: Seq<char>, b: Seq<char>) -> bool
    decreases a.len(),
{
    if b.len() == 0 {
        false
    } else if a.len() == 0 {
        true
    } else if a[0] != b[0] {
        a[0] < b[0]
    } else {
        comes_before(a.drop_first(), b.drop_first())
    }
}

/// No name comes before itself.
pub proof fn law_order_irreflexive(a: Seq<char>)
    ensures
        !comes_before(a, a),
    decreases a.len(),
{
    if a.len() > 0 {
        law_order_irreflexive(a.drop_first());
    }
}

/// The order of names is transitive.
pub proof fn law_order_transitive(a: Seq<char>, b: Seq<char>, c: Seq<char>)
    requires
        comes_before(a, b),
        comes_before(b, c),
    ensures
        comes_before(a, c),
    decreases a.len(),
{
    if a.len() > 0 && a[0] == b[0] && b[0] == c[0] {
        law_order_transitive(a.drop_first(), b.drop_first(), c.drop_first());
    }
}

/// Of two different names one comes before the other.
pub proof fn law_order_total(a: Seq<char>, b: Seq<char>)
    ensures
        a == b || comes_before(a, b) || comes_before(b, a),
    decreases a.len(),
{
    if a.len() == 0 && b.len() == 0 {
        assert(a =~= b);
    } else if a.len() > 0 && b.len() > 0 && a[0] == b[0] {
        law_order_total(a.drop_first(), b.drop_first());
        if a.drop_first() == b.drop_first() {
            assert(a =~= seq![a[0]] + a.drop_first());
            assert(b =~= seq![b[0]] + b.drop_first());
        }
    }
}

/// Whether `a` comes before `b`.
fn is_before(a: &str, b: &str) -> (r: bool)
    ensures
        r == comes_before(a@, b@),
{
    let x = chars_of(a);
    let y = chars_of(b);
    let mut i: usize = 0;
    assert(a@.skip(0) =~= a@);
    assert(b@.skip(0) =~= b@);
    while i < x.len() && i < y.len()
        invariant
            i <= x.len(),
            i <= y.len(),
            x@ == a@,
            y@ == b@,
            comes_before(a@, b@) == comes_before(a@.skip(i as int), b@.skip(i as int)),
        decreases x.len() - i,
    {
        assert(a@.skip(i as int).drop_first() =~= a@.skip(i + 1));
        assert(b@.skip(i as int).drop_first() =~= b@.skip(i + 1));
        if x[i] != y[i] {
            return x[i] < y[i];
        }
        i = i + 1;
    }
    i < y.len()
}

/// The entries stand in ascending order of their names, each name once.
pub open spec fn ascending<V>(s: Seq<(Seq<char>, V)>) -> bool {
    forall|i: int, j: int| 0 <= i < j < s.len() ==> comes_before(s[i].0, s[j].0)
}

/// The value stored under `k`.
pub open spec fn lookup<V>(s: Seq<(Seq<char>, V)>, k: Seq<char>) -> Option<V>
    decreases s.len(),
{
    if s.len() == 0 {
        None
    } else if s[0].0 == k {
        Some(s[0].1)
    } else {
        lookup(s.drop_first(), k)
    }
}

/// The entries once `v` is stored under `k`.
pub open spec fn stored<V>(s: Seq<(Seq<char>, V)>, k: Seq<char>, v: V) -> Seq<(Seq<char>, V)>
    decreases s.len(),
{
    if s.len() == 0 {
        seq![(k, v)]
    } else if s[0].0 == k {
        seq![(k, v)] + s.drop_first()
    } else if comes_before(k, s[0].0) {
        seq![(k, v)] + s
    } else {
        seq![s[0]] + stored(s.drop_first(), k, v)
    }
}

/// What is stored under a name is found under it, and every other name finds
/// what it found before.
pub proof fn law_stored_then_lookup<V>(
    s: Seq<(Seq<char>, V)>,
    k: Seq<char>,
    v: V,
    other: Seq<char>,
)
    ensures
        lookup(stored(s, k, v), k) == Some(v),
        other != k ==> lookup(stored(s, k, v), other) == lookup(s, other),
    decreases s.len(),
{
    reveal_with_fuel(lookup, 2);
    let t = stored(s, k, v);
    if s.len() == 0 {
        assert(t.drop_first() =~= s);
    } else if s[0].0 == k {
        assert(t.drop_first() =~= s.drop_first());
    } else if comes_before(k, s[0].0) {
        assert(t.drop_first() =~= s);
    } else {
        law_stored_then_lookup(s.drop_first(), k, v, other);
        assert(t.drop_first() =~= stored(s.drop_first(), k, v));
    }
}

/// Each entry of the new table is the new one or an old one.
proof fn lemma_stored_entries<V>(s: Seq<(Seq<char>, V)>, k: Seq<char>, v: V, i: int)
    requires
        0 <= i < stored(s, k, v).len(),
    ensures
        stored(s, k, v)[i] == (k, v) || s.contains(stored(s, k, v)[i]),
    decreases s.len(),
{
    let t = stored(s, k, v);
    if s.len() > 0 {
        if s[0].0 == k {
            if i > 0 {
                assert(t[i] == s[i]);
            }
        } else if comes_before(k, s[0].0) {
            if i > 0 {
                assert(t[i] == s[i - 1]);
            }
        } else if i == 0 {
            assert(t[0] == s[0]);
        } else {
            let rest = s.drop_first();
            assert(t[i] == stored(rest, k, v)[i - 1]);
            lemma_stored_entries(rest, k, v, i - 1);
            if rest.contains(t[i]) {
                let j = choose|j: int| 0 <= j < rest.len() && rest[j] == t[i];
                assert(s[j + 1] == t[i]);
            }
        }
    }
}

/// Storing keeps the order.
pub proof fn law_stored_keeps_order<V>(s: Seq<(Seq<char>, V)>, k: Seq<char>, v: V)
    requires
        ascending(s),
    ensures
        ascending(stored(s, k, v)),
    decreases s.len(),
{
    let t = stored(s, k, v);
    if s.len() == 0 {
    } else if s[0].0 == k {
        assert forall|i: int, j: int| 0 <= i < j < t.len() implies comes_before(
            t[i].0,
            t[j].0,
        ) by {
            assert(comes_before(s[i].0, s[j].0));
        }
    } else if comes_before(k, s[0].0) {
        assert forall|i: int, j: int| 0 <= i < j < t.len() implies comes_before(
            t[i].0,
            t[j].0,
        ) by {
            if i == 0 && j > 1 {
                assert(comes_before(s[0].0, s[j - 1].0));
                law_order_transitive(k, s[0].0, s[j - 1].0);
            } else if i > 0 {
                assert(comes_before(s[i - 1].0, s[j - 1].0));
            }
        }
    } else {
        let rest = s.drop_first();
        assert forall|i: int, j: int| 0 <= i < j < rest.len() implies comes_before(
            rest[i].0,
            rest[j].0,
        ) by {
            assert(comes_before(s[i + 1].0, s[j + 1].0));
        }
        law_stored_keeps_order(rest, k, v);
        law_order_total(k, s[0].0);
        assert forall|i: int, j: int| 0 <= i < j < t.len() implies comes_before(
            t[i].0,
            t[j].0,
        ) by {
            assert(t[j] == stored(rest, k, v)[j - 1]);
            if i == 0 {
                lemma_stored_entries(rest, k, v, j - 1);
                if rest.contains(t[j]) {
                    let m = choose|m: int| 0 <= m < rest.len() && rest[m] == t[j];
                    assert(comes_before(s[0].0, s[m + 1].0));
                }
            } else {
                assert(t[i] == stored(rest, k, v)[i - 1]);
            }
        }
    }
}

/// The entries that a vector of named values stands for.
pub open spec fn entry_views<V>(es: Seq<(String, V)>) -> Seq<(Seq<char>, V)> {
    Seq::new(es.len(), |i: int| (es[i].0@, es[i].1))
}

/// A table keyed by name.
#[derive(Debug)]
pub struct NameTable<V> {
    entries: Vec<(String, V)>,
}

impl<V> View for NameTable<V> {
    type V = Seq<(Seq<char>, V)>;

    closed spec fn view(&self) -> Seq<(Seq<char>, V)> {
        entry_views(self.entries@)
    }
}

impl<V: Clone> Clone for NameTable<V> {
    fn clone(&self) -> (r: NameTable<V>)
        ensures
            r@.len() == self@.len(),
            forall|i: int|
                0 <= i < r@.len() ==> (#[trigger] r@[i]).0 == self@[i].0 && cloned(
                    self@[i].1,
                    r@[i].1,
                ),
    {
        proof {
            use_type_invariant(self);
        }
        let mut entries: Vec<(String, V)> = Vec::new();
        let mut i: usize = 0;
        while i < self.entries.len()
            invariant
                i <= self.entries.len(),
                entries@.len() == i,
                forall|j: int|
                    0 <= j < i ==> (#[trigger] entries@[j]).0@ == self.entries@[j].0@ && cloned(
                        self.entries@[j].1,
                        entries@[j].1,
                    ),
            decreases self.entries.len() - i,
        {
            entries.push((self.entries[i].0.clone(), self.entries[i].1.clone()));
            i = i + 1;
        }
        assert forall|a: int, b: int| 0 <= a < b < entries@.len() implies comes_before(
            entry_views(entries@)[a].0,
            entry_views(entries@)[b].0,
        ) by {
            assert(comes_before(
                entry_views(self.entries@)[a].0,
                entry_views(self.entries@)[b].0,
            ));
        }
        let r = NameTable { entries };
        assert forall|k: int| 0 <= k < r@.len() implies (#[trigger] r@[k]).0 == self@[k].0
            && cloned(self@[k].1, r@[k].1) by {
            assert(entries@[k].0@ == self.entries@[k].0@);
        }
        r
    }
}

impl<V> NameTable<V> {
    /// The entries stand in ascending order of their names, each name once.
    #[verifier::type_invariant]
    spec fn ordered(self) -> bool {
        ascending(entry_views(self.entries@))
    }

    /// A table without entries.
    pub fn new() -> (r: NameTable<V>)
        ensures
            r@ == Seq::<(Seq<char>, V)>::empty(),
    {
        let entries: Vec<(String, V)> = Vec::new();
        assert(entry_views(entries@) =~= Seq::<(Seq<char>, V)>::empty());
        NameTable { entries }
    }

    /// How many entries there are.
    pub fn len(&self) -> (r: usize)
        ensures
            r == self@.len(),
            ascending(self@),
    {
        proof {
            use_type_invariant(self);
        }
        self.entries.len()
    }

    /// The name of the entry at `i`.
    pub fn name_at(&self, i: usize) -> (r: &str)
        requires
            i < self@.len(),
        ensures
            r@ == self@[i as int].0,
    {
        self.entries[i].0.as_str()
    }

    /// The value of the entry at `i`.
    pub fn value_at(&self, i: usize) -> (r: &V)
        requires
            i < self@.len(),
        ensures
            *r == self@[i as int].1,
    {
        &self.entries[i].1
    }

    /// The value stored under `k`.
    pub fn get(&self, k: &str) -> (r: Option<&V>)
        ensures
            match r {
                Some(v) => lookup(self@, k@) == Some(*v),
                None => lookup(self@, k@) is None,
            },
    {
        let ghost whole = self@;
        let mut i: usize = 0;
        assert(whole.skip(0) =~= whole);
        while i < self.entries.len()
            invariant
                i <= self.entries.len(),
                whole == self@,
                lookup(whole, k@) == lookup(whole.skip(i as int), k@),
            decreases self.entries.len() - i,
        {
            assert(whole.skip(i as int)[0] == whole[i as int]);
            assert(whole.skip(i as int).drop_first() =~= whole.skip(i + 1));
            if same_text(self.entries[i].0.as_str(), k) {
                return Some(&self.entries[i].1);
            }
            i = i + 1;
        }
        None
    }

    /// The entries of the table, in the order of their names.
    pub fn into_entries(self) -> (r: Vec<(String, V)>)
        ensures
            entry_views(r@) == self@,
            ascending(self@),
    {
        proof {
            use_type_invariant(&self);
        }
        self.entries
    }

    /// Store `v` under `k`, in place of what stood there.
    pub fn insert(&mut self, k: String, v: V)
        ensures
            final(self)@ == stored(old(self)@, k@, v),
            ascending(final(self)@),
    {
        proof {
            use_type_invariant(&*self);
            law_stored_keeps_order(self@, k@, v);
        }
        let ghost whole = self@;
        let mut entries: Vec<(String, V)> = Vec::new();
        assert(entry_views(entries@) =~= Seq::<(Seq<char>, V)>::empty());
        std::mem::swap(&mut entries, &mut self.entries);
        let mut i: usize = 0;
        assert(whole.skip(0) =~= whole);
        assert(whole.take(0) + stored(whole.skip(0), k@, v) =~= stored(whole, k@, v));
        while i < entries.len() && is_before(entries[i].0.as_str(), k.as_str())
            invariant
                i <= entries.len(),
                whole == entry_views(entries@),
                stored(whole, k@, v) == whole.take(i as int) + stored(whole.skip(i as int), k@, v),
            decreases entries.len() - i,
        {
            proof {
                assert(whole.skip(i as int)[0] == whole[i as int]);
                assert(whole.skip(i as int).drop_first() =~= whole.skip(i + 1));
                law_order_irreflexive(k@);
                if comes_before(k@, whole[i as int].0) {
                    law_order_transitive(k@, whole[i as int].0, k@);
                }
                assert(whole.take(i as int) + (seq![whole[i as int]] + stored(
                    whole.skip(i + 1),
                    k@,
                    v,
                )) =~= whole.take(i + 1) + stored(whole.skip(i + 1), k@, v));
            }
            i = i + 1;
        }
        if i < entries.len() {
            proof {
                assert(whole.skip(i as int)[0] == whole[i as int]);
                assert(whole.skip(i as int).drop_first() =~= whole.skip(i + 1));
            }
            if same_text(entries[i].0.as_str(), k.as_str()) {
                entries.set(i, (k, v));
                assert(entry_views(entries@) =~= whole.take(i as int) + (seq![(k@, v)]
                    + whole.skip(i + 1)));
            } else {
                proof {
                    law_order_total(k@, whole[i as int].0);
                }
                entries.insert(i, (k, v));
                assert(entry_views(entries@) =~= whole.take(i as int) + (seq![(k@, v)]
                    + whole.skip(i as int)));
            }
        } else {
            assert(whole.skip(i as int) =~= Seq::<(Seq<char>, V)>::empty());
            entries.push((k, v));
            assert(entry_views(entries@) =~= whole.take(i as int) + seq![(k@, v)]);
        }
        self.entries = entries;
    }
}

} // verus!
