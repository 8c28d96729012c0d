//! Maps from strings to strings, kept sorted by key so that they are listed in a fixed
//! order, and the strictly increasing lists that order sets of ports.
use crate::text::str_chars;
use vstd::prelude::*;

verus! {

/// `a` comes before `b` in lexicographic order of characters (the order of `str`).
pub open spec fn str_lt(a: Seq<char>, b: Seq<char>) -> bool
    decreases a.len(),
{
    if a.len() == 0 {
        b.len() > 0
    } else if b.len() == 0 {
        false
    } else if a[0] != b[0] {
        a[0] < b[0]
    } else {
        str_lt(a.drop_first(), b.drop_first())
    }
}

/// No string comes before itself.
pub proof fn lemma_str_lt_irreflexive(a: Seq<char>)
    ensures
        !str_lt(a, a),
    decreases a.len(),
{
    if a.len() > 0 {
        lemma_str_lt_irreflexive(a.drop_first());
    }
}

/// The order is transitive.
pub proof fn lemma_str_lt_transitive(a: Seq<char>, b: Seq<char>, c: Seq<char>)
    requires
        str_lt(a, b),
        str_lt(b, c),
    ensures
        str_lt(a, c),
    decreases a.len(),
{
    if a.len() > 0 && b.len() > 0 && c.len() > 0 && a[0] == b[0] && b[0] == c[0] {
        lemma_str_lt_transitive(a.drop_first(), b.drop_first(), c.drop_first());
    }
}

/// Of two different strings, one comes first.
pub proof fn lemma_str_lt_total(a: Seq<char>, b: Seq<char>)
    requires
        a != b,
    ensures
        str_lt(a, b) || str_lt(b, a),
    decreases a.len(),
{
    if a.len() > 0 && b.len() > 0 {
        if a[0] == b[0] {
            if a.drop_first() == b.drop_first() {
                assert(a =~= seq![a[0]] + a.drop_first());
                assert(b =~= seq![b[0]] + b.drop_first());
            }
            lemma_str_lt_total(a.drop_first(), b.drop_first());
        }
    } else if a.len() == 0 && b.len() == 0 {
        assert(a =~= b);
    }
}

/// Whether `a` comes before `b`.
pub fn str_less(a: &str, b: &str) -> (r: bool)
    ensures
        r == str_lt(a@, b@),
{
    let x = str_chars(a);
    let y = str_chars(b);
    let mut i: usize = 0;
    assert(x@.skip(0) =~= x@ && y@.skip(0) =~= y@);
    while i < x.len() && i < y.len()
        invariant
            x@ == a@,
            y@ == b@,
            0 <= i <= x@.len(),
            i <= y@.len(),
            x@.subrange(0, i as int) == y@.subrange(0, i as int),
            str_lt(x@, y@) == str_lt(x@.skip(i as int), y@.skip(i as int)),
        decreases x@.len() - i,
    {
        if x[i] != y[i] {
            proof {
                assert(x@.skip(i as int)[0] == x@[i as int]);
                assert(y@.skip(i as int)[0] == y@[i as int]);
            }
            return x[i] < y[i];
        }
        proof {
            assert(x@.skip(i as int).drop_first() =~= x@.skip(i + 1));
            assert(y@.skip(i as int).drop_first() =~= y@.skip(i + 1));
            assert(x@.subrange(0, i + 1) =~= x@.subrange(0, i as int).push(x@[i as int]));
            assert(y@.subrange(0, i + 1) =~= y@.subrange(0, i as int).push(y@[i as int]));
        }
        i += 1;
    }
    i < y.len()
}

/// The keys of a list of entries.
pub open spec fn keys_of(entries: Seq<(Seq<char>, Seq<char>)>) -> Seq<Seq<char>> {
    entries.map_values(|e: (Seq<char>, Seq<char>)| e.0)
}

/// The keys increase strictly from entry to entry.
pub open spec fn strictly_sorted(keys: Seq<Seq<char>>) -> bool {
    forall|i: int, j: int| 0 <= i < j < keys.len() ==> str_lt(#[trigger] keys[i], #[trigger] keys[j])
}

/// The value of `key` among the entries, if it has one.
pub open spec fn lookup(entries: Seq<(Seq<char>, Seq<char>)>, key: Seq<char>) -> Option<Seq<char>>
    decreases entries.len(),
{
    if entries.len() == 0 {
        None
    } else if entries.last().0 == key {
        Some(entries.last().1)
    } else {
        lookup(entries.drop_last(), key)
    }
}

proof fn lemma_lookup_insert(e: Seq<(Seq<char>, Seq<char>)>, i: int, kv: (Seq<char>, Seq<char>), k: Seq<char>)
    requires
        0 <= i <= e.len(),
        !keys_of(e).contains(kv.0),
    ensures
        lookup(e.insert(i, kv), k) == if k == kv.0 {
            Some(kv.1)
        } else {
            lookup(e, k)
        },
    decreases e.len(),
{
    if i == e.len() {
        assert(e.insert(i, kv).drop_last() =~= e);
    } else {
        let f = e.insert(i, kv);
        assert(f.last() == e.last());
        assert(f.drop_last() =~= e.drop_last().insert(i, kv));
        assert(keys_of(e)[e.len() - 1] == e.last().0);
        assert(keys_of(e.drop_last()) =~= keys_of(e).drop_last());
        lemma_lookup_insert(e.drop_last(), i, kv, k);
    }
}

proof fn lemma_lookup_update(e: Seq<(Seq<char>, Seq<char>)>, i: int, v: Seq<char>, k: Seq<char>)
    requires
        0 <= i < e.len(),
        keys_of(e).no_duplicates(),
    ensures
        lookup(e.update(i, (e[i].0, v)), k) == if k == e[i].0 {
            Some(v)
        } else {
            lookup(e, k)
        },
    decreases e.len(),
{
    let f = e.update(i, (e[i].0, v));
    assert(keys_of(e)[e.len() - 1] == e.last().0);
    assert(keys_of(e)[i] == e[i].0);
    if i == e.len() - 1 {
        assert(f.drop_last() =~= e.drop_last());
    } else {
        assert(f.last() == e.last());
        assert(f.drop_last() =~= e.drop_last().update(i, (e[i].0, v)));
        assert(keys_of(e.drop_last()) =~= keys_of(e).drop_last());
        lemma_lookup_update(e.drop_last(), i, v, k);
    }
}

/// The first position whose key does not come before `key`.
fn first_not_below(entries: &Vec<(String, String)>, key: &str) -> (i: usize)
    ensures
        i <= entries@.len(),
        forall|j: int| 0 <= j < i ==> str_lt(#[trigger] entries@[j].0@, key@),
        i < entries@.len() ==> !str_lt(entries@[i as int].0@, key@),
{
    let mut i: usize = 0;
    while i < entries.len()
        invariant
            0 <= i <= entries@.len(),
            forall|j: int| 0 <= j < i ==> str_lt(#[trigger] entries@[j].0@, key@),
        decreases entries@.len() - i,
    {
        if !str_less(entries[i].0.as_str(), key) {
            return i;
        }
        i += 1;
    }
    i
}

/// A map from strings to strings, listed by increasing key.
#[derive(Debug)]
pub struct StringMap {
    entries: Vec<(String, String)>,
}

impl View for StringMap {
    type V = Seq<(Seq<char>, Seq<char>)>;

    closed spec fn view(&self) -> Seq<(Seq<char>, Seq<char>)> {
        self.entries@.map_values(|e: (String, String)| (e.0@, e.1@))
    }
}

proof fn lemma_lookup_absent(entries: Seq<(Seq<char>, Seq<char>)>, key: Seq<char>)
    requires
        !keys_of(entries).contains(key),
    ensures
        lookup(entries, key) is None,
    decreases entries.len(),
{
    if entries.len() > 0 {
        assert(keys_of(entries.drop_last()) =~= keys_of(entries).drop_last());
        assert(keys_of(entries)[entries.len() - 1] == entries.last().0);
        lemma_lookup_absent(entries.drop_last(), key);
    }
}

proof fn lemma_lookup_at(entries: Seq<(Seq<char>, Seq<char>)>, i: int)
    requires
        0 <= i < entries.len(),
        keys_of(entries).no_duplicates(),
    ensures
        lookup(entries, entries[i].0) == Some(entries[i].1),
    decreases entries.len(),
{
    if i < entries.len() - 1 {
        assert(keys_of(entries)[i] == entries[i].0);
        assert(keys_of(entries)[entries.len() - 1] == entries.last().0);
        assert(keys_of(entries.drop_last()) =~= keys_of(entries).drop_last());
        lemma_lookup_at(entries.drop_last(), i);
    }
}

proof fn lemma_sorted_no_duplicates(keys: Seq<Seq<char>>)
    requires
        strictly_sorted(keys),
    ensures
        keys.no_duplicates(),
{
    assert forall|i: int, j: int| 0 <= i < keys.len() && 0 <= j < keys.len() && i != j implies keys[i]
        != keys[j] by {
        if i < j {
            assert(str_lt(keys[i], keys[j]));
        } else {
            assert(str_lt(keys[j], keys[i]));
        }
        lemma_str_lt_irreflexive(keys[i]);
    }
}

/// What the entries of a sorted map give for each key.
pub proof fn lemma_lookup_sorted(entries: Seq<(Seq<char>, Seq<char>)>, key: Seq<char>)
    requires
        strictly_sorted(keys_of(entries)),
    ensures
        match lookup(entries, key) {
            Some(v) => exists|i: int| 0 <= i < entries.len() && #[trigger] entries[i] == (key, v),
            None => !keys_of(entries).contains(key),
        },
{
    lemma_sorted_no_duplicates(keys_of(entries));
    if keys_of(entries).contains(key) {
        let i = choose|i: int| 0 <= i < keys_of(entries).len() && keys_of(entries)[i] == key;
        lemma_lookup_at(entries, i);
        assert(entries[i] == (key, entries[i].1));
    } else {
        lemma_lookup_absent(entries, key);
    }
}

impl StringMap {
    #[verifier::type_invariant]
    spec fn well_formed(&self) -> bool {
        strictly_sorted(keys_of(self@))
    }

    /// An empty map.
    pub fn new() -> (r: Self)
        ensures
            r@ == Seq::<(Seq<char>, Seq<char>)>::empty(),
    {
        let r = StringMap { entries: Vec::new() };
        assert(r@ =~= Seq::<(Seq<char>, Seq<char>)>::empty());
        r
    }

    /// The number of entries; the keys increase strictly from entry to entry.
    pub fn len(&self) -> (r: usize)
        ensures
            r == self@.len(),
            strictly_sorted(keys_of(self@)),
    {
        proof {
            use_type_invariant(self);
        }
        self.entries.len()
    }

    /// The entry at position `i`.
    pub fn entry(&self, i: usize) -> (r: (&str, &str))
        requires
            i < self@.len(),
        ensures
            r.0@ == self@[i as int].0,
            r.1@ == self@[i as int].1,
    {
        let e = &self.entries[i];
        (e.0.as_str(), e.1.as_str())
    }

    /// The value of `key`, if it has one.
    pub fn get(&self, key: &str) -> (r: Option<&str>)
        ensures
            match lookup(self@, key@) {
                Some(v) => r matches Some(x) && x@ == v,
                None => r is None,
            },
    {
        proof {
            use_type_invariant(self);
            lemma_sorted_no_duplicates(keys_of(self@));
        }
        let mut i: usize = 0;
        while i < self.entries.len()
            invariant
                0 <= i <= self@.len(),
                self@.len() == self.entries@.len(),
                keys_of(self@).no_duplicates(),
                forall|j: int| 0 <= j < i ==> self@[j].0 != key@,
            decreases self@.len() - i,
        {
            if crate::text::str_eq(self.entries[i].0.as_str(), key) {
                proof {
                    assert(self@[i as int].0 == key@);
                    lemma_lookup_at(self@, i as int);
                }
                return Some(self.entries[i].1.as_str());
            }
            i += 1;
        }
        proof {
            assert forall|j: int| 0 <= j < self@.len() implies keys_of(self@)[j] != key@ by {
                assert(keys_of(self@)[j] == self@[j].0);
            }
            lemma_lookup_absent(self@, key@);
        }
        None
    }

    /// Sets the value of `key` to `value`, keeping the keys sorted.
    pub fn insert(&mut self, key: String, value: String)
        ensures
            forall|k: Seq<char>|
                lookup(final(self)@, k) == if k == key@ {
                    Some(value@)
                } else {
                    lookup(old(self)@, k)
                },
            strictly_sorted(keys_of(final(self)@)),
    {
        proof {
            use_type_invariant(&*self);
        }
        let ghost before = self@;
        let mut entries: Vec<(String, String)> = Vec::new();
        std::mem::swap(&mut entries, &mut self.entries);
        assert(entries@.map_values(|e: (String, String)| (e.0@, e.1@)) == before);
        let i = first_not_below(&entries, key.as_str());
        proof {
            lemma_sorted_no_duplicates(keys_of(before));
            assert forall|j: int| 0 <= j < i implies str_lt(#[trigger] before[j].0, key@) by {
                assert(before[j].0 == entries@[j].0@);
            }
            if i < before.len() {
                assert(before[i as int].0 == entries@[i as int].0@);
            }
        }
        let ghost kv = (key@, value@);
        if i < entries.len() && crate::text::str_eq(entries[i].0.as_str(), key.as_str()) {
            let old_entry = entries.remove(i);
            entries.insert(i, (old_entry.0, value));
            let ghost after = entries@.map_values(|e: (String, String)| (e.0@, e.1@));
            proof {
                assert(before[i as int].0 == key@);
                assert(after =~= before.update(i as int, (before[i as int].0, value@)));
                assert(keys_of(after) =~= keys_of(before));
                assert forall|k: Seq<char>|
                    lookup(after, k) == if k == key@ { Some(value@) } else { lookup(before, k) } by {
                    lemma_lookup_update(before, i as int, value@, k);
                }
            }
        } else {
            entries.insert(i, (key, value));
            let ghost after = entries@.map_values(|e: (String, String)| (e.0@, e.1@));
            proof {
                assert(after =~= before.insert(i as int, kv));
                assert(keys_of(after) =~= keys_of(before).insert(i as int, key@));
                if i < before.len() {
                    assert(before[i as int].0 != key@);
                    lemma_str_lt_total(before[i as int].0, key@);
                    assert(str_lt(key@, before[i as int].0));
                }
                assert forall|a: int, b: int| 0 <= a < b < keys_of(after).len() implies str_lt(
                    #[trigger] keys_of(after)[a],
                    #[trigger] keys_of(after)[b],
                ) by {
                    if b < i {
                        assert(str_lt(keys_of(before)[a], keys_of(before)[b]));
                    } else if b == i {
                        assert(str_lt(before[a].0, key@));
                    } else if a == i {
                        if b - 1 > i {
                            assert(str_lt(keys_of(before)[i as int], keys_of(before)[b - 1]));
                            lemma_str_lt_transitive(key@, keys_of(before)[i as int], keys_of(before)[b - 1]);
                        }
                    } else if a < i {
                        assert(str_lt(before[a].0, key@));
                        if b - 1 > i {
                            assert(str_lt(keys_of(before)[i as int], keys_of(before)[b - 1]));
                            lemma_str_lt_transitive(key@, keys_of(before)[i as int], keys_of(before)[b - 1]);
                        }
                        lemma_str_lt_transitive(before[a].0, key@, keys_of(before)[b - 1]);
                    } else {
                        assert(str_lt(keys_of(before)[a - 1], keys_of(before)[b - 1]));
                    }
                }
                if keys_of(before).contains(key@) {
                    let j = choose|j: int| 0 <= j < keys_of(before).len() && keys_of(before)[j] == key@;
                    if j < i {
                        assert(str_lt(before[j].0, key@));
                        lemma_str_lt_irreflexive(key@);
                    } else if j > i {
                        assert(str_lt(keys_of(before)[i as int], keys_of(before)[j]));
                        lemma_str_lt_transitive(key@, keys_of(before)[i as int], key@);
                        lemma_str_lt_irreflexive(key@);
                    }
                }
                assert forall|k: Seq<char>|
                    lookup(after, k) == if k == key@ { Some(value@) } else { lookup(before, k) } by {
                    lemma_lookup_insert(before, i as int, kv, k);
                }
            }
        }
        self.entries = entries;
    }
}

impl Clone for StringMap {
    fn clone(&self) -> (r: Self)
        ensures
            r@ == self@,
    {
        proof {
            use_type_invariant(self);
        }
        let mut entries: Vec<(String, String)> = Vec::new();
        let mut i: usize = 0;
        while i < self.entries.len()
            invariant
                0 <= i <= self.entries@.len(),
                entries@.len() == i,
                forall|j: int| 0 <= j < i ==> (#[trigger] entries@[j]).0@ == self.entries@[j].0@
                    && entries@[j].1@ == self.entries@[j].1@,
            decreases self.entries@.len() - i,
        {
            let e = &self.entries[i];
            entries.push((e.0.clone(), e.1.clone()));
            i += 1;
        }
        assert(entries@.map_values(|e: (String, String)| (e.0@, e.1@)) =~= self@);
        StringMap { entries }
    }
}

/// The numbers increase strictly.
pub open spec fn increasing(s: Seq<u16>) -> bool {
    forall|i: int, j: int| 0 <= i < j < s.len() ==> #[trigger] s[i] < #[trigger] s[j]
}

/// Two strictly increasing lists with the same elements are the same list: the order of a
/// set of ports is fixed by the ports it holds.
pub proof fn lemma_increasing_unique(a: Seq<u16>, b: Seq<u16>)
    requires
        increasing(a),
        increasing(b),
        a.to_set() == b.to_set(),
    ensures
        a == b,
    decreases a.len() + b.len(),
{
    if a.len() == 0 || b.len() == 0 {
        if a.len() > 0 {
            assert(a.to_set().contains(a[0]));
        }
        if b.len() > 0 {
            assert(b.to_set().contains(b[0]));
        }
        assert(a =~= b);
    } else {
        let x = a.last();
        let y = b.last();
        assert(a.to_set().contains(x));
        assert(b.to_set().contains(y));
        assert(b.contains(x));
        assert(a.contains(y));
        let i = choose|i: int| 0 <= i < b.len() && b[i] == x;
        let j = choose|j: int| 0 <= j < a.len() && a[j] == y;
        if i < b.len() - 1 {
            assert(b[i] < y);
            assert(a[j] <= x);
        }
        assert(x == y);
        let a1 = a.drop_last();
        let b1 = b.drop_last();
        assert forall|z: u16| a1.to_set().contains(z) <==> b1.to_set().contains(z) by {
            if a1.contains(z) {
                let k = choose|k: int| 0 <= k < a1.len() && a1[k] == z;
                assert(a[k] < x);
                assert(a[k] == z);
                assert(a.to_set().contains(z));
                assert(b.to_set().contains(z));
                assert(b.contains(z));
                let m = choose|m: int| 0 <= m < b.len() && b[m] == z;
                assert(m != b.len() - 1);
                assert(b1[m] == z);
            }
            if b1.contains(z) {
                let k = choose|k: int| 0 <= k < b1.len() && b1[k] == z;
                assert(b[k] < y);
                assert(b[k] == z);
                assert(b.to_set().contains(z));
                assert(a.to_set().contains(z));
                assert(a.contains(z));
                let m = choose|m: int| 0 <= m < a.len() && a[m] == z;
                assert(m != a.len() - 1);
                assert(a1[m] == z);
            }
        }
        assert(a1.to_set() =~= b1.to_set());
        lemma_increasing_unique(a1, b1);
        assert(a =~= a1.push(x));
        assert(b =~= b1.push(y));
    }
}

} // verus!
