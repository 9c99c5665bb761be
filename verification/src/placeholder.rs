//! The placeholder map: a case-sensitive mapping from textual keys to
//! textual values, carried along every decision and rendered into action
//! templates. Inserting an existing key overwrites its value; merging two
//! maps lets the source map win on common keys.

use vstd::prelude::*;

verus! {

/// A mapping from string keys to string values.
/// Its view is the abstract `Map<Seq<char>, Seq<char>>` it denotes.
#[derive(Debug)]
pub struct PlaceholderMap {
    entries: Vec<(String, String)>,
}

/// The abstract map denoted by a list of key/value pairs: later entries
/// overwrite earlier ones.
spec fn map_of(s: Seq<(String, String)>) -> Map<Seq<char>, Seq<char>>
    decreases s.len(),
{
    if s.len() == 0 {
        Map::empty()
    } else {
        map_of(s.drop_last()).insert(s.last().0@, s.last().1@)
    }
}

spec fn unique_keys(s: Seq<(String, String)>) -> bool {
    forall|i: int, j: int| 0 <= i < j < s.len() ==> s[i].0@ != s[j].0@
}

proof fn lemma_map_of_contains(s: Seq<(String, String)>, k: Seq<char>)
    ensures
        map_of(s).contains_key(k) <==> exists|i: int| 0 <= i < s.len() && s[i].0@ == k,
    decreases s.len(),
{
    if s.len() > 0 {
        lemma_map_of_contains(s.drop_last(), k);
        if s.last().0@ == k {
            assert(s[s.len() - 1].0@ == k);
        } else if map_of(s).contains_key(k) {
            let i = choose|i: int| 0 <= i < s.drop_last().len() && s.drop_last()[i].0@ == k;
            assert(s[i].0@ == k);
        } else {
            assert forall|i: int| 0 <= i < s.len() implies s[i].0@ != k by {
                if i < s.len() - 1 {
                    assert(s.drop_last()[i] == s[i]);
                }
            }
        }
    }
}

proof fn lemma_map_of_value(s: Seq<(String, String)>, i: int)
    requires
        unique_keys(s),
        0 <= i < s.len(),
    ensures
        map_of(s).contains_key(s[i].0@),
        map_of(s)[s[i].0@] == s[i].1@,
    decreases s.len(),
{
    lemma_map_of_contains(s, s[i].0@);
    if i < s.len() - 1 {
        assert(s.drop_last()[i] == s[i]);
        assert(unique_keys(s.drop_last())) by {
            lemma_unique_drop_last(s);
        }
        lemma_map_of_value(s.drop_last(), i);
        assert(s.last().0@ != s[i].0@);
    }
}

proof fn lemma_unique_drop_last(s: Seq<(String, String)>)
    requires
        unique_keys(s),
        s.len() > 0,
    ensures
        unique_keys(s.drop_last()),
{
    assert forall|i: int, j: int| 0 <= i < j < s.drop_last().len() implies s.drop_last()[i].0@
        != s.drop_last()[j].0@ by {
        assert(s.drop_last()[i] == s[i]);
        assert(s.drop_last()[j] == s[j]);
    }
}

proof fn lemma_map_of_finite(s: Seq<(String, String)>)
    ensures
        map_of(s).dom().finite(),
    decreases s.len(),
{
    if s.len() > 0 {
        lemma_map_of_finite(s.drop_last());
    }
}

proof fn lemma_map_of_len(s: Seq<(String, String)>)
    requires
        unique_keys(s),
    ensures
        map_of(s).dom().finite(),
        map_of(s).len() == s.len(),
    decreases s.len(),
{
    lemma_map_of_finite(s);
    if s.len() > 0 {
        lemma_unique_drop_last(s);
        lemma_map_of_len(s.drop_last());
        lemma_map_of_contains(s.drop_last(), s.last().0@);
        assert forall|i: int| 0 <= i < s.drop_last().len() implies s.drop_last()[i].0@
            != s.last().0@ by {
            assert(s.drop_last()[i] == s[i]);
        }
        assert(!map_of(s.drop_last()).contains_key(s.last().0@));
    }
}

/// Removing the (unique) entry for a key removes exactly that key from the
/// denoted map.
proof fn lemma_map_of_remove(s: Seq<(String, String)>, i: int)
    requires
        unique_keys(s),
        0 <= i < s.len(),
    ensures
        map_of(s.remove(i)) =~= map_of(s).remove(s[i].0@),
        unique_keys(s.remove(i)),
{
    let t = s.remove(i);
    assert forall|p: int, q: int| 0 <= p < q < t.len() implies t[p].0@ != t[q].0@ by {
        let p0 = if p < i { p } else { p + 1 };
        let q0 = if q < i { q } else { q + 1 };
        assert(t[p] == s[p0] && t[q] == s[q0]);
    }
    assert forall|k: Seq<char>| #![auto]
        map_of(t).contains_key(k) == map_of(s).remove(s[i].0@).contains_key(k) by {
        lemma_map_of_contains(t, k);
        lemma_map_of_contains(s, k);
        if k == s[i].0@ {
            assert forall|p: int| 0 <= p < t.len() implies t[p].0@ != k by {
                let p0 = if p < i { p } else { p + 1 };
                assert(t[p] == s[p0]);
            }
            assert(!map_of(t).contains_key(k));
        } else {
            if map_of(t).contains_key(k) {
                let p = choose|p: int| 0 <= p < t.len() && t[p].0@ == k;
                let p0 = if p < i { p } else { p + 1 };
                assert(t[p] == s[p0]);
                assert(map_of(s).contains_key(k));
            }
            if map_of(s).contains_key(k) {
                let q = choose|q: int| 0 <= q < s.len() && s[q].0@ == k;
                assert(q != i);
                let p = if q < i { q } else { q - 1 };
                assert(t[p] == s[q]);
                assert(map_of(t).contains_key(k));
            }
        }
    }
    assert forall|k: Seq<char>| #![auto] map_of(t).contains_key(k) implies map_of(t)[k] == map_of(
        s,
    ).remove(s[i].0@)[k] by {
        lemma_map_of_contains(t, k);
        let p = choose|p: int| 0 <= p < t.len() && t[p].0@ == k;
        let p0 = if p < i { p } else { p + 1 };
        assert(t[p] == s[p0]);
        lemma_map_of_value(t, p);
        lemma_map_of_value(s, p0);
        assert(k != s[i].0@);
    }
}

impl View for PlaceholderMap {
    type V = Map<Seq<char>, Seq<char>>;

    closed spec fn view(&self) -> Map<Seq<char>, Seq<char>> {
        map_of(self.entries@)
    }
}

impl PlaceholderMap {
    #[verifier::type_invariant]
    closed spec fn wf(self) -> bool {
        unique_keys(self.entries@)
    }

    /// An empty map.
    pub fn new() -> (r: Self)
        ensures
            r@ == Map::<Seq<char>, Seq<char>>::empty(),
    {
        PlaceholderMap { entries: Vec::new() }
    }

    /// The number of keys.
    pub fn len(&self) -> (r: usize)
        ensures
            r == self@.len(),
            self@.dom().finite(),
    {
        proof {
            use_type_invariant(self);
            lemma_map_of_len(self.entries@);
        }
        self.entries.len()
    }

    /// The index of the entry holding `key`, if any.
    fn find(&self, key: &str) -> (r: Option<usize>)
        ensures
            match r {
                Some(i) => i < self.entries@.len() && self.entries@[i as int].0@ == key@,
                None => forall|j: int| 0 <= j < self.entries@.len() ==> self.entries@[j].0@ != key@,
            },
    {
        let n = self.entries.len();
        for i in 0..n
            invariant
                n == self.entries.len(),
                forall|j: int| 0 <= j < i ==> self.entries@[j].0@ != key@,
        {
            if crate::text::str_eq(self.entries[i].0.as_str(), key) {
                return Some(i);
            }
        }
        None
    }

    /// Looks a key up; `None` exactly when the map does not hold it.
    pub fn get(&self, key: &str) -> (r: Option<&String>)
        ensures
            match r {
                Some(v) => self@.contains_key(key@) && v@ == self@[key@],
                None => !self@.contains_key(key@),
            },
    {
        proof {
            use_type_invariant(self);
            lemma_map_of_contains(self.entries@, key@);
        }
        match self.find(key) {
            Some(i) => {
                proof {
                    lemma_map_of_value(self.entries@, i as int);
                }
                Some(&self.entries[i].1)
            },
            None => None,
        }
    }

    /// Whether the map holds the key.
    pub fn contains_key(&self, key: &str) -> (r: bool)
        ensures
            r == self@.contains_key(key@),
    {
        self.get(key).is_some()
    }

    /// Binds `key` to `value`, overwriting any earlier binding.
    pub fn insert(&mut self, key: String, value: String)
        ensures
            final(self)@ == old(self)@.insert(key@, value@),
    {
        proof {
            use_type_invariant(&*self);
        }
        let ghost s0 = self.entries@;
        let n = self.entries.len();
        let mut out: Vec<(String, String)> = Vec::new();
        match self.find(key.as_str()) {
            Some(i) => {
                proof {
                    lemma_map_of_remove(s0, i as int);
                }
                for j in 0..n
                    invariant
                        n == self.entries@.len(),
                        self.entries@ == s0,
                        i < n,
                        s0[i as int].0@ == key@,
                        unique_keys(s0),
                        j <= i ==> out@ == s0.take(j as int),
                        j > i ==> out@ == s0.remove(i as int).take(j - 1),
                {
                    if j != i {
                        out.push((self.entries[j].0.clone(), self.entries[j].1.clone()));
                        proof {
                            if j < i {
                                assert(out@ =~= s0.take(j + 1));
                            } else {
                                assert(s0.remove(i as int)[j - 1] == s0[j as int]);
                                assert(out@ =~= s0.remove(i as int).take(j as int));
                            }
                        }
                    } else {
                        proof {
                            assert(out@ =~= s0.remove(i as int).take(j as int));
                        }
                    }
                }
                let ghost s1 = s0.remove(i as int);
                proof {
                    assert(out@ == s1.take(n - 1));
                    assert(out@ =~= s1);
                }
                out.push((key, value));
                proof {
                    assert(out@.drop_last() == s1);
                    assert forall|p: int| 0 <= p < s1.len() implies s1[p].0@ != key@ by {
                        let p0 = if p < i { p } else { p + 1 };
                        assert(s1[p] == s0[p0]);
                    }
                    lemma_unique_push(s1, key@, out@);
                    assert(map_of(out@) =~= map_of(s0).insert(key@, value@));
                }
            },
            None => {
                for j in 0..n
                    invariant
                        n == self.entries@.len(),
                        self.entries@ == s0,
                        unique_keys(s0),
                        out@ == s0.take(j as int),
                {
                    out.push((self.entries[j].0.clone(), self.entries[j].1.clone()));
                    proof {
                        assert(out@ =~= s0.take(j + 1));
                    }
                }
                proof {
                    assert(out@ == s0.take(n as int));
                    assert(out@ =~= s0);
                }
                out.push((key, value));
                proof {
                    assert(out@.drop_last() == s0);
                    lemma_unique_push(s0, key@, out@);
                }
            },
        }
        self.entries = out;
    }

    /// Copies every binding of `source` into `self`; on keys held by both,
    /// `source` wins.
    pub fn merge(&mut self, source: &PlaceholderMap)
        ensures
            final(self)@ == old(self)@.union_prefer_right(source@),
    {
        proof {
            use_type_invariant(source);
        }
        let n = source.entries.len();
        for i in 0..n
            invariant
                n == source.entries.len(),
                unique_keys(source.entries@),
                self@ == old(self)@.union_prefer_right(map_of(source.entries@.take(i as int))),
        {
            let k = source.entries[i].0.clone();
            let v = source.entries[i].1.clone();
            self.insert(k, v);
            proof {
                let si = source.entries@.take(i as int);
                let si1 = source.entries@.take(i + 1);
                assert(si1.drop_last() == si);
                assert(si1.last() == source.entries@[i as int]);
                assert(self@ =~= old(self)@.union_prefer_right(map_of(si1)));
            }
        }
        proof {
            assert(source.entries@.take(n as int) == source.entries@);
        }
    }

    /// The key/value pairs, each key once and every key present, for
    /// walking the map from outside.
    pub fn pairs(&self) -> (r: Vec<(String, String)>)
        ensures
            r@.len() == self@.len(),
            forall|i: int|
                0 <= i < r@.len() ==> self@.contains_key(#[trigger] r@[i].0@) && self@[r@[i].0@]
                    == r@[i].1@,
            forall|i: int, j: int| 0 <= i < j < r@.len() ==> r@[i].0@ != r@[j].0@,
            forall|k: Seq<char>|
                self@.contains_key(k) ==> exists|i: int| 0 <= i < r@.len() && (#[trigger] r@[i]).0@
                    == k,
    {
        proof {
            use_type_invariant(self);
            lemma_map_of_len(self.entries@);
        }
        let n = self.entries.len();
        let mut out: Vec<(String, String)> = Vec::new();
        for i in 0..n
            invariant
                n == self.entries.len(),
                unique_keys(self.entries@),
                out@.len() == i,
                forall|j: int|
                    0 <= j < i ==> out@[j].0@ == self.entries@[j].0@ && out@[j].1@
                        == self.entries@[j].1@,
        {
            out.push((self.entries[i].0.clone(), self.entries[i].1.clone()));
        }
        proof {
            assert forall|i: int| 0 <= i < out@.len() implies self@.contains_key(
                #[trigger] out@[i].0@,
            ) && self@[out@[i].0@] == out@[i].1@ by {
                lemma_map_of_value(self.entries@, i);
            }
            assert forall|k: Seq<char>| self@.contains_key(k) implies exists|i: int|
                0 <= i < out@.len() && (#[trigger] out@[i]).0@ == k by {
                lemma_map_of_contains(self.entries@, k);
                let i = choose|i: int|
                    0 <= i < self.entries@.len() && self.entries@[i].0@ == k;
                assert((out@[i]).0@ == k);
            }
        }
        out
    }

    /// A copy with the same bindings.
    pub fn duplicate(&self) -> (r: Self)
        ensures
            r@ == self@,
    {
        proof {
            use_type_invariant(self);
        }
        let n = self.entries.len();
        let mut out: Vec<(String, String)> = Vec::new();
        for i in 0..n
            invariant
                n == self.entries.len(),
                unique_keys(self.entries@),
                out@.len() == i,
                forall|j: int|
                    0 <= j < i ==> out@[j].0@ == self.entries@[j].0@ && out@[j].1@
                        == self.entries@[j].1@,
        {
            out.push((self.entries[i].0.clone(), self.entries[i].1.clone()));
        }
        proof {
            assert(unique_keys(out@));
            lemma_map_of_views_equal(out@, self.entries@);
        }
        PlaceholderMap { entries: out }
    }
}

/// Appending an entry with a fresh key keeps the keys unique.
proof fn lemma_unique_push(s: Seq<(String, String)>, key: Seq<char>, t: Seq<(String, String)>)
    requires
        unique_keys(s),
        forall|p: int| 0 <= p < s.len() ==> s[p].0@ != key,
        t.len() == s.len() + 1,
        t.drop_last() == s,
        t.last().0@ == key,
    ensures
        unique_keys(t),
{
    assert forall|p: int, q: int| 0 <= p < q < t.len() implies t[p].0@ != t[q].0@ by {
        if q < t.len() - 1 {
            assert(t[p] == s[p] && t[q] == s[q]);
        } else {
            assert(t[p] == s[p]);
        }
    }
}

/// The map a stack of placeholder layers comes to, later layers
/// winning, as each merge of the engine performs it.
pub open spec fn merge_layers(
    base: Map<Seq<char>, Seq<char>>,
    layers: Seq<Map<Seq<char>, Seq<char>>>,
) -> Map<Seq<char>, Seq<char>>
    decreases layers.len(),
{
    if layers.len() == 0 {
        base
    } else {
        merge_layers(base, layers.drop_last()).union_prefer_right(layers.last())
    }
}

/// Law: layer precedence. When placeholder layers are merged in order,
/// a key defined by layer `last` and by no later layer ends up with
/// layer `last`'s value.
pub proof fn lemma_layer_precedence(
    base: Map<Seq<char>, Seq<char>>,
    layers: Seq<Map<Seq<char>, Seq<char>>>,
    k: Seq<char>,
    last: int,
)
    requires
        0 <= last < layers.len(),
        layers[last].contains_key(k),
        forall|j: int| last < j < layers.len() ==> !(#[trigger] layers[j]).contains_key(k),
    ensures
        merge_layers(base, layers).contains_key(k),
        merge_layers(base, layers)[k] == layers[last][k],
    decreases layers.len(),
{
    let front = layers.drop_last();
    if last == layers.len() - 1 {
    } else {
        assert(front[last] == layers[last]);
        assert forall|j: int| last < j < front.len() implies !(
        #[trigger] front[j]).contains_key(k) by {
            assert(front[j] == layers[j]);
        }
        lemma_layer_precedence(base, front, k, last);
        assert(!layers.last().contains_key(k));
    }
}

/// Law: a key no layer defines keeps the base map's binding.
pub proof fn lemma_layer_precedence_absent(
    base: Map<Seq<char>, Seq<char>>,
    layers: Seq<Map<Seq<char>, Seq<char>>>,
    k: Seq<char>,
)
    requires
        forall|j: int| 0 <= j < layers.len() ==> !(#[trigger] layers[j]).contains_key(k),
    ensures
        merge_layers(base, layers).contains_key(k) == base.contains_key(k),
        base.contains_key(k) ==> merge_layers(base, layers)[k] == base[k],
    decreases layers.len(),
{
    if layers.len() > 0 {
        let front = layers.drop_last();
        assert forall|j: int| 0 <= j < front.len() implies !(
        #[trigger] front[j]).contains_key(k) by {
            assert(front[j] == layers[j]);
        }
        lemma_layer_precedence_absent(base, front, k);
    }
}

/// Two entry lists whose keys and values agree pointwise denote the same map.
proof fn lemma_map_of_views_equal(a: Seq<(String, String)>, b: Seq<(String, String)>)
    requires
        a.len() == b.len(),
        forall|i: int| 0 <= i < a.len() ==> a[i].0@ == b[i].0@ && a[i].1@ == b[i].1@,
    ensures
        map_of(a) == map_of(b),
    decreases a.len(),
{
    if a.len() > 0 {
        assert forall|i: int|
            0 <= i < a.drop_last().len() implies a.drop_last()[i].0@ == b.drop_last()[i].0@
            && a.drop_last()[i].1@ == b.drop_last()[i].1@ by {
            assert(a.drop_last()[i] == a[i] && b.drop_last()[i] == b[i]);
        }
        lemma_map_of_views_equal(a.drop_last(), b.drop_last());
    }
}

} // verus!
