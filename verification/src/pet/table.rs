//! An ordered table of named animations: each name at most once, names kept in
//! ascending order, as a sorted map of strings keeps them.
use vstd::prelude::*;

use crate::pet::manifest::Animation;
use crate::text::chars_of;

verus! {

/// Lexicographic order on character sequences (code point by code point), the
/// order in which `String`s sort.
pub open spec fn seq_lt(a: Seq<char>, b: Seq<char>) -> bool
    decreases a.len(),
{
    if a.len() == 0 {
        b.len() > 0
    } else if b.len() == 0 {
        false
    } else if (a[0] as u32) < (b[0] as u32) {
        true
    } else if a[0] == b[0] {
        seq_lt(a.drop_first(), b.drop_first())
    } else {
        false
    }
}

/// `seq_lt` is a strict total order.
pub proof fn lemma_seq_lt_total(a: Seq<char>, b: Seq<char>)
    ensures
        !seq_lt(a, a),
        a != b ==> (seq_lt(a, b) || seq_lt(b, a)),
        !(seq_lt(a, b) && seq_lt(b, a)),
    decreases a.len(),
{
    if a.len() > 0 && b.len() > 0 {
        lemma_seq_lt_total(a.drop_first(), b.drop_first());
        lemma_seq_lt_total(a.drop_first(), a.drop_first());
        if a[0] == b[0] && a.drop_first() == b.drop_first() {
            assert(a =~= seq![a[0]] + a.drop_first());
            assert(b =~= seq![b[0]] + b.drop_first());
        }
        let ua: u32 = a[0] as u32;
        let ub: u32 = b[0] as u32;
        vstd::utf8::char_u32_cast(a[0], ua);
        vstd::utf8::char_u32_cast(b[0], ub);
    } else if a.len() > 0 {
        lemma_seq_lt_total(a.drop_first(), a.drop_first());
    } else if b.len() == 0 {
        assert(a =~= b);
    }
}

/// `seq_lt` is transitive.
pub proof fn lemma_seq_lt_transitive(a: Seq<char>, b: Seq<char>, c: Seq<char>)
    requires
        seq_lt(a, b),
        seq_lt(b, c),
    ensures
        seq_lt(a, c),
    decreases a.len(),
{
    if a.len() > 0 && b.len() > 0 && c.len() > 0 && a[0] == b[0] && b[0] == c[0] {
        lemma_seq_lt_transitive(a.drop_first(), b.drop_first(), c.drop_first());
    }
}

/// Compare two strings in `seq_lt` order: `-1`, `0` or `1`.
pub fn compare_str(a: &str, b: &str) -> (r: i8)
    ensures
        r == -1 <==> seq_lt(a@, b@),
        r == 0 <==> a@ == b@,
        r == 1 <==> seq_lt(b@, a@),
{
    let x = chars_of(a);
    let y = chars_of(b);
    let mut i: usize = 0;
    proof {
        lemma_seq_lt_total(a@, b@);
        assert(a@.subrange(0, a@.len() as int) =~= a@);
        assert(b@.subrange(0, b@.len() as int) =~= b@);
    }
    while i < x.len() && i < y.len()
        invariant
            x@ == a@,
            y@ == b@,
            i <= x@.len(),
            i <= y@.len(),
            x@.subrange(0, i as int) == y@.subrange(0, i as int),
            seq_lt(a@, b@) == seq_lt(a@.subrange(i as int, a@.len() as int), b@.subrange(i as int, b@.len() as int)),
            seq_lt(b@, a@) == seq_lt(b@.subrange(i as int, b@.len() as int), a@.subrange(i as int, a@.len() as int)),
        decreases x@.len() - i,
    {
        let cx: u32 = x[i] as u32;
        let cy: u32 = y[i] as u32;
        if cx < cy {
            return -1;
        }
        if cy < cx {
            return 1;
        }
        proof {
            vstd::utf8::char_u32_cast(x@[i as int], cx);
            vstd::utf8::char_u32_cast(y@[i as int], cy);
            assert(x@[i as int] == y@[i as int]);
            assert(a@.subrange(i as int, a@.len() as int).drop_first() =~= a@.subrange(i + 1, a@.len() as int));
            assert(b@.subrange(i as int, b@.len() as int).drop_first() =~= b@.subrange(i + 1, b@.len() as int));
            assert(x@.subrange(0, i + 1) =~= x@.subrange(0, i as int).push(x@[i as int]));
            assert(y@.subrange(0, i + 1) =~= y@.subrange(0, i as int).push(y@[i as int]));
        }
        i += 1;
    }
    if i < x.len() {
        proof {
            assert(b@ =~= y@.subrange(0, i as int));
            assert(a@ =~= x@.subrange(0, i as int) + x@.subrange(i as int, x@.len() as int));
        }
        1
    } else if i < y.len() {
        proof {
            assert(a@ =~= x@.subrange(0, i as int));
            assert(b@ =~= y@.subrange(0, i as int) + y@.subrange(i as int, y@.len() as int));
        }
        -1
    } else {
        proof {
            assert(a@ =~= x@.subrange(0, i as int));
            assert(b@ =~= y@.subrange(0, i as int));
        }
        0
    }
}

/// Every name comes before the next one in `seq_lt` order.
pub open spec fn keys_sorted(keys: Seq<Seq<char>>) -> bool {
    forall|i: int, j: int| 0 <= i < j < keys.len() ==> seq_lt(#[trigger] keys[i], #[trigger] keys[j])
}

/// The map that parallel sequences of names and animations describe.
pub open spec fn table_map(keys: Seq<Seq<char>>, values: Seq<Animation>) -> Map<Seq<char>, Animation> {
    Map::new(
        |k: Seq<char>| keys.contains(k),
        |k: Seq<char>| values[key_position(keys, k)],
    )
}

/// A position at which `k` occurs among `keys` (when it does).
pub open spec fn key_position(keys: Seq<Seq<char>>, k: Seq<char>) -> int {
    choose|i: int| 0 <= i < keys.len() && keys[i] == k
}

/// Sorted names are distinct.
pub proof fn lemma_sorted_distinct(keys: Seq<Seq<char>>, i: int, j: int)
    requires
        keys_sorted(keys),
        0 <= i < keys.len(),
        0 <= j < keys.len(),
        keys[i] == keys[j],
    ensures
        i == j,
{
    lemma_seq_lt_total(keys[i], keys[i]);
    if i < j {
        assert(seq_lt(keys[i], keys[j]));
    } else if j < i {
        assert(seq_lt(keys[j], keys[i]));
    }
}

/// In a sorted table the map gives, for each name, the animation stored beside it.
pub proof fn lemma_table_map_at(keys: Seq<Seq<char>>, values: Seq<Animation>, i: int)
    requires
        keys_sorted(keys),
        keys.len() == values.len(),
        0 <= i < keys.len(),
    ensures
        table_map(keys, values).contains_key(keys[i]),
        table_map(keys, values)[keys[i]] == values[i],
{
    let k = keys[i];
    assert(keys.contains(k));
    assert(0 <= i < keys.len() && keys[i] == k);
    let j = key_position(keys, k);
    assert(0 <= j < keys.len() && keys[j] == k);
    lemma_sorted_distinct(keys, i, j);
}

/// The map's domain is the set of names.
pub proof fn lemma_table_map_dom(keys: Seq<Seq<char>>, values: Seq<Animation>)
    ensures
        table_map(keys, values).dom() == keys.to_set(),
{
    assert(table_map(keys, values).dom() =~= keys.to_set());
}

/// Sorted names hold no duplicates.
pub proof fn lemma_sorted_no_duplicates(keys: Seq<Seq<char>>)
    requires
        keys_sorted(keys),
    ensures
        keys.no_duplicates(),
{
    assert forall|i: int, j: int| 0 <= i < keys.len() && 0 <= j < keys.len() && i != j implies keys[i]
        != keys[j] by {
        if keys[i] == keys[j] {
            lemma_sorted_distinct(keys, i, j);
        }
    }
}

/// Replacing the animation at a name's position replaces that name's entry in the map.
pub proof fn lemma_table_map_update(
    keys: Seq<Seq<char>>,
    values: Seq<Animation>,
    p: int,
    a: Animation,
)
    requires
        keys_sorted(keys),
        keys.len() == values.len(),
        0 <= p < keys.len(),
    ensures
        table_map(keys, values.update(p, a)) == table_map(keys, values).insert(keys[p], a),
{
    let m1 = table_map(keys, values.update(p, a));
    let m2 = table_map(keys, values).insert(keys[p], a);
    assert forall|k: Seq<char>| m1.contains_key(k) implies m1[k] == m2[k] by {
        let q = key_position(keys, k);
        assert(0 <= q < keys.len() && keys[q] == k);
        if k == keys[p] {
            lemma_sorted_distinct(keys, p, q);
        } else {
            assert(q != p);
        }
    }
    assert(keys.contains(keys[p]));
    assert(m1.dom() =~= m2.dom());
    assert(m1 =~= m2);
}

/// Inserting a name and its animation at position `p` inserts that entry in the map.
pub proof fn lemma_table_map_insert(
    keys: Seq<Seq<char>>,
    values: Seq<Animation>,
    p: int,
    k0: Seq<char>,
    a: Animation,
)
    requires
        keys_sorted(keys),
        keys_sorted(keys.insert(p, k0)),
        keys.len() == values.len(),
        0 <= p <= keys.len(),
    ensures
        table_map(keys.insert(p, k0), values.insert(p, a)) == table_map(keys, values).insert(k0, a),
{
    let nk = keys.insert(p, k0);
    let nv = values.insert(p, a);
    let m1 = table_map(nk, nv);
    let m2 = table_map(keys, values).insert(k0, a);
    assert forall|k: Seq<char>| m1.contains_key(k) implies m1[k] == m2[k] by {
        let q = key_position(nk, k);
        assert(0 <= q < nk.len() && nk[q] == k);
        if k == k0 {
            assert(nk[p] == k0);
            lemma_sorted_distinct(nk, p, q);
        } else {
            assert(q != p);
            let oq = if q < p { q } else { q - 1 };
            assert(keys[oq] == k);
            assert(keys.contains(k));
            let r = key_position(keys, k);
            assert(0 <= r < keys.len() && keys[r] == k);
            lemma_sorted_distinct(keys, oq, r);
        }
    }
    assert forall|k: Seq<char>| m2.contains_key(k) implies m1.contains_key(k) by {
        if k == k0 {
            assert(nk[p] == k0);
        } else {
            let r = key_position(keys, k);
            assert(0 <= r < keys.len() && keys[r] == k);
            if r < p {
                assert(nk[r] == k);
            } else {
                assert(nk[r + 1] == k);
            }
        }
    }
    assert forall|k: Seq<char>| m1.contains_key(k) implies m2.contains_key(k) by {
        let q = key_position(nk, k);
        assert(0 <= q < nk.len() && nk[q] == k);
        if q < p {
            assert(keys[q] == k);
        } else if q > p {
            assert(keys[q - 1] == k);
        }
    }
    assert(m1.dom() =~= m2.dom());
    assert(m1 =~= m2);
}

/// An ordered table of named animations (the manifest's `animations`).
#[derive(Debug)]
pub struct AnimationTable {
    entries: Vec<(String, Animation)>,
}

impl View for AnimationTable {
    type V = Map<Seq<char>, Animation>;

    closed spec fn view(&self) -> Map<Seq<char>, Animation> {
        table_map(self.spec_keys(), self.spec_values())
    }
}

impl AnimationTable {
    /// The names, in ascending order.
    pub closed spec fn spec_keys(&self) -> Seq<Seq<char>> {
        self.entries@.map_values(|e: (String, Animation)| e.0@)
    }

    /// The animations, in the order of their names.
    pub closed spec fn spec_values(&self) -> Seq<Animation> {
        self.entries@.map_values(|e: (String, Animation)| e.1)
    }

    #[verifier::type_invariant]
    spec fn inv(&self) -> bool {
        keys_sorted(self.spec_keys())
    }

    /// An empty table.
    pub fn new() -> (t: Self)
        ensures
            t.spec_keys() == Seq::<Seq<char>>::empty(),
            t@ == Map::<Seq<char>, Animation>::empty(),
    {
        let t = AnimationTable { entries: Vec::new() };
        assert(t.spec_keys() =~= Seq::<Seq<char>>::empty());
        assert(t@ =~= Map::<Seq<char>, Animation>::empty());
        t
    }

    /// Number of animations.
    pub fn len(&self) -> (n: usize)
        ensures
            n == self.spec_keys().len(),
            n == self.spec_values().len(),
            n == self@.len(),
            keys_sorted(self.spec_keys()),
            self@.dom() == self.spec_keys().to_set(),
            forall|i: int|
                0 <= i < n ==> #[trigger] self@[self.spec_keys()[i]] == self.spec_values()[i],
    {
        proof {
            use_type_invariant(self);
            assert forall|i: int| 0 <= i < self.spec_keys().len() implies #[trigger] self@[self.spec_keys()[i]] == self.spec_values()[i] by {
                lemma_table_map_at(self.spec_keys(), self.spec_values(), i);
            }
            lemma_table_map_dom(self.spec_keys(), self.spec_values());
            lemma_sorted_no_duplicates(self.spec_keys());
            self.spec_keys().unique_seq_to_set();
        }
        self.entries.len()
    }

    /// The name at position `i`.
    pub fn key_at(&self, i: usize) -> (k: &String)
        requires
            i < self.spec_keys().len(),
        ensures
            k@ == self.spec_keys()[i as int],
    {
        &self.entries[i].0
    }

    /// The animation at position `i`.
    pub fn value_at(&self, i: usize) -> (a: &Animation)
        requires
            i < self.spec_keys().len(),
        ensures
            *a == self.spec_values()[i as int],
            self@.contains_key(self.spec_keys()[i as int]),
            self@[self.spec_keys()[i as int]] == *a,
    {
        proof {
            use_type_invariant(self);
            lemma_table_map_at(self.spec_keys(), self.spec_values(), i as int);
        }
        &self.entries[i].1
    }

    /// The position of `name`, if the table has it.
    pub fn find(&self, name: &str) -> (r: Option<usize>)
        ensures
            match r {
                Some(i) => i < self.spec_keys().len() && self.spec_keys()[i as int] == name@,
                None => !self.spec_keys().contains(name@),
            },
            r is Some <==> self@.contains_key(name@),
    {
        proof {
            lemma_table_map_dom(self.spec_keys(), self.spec_values());
        }
        let mut i: usize = 0;
        while i < self.entries.len()
            invariant
                i <= self.entries@.len(),
                self.spec_keys().len() == self.entries@.len(),
                forall|j: int| 0 <= j < i ==> self.spec_keys()[j] != name@,
            decreases self.entries@.len() - i,
        {
            if crate::text::str_eq(self.entries[i].0.as_str(), name) {
                proof {
                    assert(self.spec_keys()[i as int] == name@);
                    assert(self.spec_keys().contains(name@));
                }
                return Some(i);
            }
            i += 1;
        }
        None
    }

    /// The animation named `name`, if any.
    pub fn get(&self, name: &str) -> (r: Option<&Animation>)
        ensures
            match r {
                Some(a) => self@.contains_key(name@) && self@[name@] == *a,
                None => !self@.contains_key(name@),
            },
    {
        match self.find(name) {
            Some(i) => Some(self.value_at(i)),
            None => None,
        }
    }

    /// A copy of the table with the same names (the animations are cloned).
    pub fn duplicate(&self) -> (r: Self)
        ensures
            r.spec_keys() == self.spec_keys(),
    {
        proof {
            use_type_invariant(self);
        }
        let mut entries: Vec<(String, Animation)> = Vec::new();
        let mut i: usize = 0;
        while i < self.entries.len()
            invariant
                i <= self.entries@.len(),
                entries@.len() == i,
                keys_sorted(self.spec_keys()),
                forall|j: int| 0 <= j < i ==> #[trigger] entries@[j].0@ == self.entries@[j].0@,
            decreases self.entries@.len() - i,
        {
            let key = self.entries[i].0.clone();
            let value = self.entries[i].1.clone();
            entries.push((key, value));
            i += 1;
        }
        assert(entries@.map_values(|e: (String, Animation)| e.0@) =~= self.spec_keys());
        let r = AnimationTable { entries };
        r
    }

    /// Put `anim` under `name`, replacing and returning any animation already there.
    pub fn insert(&mut self, name: String, anim: Animation) -> (previous: Option<Animation>)
        ensures
            final(self)@ == old(self)@.insert(name@, anim),
            match previous {
                Some(a) => old(self)@.contains_key(name@) && old(self)@[name@] == a,
                None => !old(self)@.contains_key(name@),
            },
    {
        proof {
            use_type_invariant(&*self);
            lemma_table_map_dom(self.spec_keys(), self.spec_values());
        }
        let ghost keys = self.spec_keys();
        let ghost values = self.spec_values();
        let ghost old_view = self@;
        let mut entries: Vec<(String, Animation)> = Vec::new();
        std::mem::swap(&mut entries, &mut self.entries);
        assert(entries@.map_values(|e: (String, Animation)| e.0@) == keys);
        assert(entries@.map_values(|e: (String, Animation)| e.1) == values);
        let mut p: usize = 0;
        while p < entries.len() && compare_str(entries[p].0.as_str(), name.as_str()) == -1
            invariant
                p <= entries@.len(),
                keys == entries@.map_values(|e: (String, Animation)| e.0@),
                forall|j: int| 0 <= j < p ==> seq_lt(#[trigger] keys[j], name@),
            decreases entries@.len() - p,
        {
            p += 1;
        }
        if p < entries.len() && compare_str(entries[p].0.as_str(), name.as_str()) == 0 {
            let (_, old_anim) = entries.remove(p);
            entries.insert(p, (name, anim));
            proof {
                assert(entries@.map_values(|e: (String, Animation)| e.0@) =~= keys);
                assert(entries@.map_values(|e: (String, Animation)| e.1) =~= values.update(
                    p as int,
                    anim,
                ));
                lemma_table_map_update(keys, values, p as int, anim);
                lemma_table_map_at(keys, values, p as int);
            }
            self.entries = entries;
            Some(old_anim)
        } else {
            proof {
                let nk = keys.insert(p as int, name@);
                if p < keys.len() {
                    lemma_seq_lt_total(keys[p as int], name@);
                }
                assert forall|i: int, j: int| 0 <= i < j < nk.len() implies seq_lt(
                    #[trigger] nk[i],
                    #[trigger] nk[j],
                ) by {
                    if j < p {
                    } else if i < p && j == p {
                    } else if i < p && j > p {
                        if i < p {
                            assert(seq_lt(keys[i], name@));
                            lemma_seq_lt_transitive(keys[i], name@, keys[p as int]);
                            if j - 1 > p {
                                lemma_seq_lt_transitive(keys[i], keys[p as int], keys[j - 1]);
                            }
                        }
                    } else if i == p {
                        if j - 1 > p {
                            lemma_seq_lt_transitive(name@, keys[p as int], keys[j - 1]);
                        }
                    } else {
                    }
                }
                assert(!keys.contains(name@)) by {
                    if keys.contains(name@) {
                        let q = choose|q: int| 0 <= q < keys.len() && keys[q] == name@;
                        lemma_seq_lt_total(name@, name@);
                        if q < p {
                        } else if q > p {
                            lemma_seq_lt_transitive(name@, keys[p as int], keys[q]);
                        }
                    }
                }
            }
            entries.insert(p, (name, anim));
            proof {
                assert(entries@.map_values(|e: (String, Animation)| e.0@) =~= keys.insert(
                    p as int,
                    name@,
                ));
                assert(entries@.map_values(|e: (String, Animation)| e.1) =~= values.insert(
                    p as int,
                    anim,
                ));
                lemma_table_map_insert(keys, values, p as int, name@, anim);
            }
            self.entries = entries;
            None
        }
    }

    /// Whether the table has an animation named `name`.
    pub fn contains_key(&self, name: &str) -> (r: bool)
        ensures
            r == self@.contains_key(name@),
    {
        self.find(name).is_some()
    }
}


} // verus!
