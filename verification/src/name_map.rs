//! A map from names to values that keeps its entries in name order, so that
//! walking it always visits the same names in the same sequence.

use crate::text::{
    ascending, lemma_name_lt_asymmetric, lemma_name_lt_irreflexive, lemma_name_lt_transitive,
    name_lt, name_order, NameOrder,
};
use vstd::prelude::*;
use vstd::string::*;

verus! {

/// The map that pairs each of `names` with the value at the same position.
pub open spec fn pairing<V>(names: Seq<Seq<char>>, values: Seq<V>) -> Map<Seq<char>, V> {
    Map::new(|k: Seq<char>| names.contains(k), |k: Seq<char>| values[names.index_of(k)])
}

/// `names` lists exactly the members of `domain`, each once, in ascending order.
pub open spec fn is_listing(names: Seq<Seq<char>>, domain: Set<Seq<char>>) -> bool {
    &&& ascending(names)
    &&& forall|k: Seq<char>| names.contains(k) <==> domain.contains(k)
}

/// Names in ascending order are pairwise distinct.
pub proof fn lemma_ascending_distinct(names: Seq<Seq<char>>, i: int, j: int)
    requires
        ascending(names),
        0 <= i < names.len(),
        0 <= j < names.len(),
        names[i] == names[j],
    ensures
        i == j,
{
    lemma_name_lt_irreflexive(names[i]);
}

/// In an ascending pairing every name maps to the value at its own position.
pub proof fn lemma_pairing_at<V>(names: Seq<Seq<char>>, values: Seq<V>, i: int)
    requires
        ascending(names),
        0 <= i < names.len(),
    ensures
        pairing(names, values).contains_key(names[i]),
        pairing(names, values)[names[i]] == values[i],
{
    assert(names.contains(names[i]));
    lemma_ascending_distinct(names, i, names.index_of(names[i]));
}

/// Putting a name at the position where the order wants it keeps the order, and
/// adds exactly that name to the pairing.
pub proof fn lemma_pairing_insert<V>(
    names: Seq<Seq<char>>,
    values: Seq<V>,
    at: int,
    name: Seq<char>,
    value: V,
)
    requires
        ascending(names),
        names.len() == values.len(),
        0 <= at <= names.len(),
        forall|i: int| 0 <= i < at ==> name_lt(#[trigger] names[i], name),
        forall|i: int| at <= i < names.len() ==> name_lt(name, #[trigger] names[i]),
    ensures
        ascending(names.insert(at, name)),
        pairing(names.insert(at, name), values.insert(at, value)) == pairing(names, values).insert(
            name,
            value,
        ),
{
    let names2 = names.insert(at, name);
    let values2 = values.insert(at, value);
    assert forall|i: int, j: int| 0 <= i < j < names2.len() implies name_lt(
        #[trigger] names2[i],
        #[trigger] names2[j],
    ) by {
        if j < at {
            assert(names2[i] == names[i] && names2[j] == names[j]);
        } else if j == at {
            assert(names2[i] == names[i]);
        } else if i < at {
            assert(names2[i] == names[i] && names2[j] == names[j - 1]);
        } else if i == at {
            assert(names2[j] == names[j - 1]);
        } else {
            assert(names2[i] == names[i - 1] && names2[j] == names[j - 1]);
        }
    }
    let left = pairing(names2, values2);
    let right = pairing(names, values).insert(name, value);
    assert forall|k: Seq<char>| left.contains_key(k) <==> right.contains_key(k) by {
        if names2.contains(k) {
            let j = choose|j: int| 0 <= j < names2.len() && names2[j] == k;
            if j < at {
                assert(names[j] == k);
            } else if j > at {
                assert(names[j - 1] == k);
            }
        }
        if names.contains(k) {
            let j = choose|j: int| 0 <= j < names.len() && names[j] == k;
            if j < at {
                assert(names2[j] == k);
            } else {
                assert(names2[j + 1] == k);
            }
        }
        if k == name {
            assert(names2[at] == k);
        }
    }
    assert forall|k: Seq<char>| left.contains_key(k) implies left[k] == right[k] by {
        let j = choose|j: int| 0 <= j < names2.len() && names2[j] == k;
        lemma_pairing_at(names2, values2, j);
        if j < at {
            lemma_name_lt_asymmetric(names[j], name);
            lemma_pairing_at(names, values, j);
        } else if j > at {
            lemma_name_lt_asymmetric(name, names[j - 1]);
            lemma_pairing_at(names, values, j - 1);
        }
    }
    assert(left =~= right);
}

/// Taking the entry at a position out keeps the order, and removes exactly its
/// name from the pairing.
pub proof fn lemma_pairing_remove<V>(names: Seq<Seq<char>>, values: Seq<V>, at: int)
    requires
        ascending(names),
        names.len() == values.len(),
        0 <= at < names.len(),
    ensures
        ascending(names.remove(at)),
        pairing(names.remove(at), values.remove(at)) == pairing(names, values).remove(names[at]),
{
    let names2 = names.remove(at);
    let values2 = values.remove(at);
    assert forall|i: int, j: int| 0 <= i < j < names2.len() implies name_lt(
        #[trigger] names2[i],
        #[trigger] names2[j],
    ) by {
        let i0 = if i < at { i } else { i + 1 };
        let j0 = if j < at { j } else { j + 1 };
        assert(names2[i] == names[i0] && names2[j] == names[j0]);
    }
    let left = pairing(names2, values2);
    let right = pairing(names, values).remove(names[at]);
    assert forall|k: Seq<char>| left.contains_key(k) <==> right.contains_key(k) by {
        if names2.contains(k) {
            let j = choose|j: int| 0 <= j < names2.len() && names2[j] == k;
            let j0 = if j < at { j } else { j + 1 };
            assert(names[j0] == k);
            if k == names[at] {
                lemma_ascending_distinct(names, j0, at);
            }
        }
        if names.contains(k) && k != names[at] {
            let j = choose|j: int| 0 <= j < names.len() && names[j] == k;
            if j < at {
                assert(names2[j] == k);
            } else {
                assert(names2[j - 1] == k);
            }
        }
    }
    assert forall|k: Seq<char>| left.contains_key(k) implies left[k] == right[k] by {
        let j = choose|j: int| 0 <= j < names2.len() && names2[j] == k;
        let j0 = if j < at { j } else { j + 1 };
        lemma_pairing_at(names2, values2, j);
        lemma_pairing_at(names, values, j0);
    }
    assert(left =~= right);
}

/// A set of names has only one listing: the order of a walk depends on nothing
/// but which names are present.
pub proof fn lemma_listing_unique(a: Seq<Seq<char>>, b: Seq<Seq<char>>, domain: Set<Seq<char>>)
    requires
        is_listing(a, domain),
        is_listing(b, domain),
    ensures
        a == b,
    decreases a.len(),
{
    if a.len() == 0 {
        if b.len() > 0 {
            assert(b.contains(b[0]));
            assert(a.contains(b[0]));
        }
        assert(a =~= b);
    } else {
        assert(a.contains(a[0]));
        assert(b.contains(a[0]));
        let jb = choose|j: int| 0 <= j < b.len() && b[j] == a[0];
        assert(b.contains(b[0]));
        assert(a.contains(b[0]));
        let ja = choose|j: int| 0 <= j < a.len() && a[j] == b[0];
        if jb > 0 {
            // b[0] comes before b[jb] == a[0], so it cannot stand at or after a[0] in a.
            assert(name_lt(b[0], b[jb]));
            if ja > 0 {
                assert(name_lt(a[0], a[ja]));
                lemma_name_lt_asymmetric(a[0], a[ja]);
            } else {
                lemma_name_lt_irreflexive(a[0]);
            }
        }
        assert(a[0] == b[0]);
        let ta = a.drop_first();
        let tb = b.drop_first();
        let rest = domain.remove(a[0]);
        assert forall|i: int, j: int| 0 <= i < j < ta.len() implies name_lt(
            #[trigger] ta[i],
            #[trigger] ta[j],
        ) by {
            assert(ta[i] == a[i + 1] && ta[j] == a[j + 1]);
        }
        assert forall|i: int, j: int| 0 <= i < j < tb.len() implies name_lt(
            #[trigger] tb[i],
            #[trigger] tb[j],
        ) by {
            assert(tb[i] == b[i + 1] && tb[j] == b[j + 1]);
        }
        assert forall|k: Seq<char>| ta.contains(k) <==> rest.contains(k) by {
            if ta.contains(k) {
                let j = choose|j: int| 0 <= j < ta.len() && ta[j] == k;
                assert(a[j + 1] == k);
                assert(a.contains(k));
                if k == a[0] {
                    lemma_ascending_distinct(a, 0, j + 1);
                }
            }
            if rest.contains(k) {
                assert(a.contains(k));
                let j = choose|j: int| 0 <= j < a.len() && a[j] == k;
                assert(ta[j - 1] == k);
            }
        }
        assert forall|k: Seq<char>| tb.contains(k) <==> rest.contains(k) by {
            if tb.contains(k) {
                let j = choose|j: int| 0 <= j < tb.len() && tb[j] == k;
                assert(b[j + 1] == k);
                assert(b.contains(k));
                if k == b[0] {
                    lemma_ascending_distinct(b, 0, j + 1);
                }
            }
            if rest.contains(k) {
                assert(b.contains(k));
                let j = choose|j: int| 0 <= j < b.len() && b[j] == k;
                assert(tb[j - 1] == k);
            }
        }
        lemma_listing_unique(ta, tb, rest);
        assert(a =~= seq![a[0]] + ta);
        assert(b =~= seq![b[0]] + tb);
    }
}

/// The listing of a set of names: its members in ascending order.
pub open spec fn listing_of(domain: Set<Seq<char>>) -> Seq<Seq<char>> {
    choose|names: Seq<Seq<char>>| is_listing(names, domain)
}

/// Any listing of a set of names is the listing of that set.
pub proof fn lemma_listing_of(names: Seq<Seq<char>>, domain: Set<Seq<char>>)
    requires
        is_listing(names, domain),
    ensures
        listing_of(domain) == names,
{
    lemma_listing_unique(listing_of(domain), names, domain);
}

/// The map that the first `count` of `pairs` make when they are bound one
/// after the other: of two pairs with one name the later stays.
pub open spec fn collected<V>(pairs: Seq<(String, V)>, count: nat) -> Map<Seq<char>, V>
    decreases count,
{
    if count == 0 {
        Map::empty()
    } else {
        collected(pairs, (count - 1) as nat).insert(pairs[count - 1].0@, pairs[count - 1].1)
    }
}

/// One named value.
#[derive(Debug, PartialEq, Eq)]
struct Entry<V> {
    name: String,
    value: V,
}

spec fn entry_names<V>(entries: Seq<Entry<V>>) -> Seq<Seq<char>> {
    Seq::new(entries.len(), |i: int| entries[i].name@)
}

spec fn entry_values<V>(entries: Seq<Entry<V>>) -> Seq<V> {
    Seq::new(entries.len(), |i: int| entries[i].value)
}

/// Named values, held in ascending order of their names; no name occurs twice.
#[derive(Debug, PartialEq, Eq)]
pub struct NameMap<V> {
    entries: Vec<Entry<V>>,
}

impl<V> View for NameMap<V> {
    type V = Map<Seq<char>, V>;

    /// The value that each name stands for.
    open spec fn view(&self) -> Map<Seq<char>, V> {
        pairing(self.names(), self.values())
    }
}

impl<V: Clone> Clone for NameMap<V> {
    /// A copy under the same names. Each value is whatever its own `clone`
    /// makes of it.
    fn clone(&self) -> (copy: Self)
        ensures
            copy.names() == self.names(),
            copy@.dom() == self@.dom(),
            forall|i: int|
                0 <= i < self.values().len() ==> cloned(
                    #[trigger] self.values()[i],
                    copy.values()[i],
                ),
    {
        proof {
            use_type_invariant(self);
        }
        let n: usize = self.entries.len();
        let mut entries: Vec<Entry<V>> = Vec::new();
        let mut i: usize = 0;
        while i < n
            invariant
                i <= n,
                n == self.entries@.len(),
                entries@.len() == i,
                forall|j: int| 0 <= j < i ==> entries@[j].name@ == self.entries@[j].name@,
                forall|j: int|
                    0 <= j < i ==> cloned(#[trigger] self.entries@[j].value, entries@[j].value),
            decreases n - i,
        {
            let entry: &Entry<V> = &self.entries[i];
            entries.push(Entry { name: entry.name.clone(), value: entry.value.clone() });
            i = i + 1;
        }
        proof {
            assert(entry_names(entries@) =~= entry_names(self.entries@));
        }
        let copy = NameMap { entries };
        assert(copy@.dom() =~= self@.dom());
        copy
    }
}

impl<V> NameMap<V> {
    /// The names in the order in which a walk visits them.
    pub closed spec fn names(&self) -> Seq<Seq<char>> {
        entry_names(self.entries@)
    }

    /// The values, in the order of their names.
    pub closed spec fn values(&self) -> Seq<V> {
        entry_values(self.entries@)
    }

    /// Every map that executable code can hold is in ascending name order.
    #[verifier::type_invariant]
    pub closed spec fn ordered(&self) -> bool {
        ascending(entry_names(self.entries@))
    }

    /// What `ordered` means in terms of the public model: the names are a
    /// listing of the view's domain, and each is paired with its value.
    pub proof fn lemma_ordered(&self)
        requires
            self.ordered(),
        ensures
            self.names().len() == self.values().len(),
            is_listing(self.names(), self@.dom()),
            self.names() == listing_of(self@.dom()),
            forall|i: int|
                0 <= i < self.names().len() ==> self@[#[trigger] self.names()[i]]
                    == self.values()[i],
    {
        lemma_listing_of(self.names(), self@.dom());
        assert forall|i: int| 0 <= i < self.names().len() implies self@[#[trigger] self.names()[i]]
            == self.values()[i] by {
            lemma_pairing_at(self.names(), self.values(), i);
        }
    }

    /// A map with no entries.
    pub fn new() -> (m: Self)
        ensures
            m@ == Map::<Seq<char>, V>::empty(),
            m.names() == Seq::<Seq<char>>::empty(),
    {
        let m = NameMap { entries: Vec::new() };
        assert(m.names() =~= Seq::<Seq<char>>::empty());
        assert(m@ =~= Map::<Seq<char>, V>::empty());
        m
    }

    /// The map of the given pairs. Where a name occurs more than once, the
    /// last pair that has it stays.
    pub fn from_pairs(pairs: Vec<(String, V)>) -> (m: Self)
        ensures
            m@ == collected(pairs@, pairs@.len()),
    {
        let mut m: NameMap<V> = NameMap::new();
        let ghost all = pairs@;
        for pair in it: pairs.into_iter()
            invariant
                it.seq() == all,
                m@ == collected(all, it.index() as nat),
        {
            let (name, value) = pair;
            m.insert(name, value);
        }
        m
    }

    /// The number of entries.
    pub fn len(&self) -> (n: usize)
        ensures
            n == self.names().len(),
            n == listing_of(self@.dom()).len(),
    {
        proof {
            use_type_invariant(self);
            self.lemma_ordered();
        }
        self.entries.len()
    }

    /// The name of the entry at position `i` of a walk.
    pub fn name_at(&self, i: usize) -> (name: &str)
        requires
            i < self.names().len(),
        ensures
            name@ == self.names()[i as int],
            name@ == listing_of(self@.dom())[i as int],
            self@.contains_key(name@),
    {
        proof {
            use_type_invariant(self);
            self.lemma_ordered();
            lemma_pairing_at(self.names(), self.values(), i as int);
        }
        self.entries[i].name.as_str()
    }

    /// The value of the entry at position `i` of a walk.
    pub fn value_at(&self, i: usize) -> (value: &V)
        requires
            i < self.names().len(),
        ensures
            *value == self.values()[i as int],
            *value == self@[self.names()[i as int]],
            *value == self@[listing_of(self@.dom())[i as int]],
    {
        proof {
            use_type_invariant(self);
            self.lemma_ordered();
            lemma_pairing_at(self.names(), self.values(), i as int);
        }
        &self.entries[i].value
    }

    /// The names in walking order, borrowed from the map.
    pub fn names_borrowed<'a>(&'a self) -> (list: Vec<&'a str>)
        ensures
            is_listing(listing_of(self@.dom()), self@.dom()),
            list@.len() == listing_of(self@.dom()).len(),
            forall|i: int| 0 <= i < list@.len() ==> list@[i]@ == listing_of(self@.dom())[i],
    {
        proof {
            use_type_invariant(self);
            self.lemma_ordered();
        }
        let n: usize = self.len();
        let mut list: Vec<&'a str> = Vec::new();
        let mut i: usize = 0;
        while i < n
            invariant
                i <= n,
                n == self.names().len(),
                list@.len() == i,
                forall|j: int| 0 <= j < i ==> list@[j]@ == listing_of(self@.dom())[j],
            decreases n - i,
        {
            list.push(self.name_at(i));
            i = i + 1;
        }
        list
    }

    /// The names in walking order, each copied into a string of its own.
    pub fn names_owned(&self) -> (list: Vec<String>)
        ensures
            is_listing(listing_of(self@.dom()), self@.dom()),
            list@.len() == listing_of(self@.dom()).len(),
            forall|i: int| 0 <= i < list@.len() ==> list@[i]@ == listing_of(self@.dom())[i],
    {
        proof {
            use_type_invariant(self);
            self.lemma_ordered();
        }
        let n: usize = self.len();
        let mut list: Vec<String> = Vec::new();
        let mut i: usize = 0;
        while i < n
            invariant
                i <= n,
                n == self.names().len(),
                list@.len() == i,
                forall|j: int| 0 <= j < i ==> list@[j]@ == listing_of(self@.dom())[j],
            decreases n - i,
        {
            list.push(String::from_str(self.name_at(i)));
            i = i + 1;
        }
        list
    }

    /// Binary search: the position of `name`, or the position at which the order
    /// would have it.
    fn locate(&self, name: &str) -> (r: (usize, bool))
        ensures
            self.ordered(),
            r.0 <= self.names().len(),
            forall|i: int| 0 <= i < r.0 ==> name_lt(#[trigger] self.names()[i], name@),
            r.1 ==> r.0 < self.names().len() && self.names()[r.0 as int] == name@,
            !r.1 ==> forall|i: int|
                r.0 <= i < self.names().len() ==> name_lt(name@, #[trigger] self.names()[i]),
            r.1 == self@.contains_key(name@),
    {
        proof {
            use_type_invariant(self);
        }
        let mut lo: usize = 0;
        let mut hi: usize = self.entries.len();
        while lo < hi
            invariant
                lo <= hi <= self.names().len(),
                self.names().len() == self.entries@.len(),
                ascending(self.names()),
                forall|i: int| 0 <= i < lo ==> name_lt(#[trigger] self.names()[i], name@),
                forall|i: int|
                    hi <= i < self.names().len() ==> name_lt(name@, #[trigger] self.names()[i]),
            decreases hi - lo,
        {
            let mid: usize = lo + (hi - lo) / 2;
            let here: &str = self.entries[mid].name.as_str();
            assert(here@ == self.names()[mid as int]);
            match name_order(here, name) {
                NameOrder::Same => {
                    proof {
                        assert(self.names().contains(name@));
                    }
                    return (mid, true);
                },
                NameOrder::Before => {
                    proof {
                        assert forall|i: int| 0 <= i < mid + 1 implies name_lt(
                            #[trigger] self.names()[i],
                            name@,
                        ) by {
                            if i < mid {
                                lemma_name_lt_transitive(
                                    self.names()[i],
                                    self.names()[mid as int],
                                    name@,
                                );
                            }
                        }
                    }
                    lo = mid + 1;
                },
                NameOrder::After => {
                    proof {
                        assert forall|i: int| mid <= i < self.names().len() implies name_lt(
                            name@,
                            #[trigger] self.names()[i],
                        ) by {
                            if mid < i {
                                lemma_name_lt_transitive(
                                    name@,
                                    self.names()[mid as int],
                                    self.names()[i],
                                );
                            }
                        }
                    }
                    hi = mid;
                },
            }
        }
        proof {
            if self.names().contains(name@) {
                let j = choose|j: int| 0 <= j < self.names().len() && self.names()[j] == name@;
                lemma_name_lt_irreflexive(name@);
            }
        }
        (lo, false)
    }

    /// Whether an entry goes by `name`.
    pub fn contains_key(&self, name: &str) -> (found: bool)
        ensures
            found == self@.contains_key(name@),
    {
        self.locate(name).1
    }

    /// The value that `name` stands for, if any.
    pub fn get(&self, name: &str) -> (value: Option<&V>)
        ensures
            value is Some <==> self@.contains_key(name@),
            value matches Some(v) ==> *v == self@[name@],
    {
        let (at, found) = self.locate(name);
        if found {
            proof {
                lemma_pairing_at(self.names(), self.values(), at as int);
            }
            Some(&self.entries[at].value)
        } else {
            None
        }
    }

    /// Binds `name` to `value`, and hands back the value it was bound to before.
    pub fn insert(&mut self, name: String, value: V) -> (previous: Option<V>)
        ensures
            final(self)@ == old(self)@.insert(name@, value),
            previous == if old(self)@.contains_key(name@) {
                Some(old(self)@[name@])
            } else {
                None::<V>
            },
    {
        let (at, found) = self.locate(name.as_str());
        let ghost names0 = self.names();
        let ghost values0 = self.values();
        let mut entries: Vec<Entry<V>> = Vec::new();
        std::mem::swap(&mut entries, &mut self.entries);
        let previous = if found {
            let entry = entries.remove(at);
            proof {
                lemma_pairing_at(names0, values0, at as int);
                lemma_pairing_remove(names0, values0, at as int);
                assert(entry_names(entries@) =~= names0.remove(at as int));
                assert(entry_values(entries@) =~= values0.remove(at as int));
            }
            Some(entry.value)
        } else {
            None
        };
        let ghost names1 = entry_names(entries@);
        let ghost values1 = entry_values(entries@);
        proof {
            assert forall|i: int| 0 <= i < at implies name_lt(#[trigger] names1[i], name@) by {
                assert(names1[i] == names0[i]);
            }
            assert forall|i: int| at <= i < names1.len() implies name_lt(
                name@,
                #[trigger] names1[i],
            ) by {
                if found {
                    assert(names1[i] == names0[i + 1]);
                    assert(name_lt(names0[at as int], names0[i + 1]));
                } else {
                    assert(names1[i] == names0[i]);
                }
            }
            lemma_pairing_insert(names1, values1, at as int, name@, value);
        }
        entries.insert(at, Entry { name, value });
        proof {
            assert(entry_names(entries@) =~= names1.insert(at as int, name@));
            assert(entry_values(entries@) =~= values1.insert(at as int, value));
            assert(pairing(names0, values0).remove(name@).insert(name@, value) =~= pairing(
                names0,
                values0,
            ).insert(name@, value));
        }
        self.entries = entries;
        previous
    }

    /// Drops the entry that goes by `name`, and hands back its value.
    pub fn remove(&mut self, name: &str) -> (removed: Option<V>)
        ensures
            final(self)@ == old(self)@.remove(name@),
            removed == if old(self)@.contains_key(name@) {
                Some(old(self)@[name@])
            } else {
                None::<V>
            },
    {
        let (at, found) = self.locate(name);
        if found {
            let ghost names0 = self.names();
            let ghost values0 = self.values();
            let mut entries: Vec<Entry<V>> = Vec::new();
            std::mem::swap(&mut entries, &mut self.entries);
            let entry = entries.remove(at);
            proof {
                lemma_pairing_at(names0, values0, at as int);
                lemma_pairing_remove(names0, values0, at as int);
                assert(entry_names(entries@) =~= names0.remove(at as int));
                assert(entry_values(entries@) =~= values0.remove(at as int));
            }
            self.entries = entries;
            Some(entry.value)
        } else {
            assert(self@.remove(name@) =~= self@);
            None
        }
    }
}

} // verus!
