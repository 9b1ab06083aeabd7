//! A persistent key-value table keyed by text, kept in ascending byte order
//! of its keys so that a full listing always comes out in the same order.

use vstd::prelude::*;
use vstd::utf8::*;

verus! {

/// How one key stands to another in the table's order.
#[derive(Clone, Copy, Debug, PartialEq, Eq, Structural)]
pub enum KeyOrder {
    Before,
    Same,
    After,
}

/// Lexicographic order on byte strings: a proper prefix comes first, and
/// otherwise the first differing byte decides.
pub open spec fn bytes_before(a: Seq<u8>, b: Seq<u8>) -> bool
    decreases a.len(),
{
    if b.len() == 0 {
        false
    } else if a.len() == 0 {
        true
    } else if a[0] != b[0] {
        a[0] < b[0]
    } else {
        bytes_before(a.drop_first(), b.drop_first())
    }
}

/// The table's order on keys: the byte order of their UTF-8 encodings.
pub open spec fn key_before(a: Seq<char>, b: Seq<char>) -> bool {
    bytes_before(encode_utf8(a), encode_utf8(b))
}

/// No byte string comes before itself.
pub proof fn lemma_bytes_before_irreflexive(a: Seq<u8>)
    ensures
        !bytes_before(a, a),
    decreases a.len(),
{
    if a.len() > 0 {
        lemma_bytes_before_irreflexive(a.drop_first());
    }
}

/// What comes before something that comes before a third comes before the
/// third.
pub proof fn lemma_bytes_before_transitive(a: Seq<u8>, b: Seq<u8>, c: Seq<u8>)
    requires
        bytes_before(a, b),
        bytes_before(b, c),
    ensures
        bytes_before(a, c),
    decreases a.len(),
{
    if a.len() > 0 && b.len() > 0 && c.len() > 0 && a[0] == b[0] && b[0] == c[0] {
        lemma_bytes_before_transitive(a.drop_first(), b.drop_first(), c.drop_first());
    }
}

/// Of two different byte strings one comes before the other.
pub proof fn lemma_bytes_before_total(a: Seq<u8>, b: Seq<u8>)
    ensures
        a == b || bytes_before(a, b) || bytes_before(b, a),
    decreases a.len(),
{
    if a.len() > 0 && b.len() > 0 && a[0] == b[0] {
        lemma_bytes_before_total(a.drop_first(), b.drop_first());
        if a.drop_first() == b.drop_first() {
            assert(a =~= seq![a[0]] + a.drop_first());
            assert(b =~= seq![b[0]] + b.drop_first());
        }
    } else if a.len() == 0 && b.len() == 0 {
        assert(a =~= b);
    }
}

/// Two keys with the same encoding are the same key.
pub proof fn lemma_encoding_injective(a: Seq<char>, b: Seq<char>)
    requires
        encode_utf8(a) == encode_utf8(b),
    ensures
        a == b,
{
    encode_utf8_decode_utf8(a);
    encode_utf8_decode_utf8(b);
}

/// The order on keys is a strict total order.
pub proof fn lemma_key_order(a: Seq<char>, b: Seq<char>, c: Seq<char>)
    ensures
        !key_before(a, a),
        key_before(a, b) && key_before(b, c) ==> key_before(a, c),
        a == b || key_before(a, b) || key_before(b, a),
        !(key_before(a, b) && key_before(b, a)),
{
    lemma_bytes_before_irreflexive(encode_utf8(a));
    if key_before(a, b) && key_before(b, c) {
        lemma_bytes_before_transitive(encode_utf8(a), encode_utf8(b), encode_utf8(c));
    }
    lemma_bytes_before_total(encode_utf8(a), encode_utf8(b));
    if encode_utf8(a) == encode_utf8(b) {
        lemma_encoding_injective(a, b);
    }
    if key_before(a, b) && key_before(b, a) {
        lemma_bytes_before_transitive(encode_utf8(a), encode_utf8(b), encode_utf8(a));
    }
}

/// Compares two keys in the table's order.
pub fn key_order(a: &str, b: &str) -> (r: KeyOrder)
    ensures
        r is Before <==> key_before(a@, b@),
        r is Same <==> a@ == b@,
        r is After <==> key_before(b@, a@),
{
    let x = a.as_bytes();
    let y = b.as_bytes();
    proof {
        lemma_key_order(a@, b@, a@);
        assert(x@.skip(0) =~= x@);
        assert(y@.skip(0) =~= y@);
    }
    let mut i: usize = 0;
    while i < x.len() && i < y.len()
        invariant
            i <= x.len(),
            i <= y.len(),
            x@ == encode_utf8(a@),
            y@ == encode_utf8(b@),
            bytes_before(x@, y@) == bytes_before(x@.skip(i as int), y@.skip(i as int)),
            bytes_before(y@, x@) == bytes_before(y@.skip(i as int), x@.skip(i as int)),
            (x@ == y@) == (x@.skip(i as int) == y@.skip(i as int)),
        decreases x.len() - i,
    {
        let ghost xs = x@.skip(i as int);
        let ghost ys = y@.skip(i as int);
        proof {
            assert(xs.drop_first() =~= x@.skip(i + 1));
            assert(ys.drop_first() =~= y@.skip(i + 1));
            assert(xs[0] == x@[i as int]);
            assert(ys[0] == y@[i as int]);
        }
        if x[i] != y[i] {
            proof {
                lemma_key_order(a@, b@, a@);
                if a@ == b@ {
                    assert(x@ == y@);
                }
            }
            if x[i] < y[i] {
                return KeyOrder::Before;
            } else {
                return KeyOrder::After;
            }
        }
        proof {
            if xs.drop_first() == ys.drop_first() {
                assert(xs =~= seq![xs[0]] + xs.drop_first());
                assert(ys =~= seq![ys[0]] + ys.drop_first());
            }
        }
        i += 1;
    }
    proof {
        lemma_key_order(a@, b@, a@);
        let xs = x@.skip(i as int);
        let ys = y@.skip(i as int);
        if x@ == y@ {
            lemma_encoding_injective(a@, b@);
        }
        if xs.len() == 0 && ys.len() == 0 {
            assert(xs =~= ys);
        }
    }
    if i < y.len() {
        KeyOrder::Before
    } else if i < x.len() {
        KeyOrder::After
    } else {
        KeyOrder::Same
    }
}

/// A table from text keys to values. No key occurs twice, and the entries are
/// held in ascending key order.
pub struct Table<V> {
    entries: Vec<(String, V)>,
}

impl<V> Table<V> {
    /// The keys are strictly ascending; in particular no key occurs twice.
    #[verifier::type_invariant]
    pub closed spec fn ordered(&self) -> bool {
        forall|i: int, j: int|
            0 <= i < j < self.entries@.len() ==> key_before(
                #[trigger] self.entries@[i].0@,
                #[trigger] self.entries@[j].0@,
            )
    }
}

impl<V: View> Table<V> {
    /// The entries in the order in which a listing hands them out.
    pub closed spec fn listing(&self) -> Seq<(Seq<char>, V::V)> {
        self.entries@.map(|i: int, e: (String, V)| (e.0@, e.1@))
    }

    /// The table as a mathematical map.
    pub open spec fn map(&self) -> Map<Seq<char>, V::V> {
        listing_map(self.listing())
    }

    /// An empty table.
    pub fn new() -> (t: Self)
        ensures
            t.listing() == Seq::<(Seq<char>, V::V)>::empty(),
            t.map() == Map::<Seq<char>, V::V>::empty(),
    {
        let t = Table { entries: Vec::new() };
        proof {
            assert(t.listing() =~= Seq::<(Seq<char>, V::V)>::empty());
            assert(t.map() =~= Map::<Seq<char>, V::V>::empty());
        }
        t
    }

    /// Number of entries.
    pub fn len(&self) -> (n: usize)
        ensures
            n == self.listing().len(),
    {
        self.entries.len()
    }

    /// The value stored under `key`, if there is one.
    pub fn get(&self, key: &str) -> (r: Option<&V>)
        ensures
            match r {
                Some(v) => self.map().contains_key(key@) && v@ == self.map()[key@],
                None => !self.map().contains_key(key@),
            },
    {
        proof {
            use_type_invariant(self);
        }
        let n = self.entries.len();
        let mut i: usize = 0;
        while i < n
            invariant
                i <= n,
                n == self.entries@.len(),
                self.ordered(),
                forall|j: int| 0 <= j < i ==> self.listing()[j].0 != key@,
            decreases n - i,
        {
            match key_order(self.entries[i].0.as_str(), key) {
                KeyOrder::Same => {
                    proof {
                        lemma_listing_map_index(self.listing(), i as int);
                    }
                    return Some(&self.entries[i].1);
                },
                _ => {},
            }
            i += 1;
        }
        None
    }

    /// Whether `key` has an entry.
    pub fn contains_key(&self, key: &str) -> (b: bool)
        ensures
            b == self.map().contains_key(key@),
    {
        self.get(key).is_some()
    }

    /// Stores `value` under `key`, replacing what was there.
    pub fn insert(&mut self, key: String, value: V)
        ensures
            final(self).map() == old(self).map().insert(key@, value@),
    {
        proof {
            use_type_invariant(&*self);
        }
        let ghost before = self.listing();
        let n = self.entries.len();
        let mut i: usize = 0;
        let mut found = false;
        while i < n
            invariant_except_break
                !found,
            invariant
                i <= n,
                n == self.entries@.len(),
                self.ordered(),
                self.listing() == before,
                forall|j: int| 0 <= j < i ==> key_before(#[trigger] before[j].0, key@),
            ensures
                found ==> i < n && before[i as int].0 == key@,
                !found ==> forall|j: int| i <= j < n ==> key_before(key@, #[trigger] before[j].0),
            decreases n - i,
        {
            match key_order(self.entries[i].0.as_str(), key.as_str()) {
                KeyOrder::Before => {},
                KeyOrder::Same => {
                    found = true;
                    break;
                },
                KeyOrder::After => {
                    proof {
                        assert forall|j: int| i <= j < n implies key_before(
                            key@,
                            #[trigger] before[j].0,
                        ) by {
                            if j > i {
                                assert(key_before(self.entries@[i as int].0@, self.entries@[j].0@));
                                lemma_key_order(key@, before[i as int].0, before[j].0);
                            }
                        }
                    }
                    break;
                },
            }
            i += 1;
        }
        proof {
            assert(ascending(before));
        }
        let mut taken = Table { entries: Vec::new() };
        std::mem::swap(self, &mut taken);
        let mut entries = taken.entries;
        let ghost after;
        if found {
            proof {
                lemma_listing_map_update(before, i as int, value@);
                after = before.update(i as int, (key@, value@));
            }
            entries.set(i, (key, value));
        } else {
            proof {
                lemma_listing_map_insert(before, i as int, key@, value@);
                after = before.insert(i as int, (key@, value@));
            }
            entries.insert(i, (key, value));
        }
        proof {
            assert(entries@.map(|i: int, e: (String, V)| (e.0@, e.1@)) =~= after);
            assert forall|a: int, b: int| 0 <= a < b < entries@.len() implies key_before(
                #[trigger] entries@[a].0@,
                #[trigger] entries@[b].0@,
            ) by {
                assert(key_before(after[a].0, after[b].0));
            }
        }
        *self = Table { entries };
    }
}

impl Table<String> {
    /// Every entry, in ascending order of the keys.
    pub fn pairs(&self) -> (out: Vec<(String, String)>)
        ensures
            out@.len() == self.listing().len(),
            forall|i: int|
                0 <= i < out@.len() ==> (#[trigger] out@[i]).0@ == self.listing()[i].0
                    && out@[i].1@ == self.listing()[i].1,
            ascending(self.listing()),
    {
        proof {
            use_type_invariant(self);
            assert forall|a: int, b: int| 0 <= a < b < self.listing().len() implies key_before(
                #[trigger] self.listing()[a].0,
                #[trigger] self.listing()[b].0,
            ) by {
                assert(key_before(self.entries@[a].0@, self.entries@[b].0@));
            }
        }
        let n = self.entries.len();
        let mut out: Vec<(String, String)> = Vec::new();
        let mut i: usize = 0;
        while i < n
            invariant
                i <= n,
                n == self.entries@.len(),
                out@.len() == i,
                forall|j: int|
                    0 <= j < i ==> (#[trigger] out@[j]).0@ == self.listing()[j].0 && out@[j].1@
                        == self.listing()[j].1,
            decreases n - i,
        {
            out.push((self.entries[i].0.clone(), self.entries[i].1.clone()));
            i += 1;
        }
        out
    }
}

/// In an ascending listing each entry is what the map holds under its key.
pub proof fn lemma_listing_map_index<V>(l: Seq<(Seq<char>, V)>, i: int)
    requires
        ascending(l),
        0 <= i < l.len(),
    ensures
        listing_map(l).contains_key(l[i].0),
        listing_map(l)[l[i].0] == l[i].1,
{
    let k = l[i].0;
    let j = choose|j: int| 0 <= j < l.len() && #[trigger] l[j].0 == k;
    lemma_key_order(k, k, k);
    if j < i {
        assert(key_before(l[j].0, l[i].0));
    } else if i < j {
        assert(key_before(l[i].0, l[j].0));
    }
}

/// Replacing the value of one entry of an ascending listing.
pub proof fn lemma_listing_map_update<V>(l: Seq<(Seq<char>, V)>, i: int, v: V)
    requires
        ascending(l),
        0 <= i < l.len(),
    ensures
        ascending(l.update(i, (l[i].0, v))),
        listing_map(l.update(i, (l[i].0, v))) == listing_map(l).insert(l[i].0, v),
{
    let k = l[i].0;
    let m = l.update(i, (k, v));
    assert forall|a: int, b: int| 0 <= a < b < m.len() implies key_before(
        #[trigger] m[a].0,
        #[trigger] m[b].0,
    ) by {
        assert(key_before(l[a].0, l[b].0));
    }
    assert forall|x: Seq<char>| #[trigger]
        listing_map(m).contains_key(x) == listing_map(l).insert(k, v).contains_key(x) by {
        if listing_map(m).contains_key(x) {
            let j = choose|j: int| 0 <= j < m.len() && #[trigger] m[j].0 == x;
            assert(l[j].0 == x);
        }
        if listing_map(l).contains_key(x) {
            let j = choose|j: int| 0 <= j < l.len() && #[trigger] l[j].0 == x;
            assert(m[j].0 == x);
        }
        if x == k {
            assert(m[i].0 == x);
        }
    }
    assert forall|x: Seq<char>| listing_map(m).contains_key(x) implies #[trigger] listing_map(m)[x]
        == listing_map(l).insert(k, v)[x] by {
        let j = choose|j: int| 0 <= j < m.len() && #[trigger] m[j].0 == x;
        lemma_listing_map_index(m, j);
        if j != i {
            lemma_listing_map_index(l, j);
            lemma_key_order(k, x, k);
            if j < i {
                assert(key_before(l[j].0, l[i].0));
            } else {
                assert(key_before(l[i].0, l[j].0));
            }
        }
    }
    assert(listing_map(m) =~= listing_map(l).insert(k, v));
}

/// Putting a new key into an ascending listing at its place.
pub proof fn lemma_listing_map_insert<V>(l: Seq<(Seq<char>, V)>, i: int, k: Seq<char>, v: V)
    requires
        ascending(l),
        0 <= i <= l.len(),
        forall|j: int| 0 <= j < i ==> key_before(#[trigger] l[j].0, k),
        forall|j: int| i <= j < l.len() ==> key_before(k, #[trigger] l[j].0),
    ensures
        ascending(l.insert(i, (k, v))),
        listing_map(l.insert(i, (k, v))) == listing_map(l).insert(k, v),
{
    let m = l.insert(i, (k, v));
    assert forall|a: int, b: int| 0 <= a < b < m.len() implies key_before(
        #[trigger] m[a].0,
        #[trigger] m[b].0,
    ) by {
        let a0 = if a < i { a } else { a - 1 };
        let b0 = if b < i { b } else { b - 1 };
        if a == i {
            assert(key_before(k, l[b0].0));
        } else if b == i {
            assert(key_before(l[a0].0, k));
        } else {
            assert(key_before(l[a0].0, l[b0].0));
        }
    }
    assert forall|x: Seq<char>| #[trigger]
        listing_map(m).contains_key(x) == listing_map(l).insert(k, v).contains_key(x) by {
        if listing_map(m).contains_key(x) {
            let j = choose|j: int| 0 <= j < m.len() && #[trigger] m[j].0 == x;
            if j < i {
                assert(l[j].0 == x);
            } else if j > i {
                assert(l[j - 1].0 == x);
            }
        }
        if listing_map(l).contains_key(x) {
            let j = choose|j: int| 0 <= j < l.len() && #[trigger] l[j].0 == x;
            if j < i {
                assert(m[j].0 == x);
            } else {
                assert(m[j + 1].0 == x);
            }
        }
        if x == k {
            assert(m[i].0 == x);
        }
    }
    assert forall|x: Seq<char>| listing_map(m).contains_key(x) implies #[trigger] listing_map(m)[x]
        == listing_map(l).insert(k, v)[x] by {
        let j = choose|j: int| 0 <= j < m.len() && #[trigger] m[j].0 == x;
        lemma_listing_map_index(m, j);
        if j < i {
            lemma_listing_map_index(l, j);
            lemma_key_order(x, k, x);
        } else if j > i {
            lemma_listing_map_index(l, j - 1);
            lemma_key_order(x, k, x);
        }
    }
    assert(listing_map(m) =~= listing_map(l).insert(k, v));
}

/// A listing whose keys are strictly ascending.
pub open spec fn ascending<V>(l: Seq<(Seq<char>, V)>) -> bool {
    forall|i: int, j: int|
        0 <= i < j < l.len() ==> key_before(#[trigger] l[i].0, #[trigger] l[j].0)
}

/// The map that a listing stands for: each key that occurs, with the value
/// beside it.
pub open spec fn listing_map<V>(l: Seq<(Seq<char>, V)>) -> Map<Seq<char>, V> {
    Map::new(
        |k: Seq<char>| exists|i: int| 0 <= i < l.len() && #[trigger] l[i].0 == k,
        |k: Seq<char>| l[choose|i: int| 0 <= i < l.len() && #[trigger] l[i].0 == k].1,
    )
}

} // verus!
