//! A map from names to values that keeps its entries in the order of their
//! names, as `str`'s `Ord` orders them: byte by byte over the UTF-8 encoding.
use vstd::prelude::*;
use vstd::utf8::*;

verus! {

/// Lexicographic order on byte strings; a proper prefix comes first.
pub open spec fn bytes_less(a: Seq<u8>, b: Seq<u8>) -> bool
    decreases a.len(),
{
    if a.len() == 0 {
        b.len() > 0
    } else if b.len() == 0 {
        false
    } else if a[0] != b[0] {
        a[0] < b[0]
    } else {
        bytes_less(a.drop_first(), b.drop_first())
    }
}

/// The order of names: that of their UTF-8 encodings.
pub open spec fn key_less(a: Seq<char>, b: Seq<char>) -> bool {
    bytes_less(encode_utf8(a), encode_utf8(b))
}

/// The names of `entries` come in strictly increasing order (so no name
/// occurs twice).
pub open spec fn sorted_by_key<Val>(entries: Seq<(Seq<char>, Val)>) -> bool {
    forall|i: int, j: int|
        0 <= i < j < entries.len() ==> key_less(#[trigger] entries[i].0, #[trigger] entries[j].0)
}

/// The value that `entries` holds for `key`: that of the first entry with
/// this name.
pub open spec fn lookup<Val>(entries: Seq<(Seq<char>, Val)>, key: Seq<char>) -> Option<Val>
    decreases entries.len(),
{
    if entries.len() == 0 {
        None
    } else if entries[0].0 == key {
        Some(entries[0].1)
    } else {
        lookup(entries.drop_first(), key)
    }
}

/// No byte string comes before itself.
pub proof fn lemma_bytes_less_irreflexive(a: Seq<u8>)
    ensures
        !bytes_less(a, a),
    decreases a.len(),
{
    if a.len() > 0 {
        lemma_bytes_less_irreflexive(a.drop_first());
    }
}

/// The order on byte strings is transitive.
pub proof fn lemma_bytes_less_transitive(a: Seq<u8>, b: Seq<u8>, c: Seq<u8>)
    requires
        bytes_less(a, b),
        bytes_less(b, c),
    ensures
        bytes_less(a, c),
    decreases a.len(),
{
    if a.len() > 0 && b.len() > 0 && c.len() > 0 && a[0] == b[0] && b[0] == c[0] {
        lemma_bytes_less_transitive(a.drop_first(), b.drop_first(), c.drop_first());
    }
}

/// Of two different byte strings, one comes before the other.
pub proof fn lemma_bytes_less_total(a: Seq<u8>, b: Seq<u8>)
    ensures
        a == b || bytes_less(a, b) || bytes_less(b, a),
    decreases a.len(),
{
    if a.len() > 0 && b.len() > 0 && a[0] == b[0] {
        lemma_bytes_less_total(a.drop_first(), b.drop_first());
        if a.drop_first() == b.drop_first() {
            assert(a =~= seq![a[0]] + a.drop_first());
            assert(b =~= seq![b[0]] + b.drop_first());
        }
    } else if a.len() == 0 && b.len() == 0 {
        assert(a =~= b);
    }
}

/// No byte string comes both before and after another.
pub proof fn lemma_bytes_less_asymmetric(a: Seq<u8>, b: Seq<u8>)
    requires
        bytes_less(a, b),
    ensures
        !bytes_less(b, a),
{
    if bytes_less(b, a) {
        lemma_bytes_less_transitive(a, b, a);
        lemma_bytes_less_irreflexive(a);
    }
}

/// The order on names is a strict total order.
pub proof fn lemma_key_less_strict_total(a: Seq<char>, b: Seq<char>, c: Seq<char>)
    ensures
        !key_less(a, a),
        key_less(a, b) && key_less(b, c) ==> key_less(a, c),
        key_less(a, b) ==> !key_less(b, a),
        a == b || key_less(a, b) || key_less(b, a),
{
    lemma_bytes_less_irreflexive(encode_utf8(a));
    if key_less(a, b) && key_less(b, c) {
        lemma_bytes_less_transitive(encode_utf8(a), encode_utf8(b), encode_utf8(c));
    }
    if key_less(a, b) {
        lemma_bytes_less_asymmetric(encode_utf8(a), encode_utf8(b));
    }
    lemma_bytes_less_total(encode_utf8(a), encode_utf8(b));
    if encode_utf8(a) == encode_utf8(b) {
        encode_utf8_decode_utf8(a);
        encode_utf8_decode_utf8(b);
    }
}

/// In a map whose entry `p` is the first with name `k`, `k` has the value of
/// entry `p`.
pub proof fn lemma_lookup_at<Val>(s: Seq<(Seq<char>, Val)>, k: Seq<char>, p: int)
    requires
        0 <= p < s.len(),
        s[p].0 == k,
        forall|j: int| 0 <= j < p ==> (#[trigger] s[j]).0 != k,
    ensures
        lookup(s, k) == Some(s[p].1),
    decreases p,
{
    if p > 0 {
        let t = s.drop_first();
        assert forall|j: int| 0 <= j < p - 1 implies (#[trigger] t[j]).0 != k by {
            assert(t[j] == s[j + 1]);
        }
        lemma_lookup_at(t, k, p - 1);
    }
}

/// A name that no entry has has no value.
pub proof fn lemma_lookup_absent<Val>(s: Seq<(Seq<char>, Val)>, k: Seq<char>)
    requires
        forall|j: int| 0 <= j < s.len() ==> (#[trigger] s[j]).0 != k,
    ensures
        lookup(s, k) is None,
    decreases s.len(),
{
    if s.len() > 0 {
        let t = s.drop_first();
        assert forall|j: int| 0 <= j < t.len() implies (#[trigger] t[j]).0 != k by {
            assert(t[j] == s[j + 1]);
        }
        lemma_lookup_absent(t, k);
    }
}

/// In a sorted map, the value of a name is that of the entry with this name,
/// and a name that no entry has has none.
pub proof fn lemma_lookup_sorted<Val>(s: Seq<(Seq<char>, Val)>, k: Seq<char>)
    requires
        sorted_by_key(s),
    ensures
        forall|p: int| 0 <= p < s.len() && (#[trigger] s[p]).0 == k ==> lookup(s, k) == Some(s[p].1),
        (forall|p: int| 0 <= p < s.len() ==> (#[trigger] s[p]).0 != k) ==> lookup(s, k) is None,
{
    assert forall|p: int| 0 <= p < s.len() && (#[trigger] s[p]).0 == k implies lookup(s, k) == Some(
        s[p].1,
    ) by {
        assert forall|j: int| 0 <= j < p implies (#[trigger] s[j]).0 != k by {
            assert(key_less(s[j].0, s[p].0));
            lemma_key_less_strict_total(s[j].0, s[j].0, s[j].0);
        }
        lemma_lookup_at(s, k, p);
    }
    if forall|p: int| 0 <= p < s.len() ==> (#[trigger] s[p]).0 != k {
        lemma_lookup_absent(s, k);
    }
}

/// The rest of a sorted map after its first entry is sorted, and gives every
/// other name the value that the whole map gives it.
proof fn lemma_drop_first_lookup<Val>(s: Seq<(Seq<char>, Val)>)
    requires
        sorted_by_key(s),
        s.len() > 0,
    ensures
        sorted_by_key(s.drop_first()),
        lookup(s.drop_first(), s[0].0) is None,
        forall|k: Seq<char>| k != s[0].0 ==> lookup(s.drop_first(), k) == #[trigger] lookup(s, k),
{
    let t = s.drop_first();
    assert forall|i: int, j: int| 0 <= i < j < t.len() implies key_less(
        #[trigger] t[i].0,
        #[trigger] t[j].0,
    ) by {
        assert(t[i] == s[i + 1]);
        assert(t[j] == s[j + 1]);
    }
    assert forall|j: int| 0 <= j < t.len() implies (#[trigger] t[j]).0 != s[0].0 by {
        assert(t[j] == s[j + 1]);
        assert(key_less(s[0].0, s[j + 1].0));
        lemma_key_less_strict_total(s[0].0, s[0].0, s[0].0);
    }
    lemma_lookup_absent(t, s[0].0);
}

/// A sorted map is determined by the values it gives its names: two sorted
/// maps that give every name the same value hold the same entries in the same
/// order.
pub proof fn law_sorted_maps_with_equal_lookups_are_equal<Val>(
    a: Seq<(Seq<char>, Val)>,
    b: Seq<(Seq<char>, Val)>,
)
    requires
        sorted_by_key(a),
        sorted_by_key(b),
        forall|k: Seq<char>| #[trigger] lookup(a, k) == lookup(b, k),
    ensures
        a == b,
    decreases a.len() + b.len(),
{
    if a.len() == 0 && b.len() == 0 {
        assert(a =~= b);
    } else if a.len() == 0 {
        assert(lookup(b, b[0].0) is Some);
        assert(lookup(a, b[0].0) is None);
    } else if b.len() == 0 {
        assert(lookup(a, a[0].0) is Some);
        assert(lookup(b, a[0].0) is None);
    } else {
        lemma_lookup_sorted(a, a[0].0);
        lemma_lookup_sorted(b, a[0].0);
        lemma_lookup_sorted(a, b[0].0);
        lemma_lookup_sorted(b, b[0].0);
        assert(lookup(a, a[0].0) == Some(a[0].1));
        assert(lookup(b, b[0].0) == Some(b[0].1));
        let p = choose|p: int| 0 <= p < b.len() && (#[trigger] b[p]).0 == a[0].0;
        let q = choose|q: int| 0 <= q < a.len() && (#[trigger] a[q]).0 == b[0].0;
        if p > 0 {
            assert(key_less(b[0].0, b[p].0));
            if q > 0 {
                assert(key_less(a[0].0, a[q].0));
                lemma_key_less_strict_total(a[0].0, b[0].0, a[0].0);
            } else {
                lemma_key_less_strict_total(b[0].0, b[0].0, b[0].0);
            }
        }
        assert(a[0] == b[0]);
        lemma_drop_first_lookup(a);
        lemma_drop_first_lookup(b);
        let a2 = a.drop_first();
        let b2 = b.drop_first();
        assert forall|k: Seq<char>| #[trigger] lookup(a2, k) == lookup(b2, k) by {
            if k != a[0].0 {
                assert(lookup(a2, k) == lookup(a, k));
                assert(lookup(b2, k) == lookup(b, k));
            }
        }
        law_sorted_maps_with_equal_lookups_are_equal(a2, b2);
        assert(a =~= seq![a[0]] + a2);
        assert(b =~= seq![b[0]] + b2);
    }
}

/// Byte strings are ordered by their first differing byte: where `a` and
/// `b` agree before index `i` and differ at it, `a` comes first exactly when
/// its byte there is the smaller number.
pub proof fn law_bytes_order_at_first_difference(a: Seq<u8>, b: Seq<u8>, i: int)
    requires
        0 <= i < a.len(),
        i < b.len(),
        forall|j: int| 0 <= j < i ==> a[j] == b[j],
        a[i] != b[i],
    ensures
        bytes_less(a, b) == (a[i] < b[i]),
    decreases i,
{
    if i > 0 {
        assert(a[0] == b[0]);
        law_bytes_order_at_first_difference(a.drop_first(), b.drop_first(), i - 1);
    }
}

/// A proper prefix comes before the longer byte string.
pub proof fn law_proper_prefix_comes_first(a: Seq<u8>, b: Seq<u8>)
    requires
        a.len() < b.len(),
        forall|j: int| 0 <= j < a.len() ==> a[j] == b[j],
    ensures
        bytes_less(a, b),
        !bytes_less(b, a),
    decreases a.len(),
{
    if a.len() > 0 {
        assert(a[0] == b[0]);
        law_proper_prefix_comes_first(a.drop_first(), b.drop_first());
    }
}

/// A name of ASCII characters is encoded one byte per character, each byte
/// the character's code.
proof fn lemma_ascii_encoding(a: Seq<char>)
    requires
        forall|j: int| 0 <= j < a.len() ==> (a[j] as u32) < 0x80,
    ensures
        encode_utf8(a).len() == a.len(),
        forall|j: int| 0 <= j < a.len() ==> encode_utf8(a)[j] as u32 == a[j] as u32,
    decreases a.len(),
{
    if a.len() > 0 {
        let v = a[0] as u32;
        assert(v < 0x80);
        assert((v & 0x7F) == v) by (bit_vector)
            requires
                v < 0x80,
        ;
        lemma_ascii_encoding(a.drop_first());
        let e = encode_utf8(a);
        assert(e =~= seq![leading_byte_width_1(v)] + encode_utf8(a.drop_first()));
        assert forall|j: int| 0 <= j < a.len() implies e[j] as u32 == a[j] as u32 by {
            if j > 0 {
                assert(e[j] == encode_utf8(a.drop_first())[j - 1]);
                assert(a.drop_first()[j - 1] == a[j]);
            }
        }
    }
}

/// Names of ASCII characters are ordered by their first differing character:
/// where `a` and `b` agree before index `i` and differ at it, `a` comes first
/// exactly when its character there has the smaller code (so `"node1"` comes
/// before `"node2"`).
pub proof fn law_ascii_names_order_by_first_difference(a: Seq<char>, b: Seq<char>, i: int)
    requires
        forall|j: int| 0 <= j < a.len() ==> (a[j] as u32) < 0x80,
        forall|j: int| 0 <= j < b.len() ==> (b[j] as u32) < 0x80,
        0 <= i < a.len(),
        i < b.len(),
        forall|j: int| 0 <= j < i ==> a[j] == b[j],
        a[i] != b[i],
    ensures
        key_less(a, b) == ((a[i] as u32) < (b[i] as u32)),
{
    lemma_ascii_encoding(a);
    lemma_ascii_encoding(b);
    let ea = encode_utf8(a);
    let eb = encode_utf8(b);
    assert forall|j: int| 0 <= j < i implies ea[j] == eb[j] by {
        assert(ea[j] as u32 == a[j] as u32);
        assert(eb[j] as u32 == b[j] as u32);
        assert(a[j] == b[j]);
    }
    assert(ea[i] as u32 == a[i] as u32);
    assert(eb[i] as u32 == b[i] as u32);
    assert(ea[i] != eb[i]) by {
        char_u32_cast(a[i], a[i] as u32);
        char_u32_cast(b[i], b[i] as u32);
    }
    law_bytes_order_at_first_difference(ea, eb, i);
}

/// Of two single ASCII characters as names, the one with the smaller code
/// comes first.
pub proof fn law_ascii_characters_order_by_code(x: char, y: char)
    requires
        (x as u32) < 0x80,
        (y as u32) < 0x80,
    ensures
        key_less(seq![x], seq![y]) == ((x as u32) < (y as u32)),
{
    if x == y {
        lemma_bytes_less_irreflexive(encode_utf8(seq![x]));
    } else {
        law_ascii_names_order_by_first_difference(seq![x], seq![y], 0);
    }
}

/// How two names compare.
#[derive(Clone, Copy, Debug, PartialEq, Eq, Structural)]
pub enum KeyOrder {
    Less,
    Equal,
    Greater,
}

proof fn lemma_bytes_less_skip(a: Seq<u8>, b: Seq<u8>, i: int)
    requires
        0 <= i < a.len(),
        i < b.len(),
        a[i] == b[i],
    ensures
        bytes_less(a.skip(i), b.skip(i)) == bytes_less(a.skip(i + 1), b.skip(i + 1)),
{
    assert(a.skip(i).drop_first() =~= a.skip(i + 1));
    assert(b.skip(i).drop_first() =~= b.skip(i + 1));
}

/// Compares two byte strings in lexicographic order.
fn compare_bytes(a: &[u8], b: &[u8]) -> (r: KeyOrder)
    ensures
        (r == KeyOrder::Less) == bytes_less(a@, b@),
        (r == KeyOrder::Equal) == (a@ == b@),
        (r == KeyOrder::Greater) == bytes_less(b@, a@),
{
    let na = a.len();
    let nb = b.len();
    let mut i: usize = 0;
    assert(a@.skip(0) =~= a@);
    assert(b@.skip(0) =~= b@);
    while i < na && i < nb && a[i] == b[i]
        invariant
            i <= na,
            i <= nb,
            na == a@.len(),
            nb == b@.len(),
            forall|j: int| 0 <= j < i ==> a@[j] == b@[j],
            bytes_less(a@, b@) == bytes_less(a@.skip(i as int), b@.skip(i as int)),
            bytes_less(b@, a@) == bytes_less(b@.skip(i as int), a@.skip(i as int)),
        decreases na - i,
    {
        proof {
            lemma_bytes_less_skip(a@, b@, i as int);
            lemma_bytes_less_skip(b@, a@, i as int);
        }
        i = i + 1;
    }
    proof {
        lemma_bytes_less_irreflexive(a@);
        lemma_bytes_less_total(a@, b@);
        if bytes_less(a@, b@) {
            lemma_bytes_less_asymmetric(a@, b@);
        }
    }
    if i < na && i < nb {
        assert(a@.skip(i as int)[0] == a@[i as int]);
        assert(b@.skip(i as int)[0] == b@[i as int]);
        if a[i] < b[i] {
            KeyOrder::Less
        } else {
            KeyOrder::Greater
        }
    } else if i < nb {
        KeyOrder::Less
    } else if i < na {
        KeyOrder::Greater
    } else {
        assert(a@ =~= b@);
        KeyOrder::Equal
    }
}

/// Compares two names as `str`'s `Ord` does.
pub fn compare_names(a: &str, b: &str) -> (r: KeyOrder)
    ensures
        (r == KeyOrder::Less) == key_less(a@, b@),
        (r == KeyOrder::Equal) == (a@ == b@),
        (r == KeyOrder::Greater) == key_less(b@, a@),
{
    let r = compare_bytes(a.as_bytes(), b.as_bytes());
    proof {
        encode_utf8_decode_utf8(a@);
        encode_utf8_decode_utf8(b@);
    }
    r
}

/// A type whose values name map entries.
pub trait MapKey {
    /// The characters of the name.
    spec fn key_view(&self) -> Seq<char>;

    /// The name as a string slice.
    fn key_text(&self) -> (r: &str)
        ensures
            r@ == self.key_view(),
    ;
}

impl MapKey for String {
    open spec fn key_view(&self) -> Seq<char> {
        self@
    }

    fn key_text(&self) -> (r: &str) {
        self.as_str()
    }
}

impl<'a> MapKey for &'a str {
    open spec fn key_view(&self) -> Seq<char> {
        (*self)@
    }

    fn key_text(&self) -> (r: &str) {
        *self
    }
}

/// The names and values of `entries`.
pub open spec fn entry_views<K: MapKey, Val>(entries: Seq<(K, Val)>) -> Seq<(Seq<char>, Val)> {
    entries.map_values(|e: (K, Val)| (e.0.key_view(), e.1))
}

/// A map from names to values, its entries kept in increasing order of the
/// names, each name at most once.
pub struct NameMap<K: MapKey, Val> {
    entries: Vec<(K, Val)>,
}

impl<K: MapKey, Val> View for NameMap<K, Val> {
    type V = Seq<(Seq<char>, Val)>;

    closed spec fn view(&self) -> Seq<(Seq<char>, Val)> {
        entry_views(self.entries@)
    }
}

impl<K: MapKey, Val> NameMap<K, Val> {
    #[verifier::type_invariant]
    closed spec fn well_ordered(self) -> bool {
        sorted_by_key(entry_views(self.entries@))
    }

    /// An empty map.
    pub fn new() -> (m: Self)
        ensures
            m@ == Seq::<(Seq<char>, Val)>::empty(),
    {
        let m = NameMap { entries: Vec::new() };
        assert(entry_views(m.entries@) =~= Seq::<(Seq<char>, Val)>::empty());
        m
    }

    /// The number of entries. (The entries are always in increasing order of
    /// their names.)
    pub fn len(&self) -> (n: usize)
        ensures
            n == self@.len(),
            sorted_by_key(self@),
    {
        proof {
            use_type_invariant(self);
        }
        self.entries.len()
    }

    /// The name of the entry at position `i`.
    pub fn key_at(&self, i: usize) -> (k: &K)
        requires
            i < self@.len(),
        ensures
            k.key_view() == self@[i as int].0,
    {
        &self.entries[i].0
    }

    /// The value of the entry at position `i`.
    pub fn value_at(&self, i: usize) -> (v: &Val)
        requires
            i < self@.len(),
        ensures
            *v == self@[i as int].1,
    {
        &self.entries[i].1
    }

    /// The value for `key`, if there is an entry with this name.
    pub fn get(&self, key: &str) -> (r: Option<&Val>)
        ensures
            match lookup(self@, key@) {
                Some(v) => r matches Some(x) && *x == v,
                None => r is None,
            },
    {
        let n = self.entries.len();
        let mut i: usize = 0;
        assert(self@.skip(0) =~= self@);
        while i < n
            invariant
                i <= n,
                n == self@.len(),
                lookup(self@, key@) == lookup(self@.skip(i as int), key@),
            decreases n - i,
        {
            assert(self@.skip(i as int)[0] == self@[i as int]);
            assert(self@.skip(i as int).drop_first() =~= self@.skip(i + 1));
            if compare_names(self.entries[i].0.key_text(), key) == KeyOrder::Equal {
                return Some(&self.entries[i].1);
            }
            i = i + 1;
        }
        None
    }

    /// Appends an entry whose name comes after every name in the map.
    pub fn push_last(&mut self, key: K, value: Val)
        requires
            old(self)@.len() > 0 ==> key_less(old(self)@.last().0, key.key_view()),
        ensures
            final(self)@ == old(self)@.push((key.key_view(), value)),
    {
        proof {
            use_type_invariant(&*self);
        }
        let ghost old_view = self@;
        let ghost k = key.key_view();
        let mut entries = Vec::new();
        std::mem::swap(&mut entries, &mut self.entries);
        entries.push((key, value));
        assert(entry_views(entries@) =~= old_view.push((k, value)));
        assert(sorted_by_key(entry_views(entries@))) by {
            let s = entry_views(entries@);
            assert forall|i: int, j: int| 0 <= i < j < s.len() implies key_less(
                #[trigger] s[i].0,
                #[trigger] s[j].0,
            ) by {
                if j == s.len() - 1 && i < j {
                    if i < old_view.len() - 1 {
                        lemma_key_less_strict_total(s[i].0, old_view.last().0, k);
                        assert(key_less(old_view[i].0, old_view[old_view.len() - 1].0));
                    }
                } else {
                    assert(s[i] == old_view[i]);
                    assert(s[j] == old_view[j]);
                }
            }
        }
        self.entries = entries;
    }

    /// Sets the value of `key`: the entry with this name gets `value`, or a
    /// new entry takes its place in the order. Returns the value replaced.
    pub fn insert(&mut self, key: K, value: Val) -> (replaced: Option<Val>)
        ensures
            replaced == lookup(old(self)@, key.key_view()),
            lookup(final(self)@, key.key_view()) == Some(value),
            forall|k: Seq<char>| k != key.key_view() ==> lookup(final(self)@, k) == lookup(old(self)@, k),
            final(self)@.len() == old(self)@.len() + (if replaced is Some { 0int } else { 1int }),
            sorted_by_key(final(self)@),
    {
        proof {
            use_type_invariant(&*self);
        }
        let ghost old_view = self@;
        let ghost k = key.key_view();
        let mut entries = Vec::new();
        std::mem::swap(&mut entries, &mut self.entries);
        assert(entry_views(entries@) == old_view);
        let n = entries.len();
        let mut i: usize = 0;
        while i < n && compare_names(entries[i].0.key_text(), key.key_text()) == KeyOrder::Less
            invariant
                i <= n,
                n == entries@.len(),
                entry_views(entries@) == old_view,
                k == key.key_view(),
                forall|j: int| 0 <= j < i ==> key_less((#[trigger] old_view[j]).0, k),
            decreases n - i,
        {
            i = i + 1;
        }
        proof {
            lemma_lookup_sorted(old_view, k);
        }
        if i < n && compare_names(entries[i].0.key_text(), key.key_text()) == KeyOrder::Equal {
            assert(old_view[i as int].0 == k);
            assert(old_view[i as int].1 == entries@[i as int].1);
            let (_, previous) = entries.remove(i);
            assert(previous == old_view[i as int].1);
            entries.insert(i, (key, value));
            let ghost new_view = entry_views(entries@);
            assert(new_view =~= old_view.update(i as int, (k, value)));
            assert(sorted_by_key(new_view)) by {
                assert forall|a: int, b: int| 0 <= a < b < new_view.len() implies key_less(
                    #[trigger] new_view[a].0,
                    #[trigger] new_view[b].0,
                ) by {
                    assert(new_view[a].0 == old_view[a].0);
                    assert(new_view[b].0 == old_view[b].0);
                }
            }
            proof {
                lemma_lookup_sorted(new_view, k);
                assert(new_view[i as int].0 == k);
                assert forall|k2: Seq<char>| k2 != k implies lookup(new_view, k2) == lookup(
                    old_view,
                    k2,
                ) by {
                    lemma_lookup_sorted(new_view, k2);
                    lemma_lookup_sorted(old_view, k2);
                    if exists|p: int| 0 <= p < old_view.len() && (#[trigger] old_view[p]).0 == k2 {
                        let p = choose|p: int| 0 <= p < old_view.len() && (#[trigger] old_view[p]).0 == k2;
                        assert(new_view[p] == old_view[p]);
                    } else {
                        assert forall|p: int| 0 <= p < new_view.len() implies (#[trigger] new_view[p]).0
                            != k2 by {
                            if p != i {
                                assert(new_view[p] == old_view[p]);
                            }
                        }
                    }
                }
            }
            self.entries = entries;
            Some(previous)
        } else {
            proof {
                if i < n {
                    lemma_key_less_strict_total(k, old_view[i as int].0, k);
                }
            }
            entries.insert(i, (key, value));
            let ghost new_view = entry_views(entries@);
            assert(new_view =~= old_view.insert(i as int, (k, value)));
            assert(sorted_by_key(new_view)) by {
                assert forall|a: int, b: int| 0 <= a < b < new_view.len() implies key_less(
                    #[trigger] new_view[a].0,
                    #[trigger] new_view[b].0,
                ) by {
                    if a < i && b < i {
                        assert(new_view[a] == old_view[a]);
                        assert(new_view[b] == old_view[b]);
                    } else if a < i && b == i {
                        assert(new_view[a] == old_view[a]);
                    } else if a < i && b > i {
                        assert(new_view[a] == old_view[a]);
                        assert(new_view[b] == old_view[b - 1]);
                        lemma_key_less_strict_total(old_view[a].0, k, old_view[b - 1].0);
                        if b - 1 > i {
                            assert(key_less(old_view[i as int].0, old_view[b - 1].0));
                            lemma_key_less_strict_total(k, old_view[i as int].0, old_view[b - 1].0);
                        }
                    } else if a == i {
                        assert(new_view[b] == old_view[b - 1]);
                        if b - 1 > i {
                            assert(key_less(old_view[i as int].0, old_view[b - 1].0));
                            lemma_key_less_strict_total(k, old_view[i as int].0, old_view[b - 1].0);
                        }
                    } else {
                        assert(new_view[a] == old_view[a - 1]);
                        assert(new_view[b] == old_view[b - 1]);
                    }
                }
            }
            proof {
                assert forall|p: int| 0 <= p < old_view.len() implies (#[trigger] old_view[p]).0 != k by {
                    if p < i {
                        lemma_key_less_strict_total(old_view[p].0, k, k);
                    } else {
                        if p > i {
                            assert(key_less(old_view[i as int].0, old_view[p].0));
                            lemma_key_less_strict_total(k, old_view[i as int].0, old_view[p].0);
                        }
                        lemma_key_less_strict_total(k, old_view[p].0, k);
                    }
                }
                lemma_lookup_sorted(new_view, k);
                assert(new_view[i as int].0 == k);
                assert forall|k2: Seq<char>| k2 != k implies lookup(new_view, k2) == lookup(
                    old_view,
                    k2,
                ) by {
                    lemma_lookup_sorted(new_view, k2);
                    lemma_lookup_sorted(old_view, k2);
                    if exists|p: int| 0 <= p < old_view.len() && (#[trigger] old_view[p]).0 == k2 {
                        let p = choose|p: int| 0 <= p < old_view.len() && (#[trigger] old_view[p]).0 == k2;
                        if p < i {
                            assert(new_view[p] == old_view[p]);
                        } else {
                            assert(new_view[p + 1] == old_view[p]);
                        }
                    } else {
                        assert forall|p: int| 0 <= p < new_view.len() implies (#[trigger] new_view[p]).0
                            != k2 by {
                            if p < i {
                                assert(new_view[p] == old_view[p]);
                            } else if p > i {
                                assert(new_view[p] == old_view[p - 1]);
                            }
                        }
                    }
                }
            }
            self.entries = entries;
            None
        }
    }
}

} // verus!
