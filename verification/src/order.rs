//! The order in which names are listed: strings compare by the bytes of
//! their UTF-8 encoding, as `str` does.

use vstd::prelude::*;
use vstd::utf8::encode_utf8;
use vstd::utf8::encode_utf8_decode_utf8;

verus! {

/// `a` and `b` both have at least `k` bytes and agree on their first `k`.
pub open spec fn common_prefix(a: Seq<u8>, b: Seq<u8>, k: int) -> bool {
    &&& 0 <= k <= a.len()
    &&& k <= b.len()
    &&& forall|i: int| 0 <= i < k ==> a[i] == b[i]
}

/// Lexicographic order on byte strings: where the two first part, `a` has
/// ended or holds the smaller byte.
pub open spec fn bytes_before(a: Seq<u8>, b: Seq<u8>) -> bool {
    exists|k: int| #[trigger] common_prefix(a, b, k) && k < b.len() && (k == a.len() || a[k] < b[k])
}

/// `a` comes strictly before `b` in listings.
pub open spec fn name_before(a: Seq<char>, b: Seq<char>) -> bool {
    bytes_before(encode_utf8(a), encode_utf8(b))
}

/// Every name of `names` comes strictly before each one after it.
pub open spec fn strictly_ascending(names: Seq<Seq<char>>) -> bool {
    forall|i: int, j: int| 0 <= i < j < names.len() ==> name_before(names[i], names[j])
}

proof fn lemma_bytes_irreflexive(a: Seq<u8>)
    ensures
        !bytes_before(a, a),
{
}

proof fn lemma_bytes_transitive(a: Seq<u8>, b: Seq<u8>, c: Seq<u8>)
    requires
        bytes_before(a, b),
        bytes_before(b, c),
    ensures
        bytes_before(a, c),
{
    let k1 = choose|k: int| #[trigger] common_prefix(a, b, k) && k < b.len() && (k == a.len() || a[k] < b[k]);
    let k2 = choose|k: int| #[trigger] common_prefix(b, c, k) && k < c.len() && (k == b.len() || b[k] < c[k]);
    let k = if k1 <= k2 { k1 } else { k2 };
    assert(common_prefix(a, c, k));
}

proof fn lemma_bytes_total_from(a: Seq<u8>, b: Seq<u8>, k: int)
    requires
        common_prefix(a, b, k),
        a != b,
    ensures
        bytes_before(a, b) || bytes_before(b, a),
    decreases a.len() - k,
{
    if k == a.len() {
        if k == b.len() {
            assert(a =~= b);
        }
    } else if k == b.len() {
        assert(common_prefix(b, a, k));
    } else if a[k] != b[k] {
        assert(common_prefix(b, a, k));
    } else {
        assert(common_prefix(a, b, k + 1));
        lemma_bytes_total_from(a, b, k + 1);
    }
}

/// No name comes before itself.
pub proof fn lemma_name_order_irreflexive(a: Seq<char>)
    ensures
        !name_before(a, a),
{
    lemma_bytes_irreflexive(encode_utf8(a));
}

/// What comes before a name also comes before everything after that name.
pub proof fn lemma_name_order_transitive(a: Seq<char>, b: Seq<char>, c: Seq<char>)
    requires
        name_before(a, b),
        name_before(b, c),
    ensures
        name_before(a, c),
{
    lemma_bytes_transitive(encode_utf8(a), encode_utf8(b), encode_utf8(c));
}

/// Of two different names one comes before the other.
pub proof fn lemma_name_order_total(a: Seq<char>, b: Seq<char>)
    requires
        a != b,
    ensures
        name_before(a, b) || name_before(b, a),
{
    encode_utf8_decode_utf8(a);
    encode_utf8_decode_utf8(b);
    assert(common_prefix(encode_utf8(a), encode_utf8(b), 0));
    lemma_bytes_total_from(encode_utf8(a), encode_utf8(b), 0);
}

/// Whether `a` is listed before `b`.
pub fn comes_before(a: &str, b: &str) -> (before: bool)
    ensures
        before == name_before(a@, b@),
{
    let x = a.as_bytes();
    let y = b.as_bytes();
    let mut i: usize = 0;
    while i < x.len() && i < y.len()
        invariant
            common_prefix(x@, y@, i as int),
            x@ == encode_utf8(a@),
            y@ == encode_utf8(b@),
        decreases x.len() - i,
    {
        if x[i] != y[i] {
            return x[i] < y[i];
        }
        i += 1;
    }
    x.len() < y.len()
}

} // verus!
