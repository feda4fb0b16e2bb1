//! The signature does not depend on the order in which the parameters are
//! given: two lists of the same parameters, each key only once, are signed
//! alike.

use vstd::prelude::*;
use vstd::seq_lib::to_multiset_insert;
use vstd::utf8::{encode_utf8, encode_utf8_decode_utf8};
use crate::signer::{
    insert_by_key, is_signed, joined, key_le, lemma_insert_at, lex_le_from, signable, signature,
    signature_base, sorted_by_key, Pairs,
};

verus! {

/// No two parameters have the same key.
pub open spec fn distinct_keys(s: Pairs) -> bool {
    forall|i: int, j: int| 0 <= i < j < s.len() ==> (#[trigger] s[i]).0 != (#[trigger] s[j]).0
}

/// The two lists hold the same parameters.
pub open spec fn same_parameters(a: Pairs, b: Pairs) -> bool {
    forall|x: (Seq<char>, Seq<char>)| a.contains(x) <==> b.contains(x)
}

/// The keys come in order.
pub open spec fn in_key_order(s: Pairs) -> bool {
    forall|i: int, j: int|
        0 <= i < j < s.len() ==> key_le((#[trigger] s[i]).0, (#[trigger] s[j]).0)
}

/// The two lists have the same keys in the same places, and the same values
/// everywhere but at index `i`.
pub open spec fn one_value_apart(a: Pairs, b: Pairs, i: int) -> bool {
    &&& a.len() == b.len()
    &&& 0 <= i < a.len()
    &&& a[i].0 == b[i].0
    &&& forall|j: int| 0 <= j < a.len() && j != i ==> #[trigger] a[j] == b[j]
}

/// Where `p` goes in a list whose keys come in order.
pub open spec fn slot(s: Pairs, p: (Seq<char>, Seq<char>)) -> int
    decreases s.len(),
{
    if s.len() == 0 {
        0
    } else if key_le(s.last().0, p.0) {
        s.len() as int
    } else {
        slot(s.drop_last(), p)
    }
}

proof fn lemma_lex_total(x: Seq<u8>, y: Seq<u8>, i: int)
    requires
        0 <= i,
    ensures
        lex_le_from(x, y, i) || lex_le_from(y, x, i),
    decreases x.len() - i,
{
    if i < x.len() && i < y.len() && x[i] == y[i] {
        lemma_lex_total(x, y, i + 1);
    }
}

proof fn lemma_lex_trans(x: Seq<u8>, y: Seq<u8>, z: Seq<u8>, i: int)
    requires
        0 <= i,
        lex_le_from(x, y, i),
        lex_le_from(y, z, i),
    ensures
        lex_le_from(x, z, i),
    decreases x.len() - i,
{
    if i < x.len() && x[i] == y[i] && y[i] == z[i] {
        lemma_lex_trans(x, y, z, i + 1);
    }
}

proof fn lemma_lex_antisym(x: Seq<u8>, y: Seq<u8>, i: int)
    requires
        0 <= i <= x.len(),
        i <= y.len(),
        forall|j: int| 0 <= j < i ==> x[j] == y[j],
        lex_le_from(x, y, i),
        lex_le_from(y, x, i),
    ensures
        x == y,
    decreases x.len() - i,
{
    if i >= x.len() {
        assert(x =~= y);
    } else {
        lemma_lex_antisym(x, y, i + 1);
    }
}

/// Of two keys one comes no later than the other.
pub proof fn lemma_key_total(a: Seq<char>, b: Seq<char>)
    ensures
        key_le(a, b) || key_le(b, a),
{
    lemma_lex_total(encode_utf8(a), encode_utf8(b), 0);
}

/// The order of keys is transitive.
pub proof fn lemma_key_trans(a: Seq<char>, b: Seq<char>, c: Seq<char>)
    requires
        key_le(a, b),
        key_le(b, c),
    ensures
        key_le(a, c),
{
    lemma_lex_trans(encode_utf8(a), encode_utf8(b), encode_utf8(c), 0);
}

/// Two keys of which each comes no later than the other are one key.
pub proof fn lemma_key_antisym(a: Seq<char>, b: Seq<char>)
    requires
        key_le(a, b),
        key_le(b, a),
    ensures
        a == b,
{
    lemma_lex_antisym(encode_utf8(a), encode_utf8(b), 0);
    encode_utf8_decode_utf8(a);
    encode_utf8_decode_utf8(b);
}

proof fn lemma_slot(s: Pairs, p: (Seq<char>, Seq<char>))
    ensures
        0 <= slot(s, p) <= s.len(),
        insert_by_key(s, p) == s.insert(slot(s, p), p),
        slot(s, p) > 0 ==> key_le(s[slot(s, p) - 1].0, p.0),
        forall|j: int| slot(s, p) <= j < s.len() ==> !key_le((#[trigger] s[j]).0, p.0),
    decreases s.len(),
{
    if s.len() == 0 {
        assert(s.insert(0, p) =~= seq![p]);
    } else if key_le(s.last().0, p.0) {
        assert(s.insert(s.len() as int, p) =~= s.push(p));
    } else {
        let front = s.drop_last();
        lemma_slot(front, p);
        let k = slot(front, p);
        assert(front.insert(k, p).push(s.last()) =~= s.insert(k, p));
        assert forall|j: int| k <= j < s.len() implies !key_le((#[trigger] s[j]).0, p.0) by {
            if j < s.len() - 1 {
                assert(front[j] == s[j]);
            }
        }
        if k > 0 {
            assert(front[k - 1] == s[k - 1]);
        }
    }
}

proof fn lemma_insert_keeps_order(s: Pairs, p: (Seq<char>, Seq<char>))
    requires
        in_key_order(s),
    ensures
        in_key_order(insert_by_key(s, p)),
        insert_by_key(s, p).len() == s.len() + 1,
{
    lemma_slot(s, p);
    let k = slot(s, p);
    let r = s.insert(k, p);
    assert forall|i: int, j: int| 0 <= i < j < r.len() implies key_le(
        (#[trigger] r[i]).0,
        (#[trigger] r[j]).0,
    ) by {
        if j < k {
            assert(r[i] == s[i] && r[j] == s[j]);
        } else if j == k {
            assert(r[i] == s[i] && r[j] == p);
            if i < k - 1 {
                lemma_key_trans(s[i].0, s[k - 1].0, p.0);
            }
        } else if i == k {
            assert(r[j] == s[j - 1]);
            lemma_key_total(s[j - 1].0, p.0);
        } else if i < k {
            assert(r[i] == s[i] && r[j] == s[j - 1]);
            if i < j - 1 {
            } else {
                lemma_key_total(s[j - 1].0, p.0);
            }
        } else {
            assert(r[i] == s[i - 1] && r[j] == s[j - 1]);
        }
    }
}

/// Sorting puts the keys in order and keeps the number of parameters.
pub proof fn lemma_sorted_in_order(s: Pairs)
    ensures
        in_key_order(sorted_by_key(s)),
        sorted_by_key(s).len() == s.len(),
    decreases s.len(),
{
    if s.len() > 0 {
        lemma_sorted_in_order(s.drop_last());
        lemma_insert_keeps_order(sorted_by_key(s.drop_last()), s.last());
    }
}

proof fn lemma_insert_commutes_in_order(
    s: Pairs,
    p: (Seq<char>, Seq<char>),
    q: (Seq<char>, Seq<char>),
)
    requires
        in_key_order(s),
        key_le(p.0, q.0),
        !key_le(q.0, p.0),
    ensures
        insert_by_key(insert_by_key(s, p), q) == insert_by_key(insert_by_key(s, q), p),
{
    lemma_slot(s, p);
    lemma_slot(s, q);
    let kp = slot(s, p);
    let kq = slot(s, q);
    if kq < kp {
        lemma_key_trans(s[kp - 1].0, p.0, q.0);
        assert(!key_le(s[kp - 1].0, q.0));
    }
    let sp = s.insert(kp, p);
    let sq = s.insert(kq, q);
    assert(key_le(sp[kq].0, q.0)) by {
        if kq > kp {
            assert(sp[kq] == s[kq - 1]);
        }
    }
    assert forall|j: int| kq + 1 <= j < sp.len() implies !key_le((#[trigger] sp[j]).0, q.0) by {
        assert(sp[j] == s[j - 1]);
    }
    lemma_insert_at(sp, q, kq + 1);
    if kp > 0 {
        assert(sq[kp - 1] == s[kp - 1]);
    }
    assert forall|j: int| kp <= j < sq.len() implies !key_le((#[trigger] sq[j]).0, p.0) by {
        if j < kq {
            assert(sq[j] == s[j]);
        } else if j > kq {
            assert(sq[j] == s[j - 1]);
        }
    }
    lemma_insert_at(sq, p, kp);
    assert(sp.insert(kq + 1, q) =~= sq.insert(kp, p));
}

proof fn lemma_insert_commutes(s: Pairs, p: (Seq<char>, Seq<char>), q: (Seq<char>, Seq<char>))
    requires
        in_key_order(s),
        p.0 != q.0,
    ensures
        insert_by_key(insert_by_key(s, p), q) == insert_by_key(insert_by_key(s, q), p),
{
    lemma_key_total(p.0, q.0);
    if key_le(p.0, q.0) {
        if key_le(q.0, p.0) {
            lemma_key_antisym(p.0, q.0);
        }
        lemma_insert_commutes_in_order(s, p, q);
    } else {
        lemma_insert_commutes_in_order(s, q, p);
    }
}

proof fn lemma_sorted_takes_out(b: Pairs, j: int)
    requires
        0 <= j < b.len(),
        forall|k: int| 0 <= k < b.len() && k != j ==> (#[trigger] b[k]).0 != b[j].0,
    ensures
        sorted_by_key(b) == insert_by_key(sorted_by_key(b.remove(j)), b[j]),
    decreases b.len(),
{
    if j == b.len() - 1 {
        assert(b.remove(j) =~= b.drop_last());
    } else {
        let front = b.drop_last();
        let q = b.last();
        let p = b[j];
        assert(front[j] == p);
        assert forall|k: int| 0 <= k < front.len() && k != j implies (#[trigger] front[k]).0
            != front[j].0 by {
            assert(front[k] == b[k]);
        }
        lemma_sorted_takes_out(front, j);
        let rest = front.remove(j);
        assert(b.remove(j).drop_last() =~= rest);
        assert(b.remove(j).last() == q);
        assert(b[b.len() - 1].0 != b[j].0);
        lemma_sorted_in_order(rest);
        lemma_insert_commutes(sorted_by_key(rest), p, q);
    }
}

/// Two lists of the same parameters, each key only once, are sorted to the
/// same list.
pub proof fn lemma_sorted_order_independent(a: Pairs, b: Pairs)
    requires
        distinct_keys(a),
        distinct_keys(b),
        same_parameters(a, b),
    ensures
        sorted_by_key(a) == sorted_by_key(b),
    decreases a.len(),
{
    if a.len() == 0 {
        if b.len() > 0 {
            assert(b.contains(b[0]));
            assert(a.contains(b[0]));
        }
        assert(a =~= b);
    } else {
        let p = a.last();
        assert(a[a.len() - 1] == p);
        assert(a.contains(p));
        assert(b.contains(p));
        let j = choose|j: int| 0 <= j < b.len() && b[j] == p;
        let a2 = a.drop_last();
        let b2 = b.remove(j);
        assert forall|i: int, k: int| 0 <= i < k < a2.len() implies (#[trigger] a2[i]).0 != (
        #[trigger] a2[k]).0 by {
            assert(a2[i] == a[i] && a2[k] == a[k]);
        }
        assert forall|i: int, k: int| 0 <= i < k < b2.len() implies (#[trigger] b2[i]).0 != (
        #[trigger] b2[k]).0 by {
            let bi = if i < j { i } else { i + 1 };
            let bk = if k < j { k } else { k + 1 };
            assert(b2[i] == b[bi] && b2[k] == b[bk]);
        }
        assert forall|x: (Seq<char>, Seq<char>)| a2.contains(x) <==> b2.contains(x) by {
            if a2.contains(x) {
                let i = choose|i: int| 0 <= i < a2.len() && a2[i] == x;
                assert(a[i] == x);
                assert(a[i].0 != a[a.len() - 1].0);
                assert(a.contains(x));
                assert(b.contains(x));
                let k = choose|k: int| 0 <= k < b.len() && b[k] == x;
                assert(k != j);
                let at = if k < j { k } else { k - 1 };
                assert(b2[at] == x);
            }
            if b2.contains(x) {
                let i = choose|i: int| 0 <= i < b2.len() && b2[i] == x;
                let bi = if i < j { i } else { i + 1 };
                assert(b[bi] == x);
                if bi < j {
                    assert(b[bi].0 != b[j].0);
                } else {
                    assert(b[j].0 != b[bi].0);
                }
                assert(b.contains(x));
                assert(a.contains(x));
                let k = choose|k: int| 0 <= k < a.len() && a[k] == x;
                assert(k != a.len() - 1);
                assert(a2[k] == x);
            }
        }
        lemma_sorted_order_independent(a2, b2);
        assert forall|k: int| 0 <= k < b.len() && k != j implies (#[trigger] b[k]).0
            != b[j].0 by {
            if k < j {
                assert(b[k].0 != b[j].0);
            } else {
                assert(b[j].0 != b[k].0);
            }
        }
        lemma_sorted_takes_out(b, j);
    }
}

/// Where every key of a list comes no later than `key`, so does every key
/// of its signed parameters.
proof fn lemma_signable_below(t: Pairs, key: Seq<char>)
    requires
        forall|j: int| 0 <= j < t.len() ==> key_le((#[trigger] t[j]).0, key),
    ensures
        forall|i: int| 0 <= i < signable(t).len() ==> key_le((#[trigger] signable(t)[i]).0, key),
    decreases t.len(),
{
    if t.len() > 0 {
        let front = t.drop_last();
        assert forall|j: int| 0 <= j < front.len() implies key_le((#[trigger] front[j]).0, key) by {
            assert(front[j] == t[j]);
        }
        lemma_signable_below(front, key);
        assert(key_le(t[t.len() - 1].0, key));
        assert forall|i: int| 0 <= i < signable(t).len() implies key_le(
            (#[trigger] signable(t)[i]).0,
            key,
        ) by {
            if i < signable(front).len() {
                assert(signable(t)[i] == signable(front)[i]);
            }
        }
    }
}

/// Putting a parameter into a list in key order and then leaving out what
/// is not signed gives what putting it, if it is signed, into the signed
/// parameters of the list gives.
proof fn lemma_signable_insert(s: Pairs, x: (Seq<char>, Seq<char>))
    requires
        in_key_order(s),
    ensures
        signable(insert_by_key(s, x)) == if is_signed(x.0) {
            insert_by_key(signable(s), x)
        } else {
            signable(s)
        },
    decreases s.len(),
{
    if s.len() == 0 {
        assert(seq![x].drop_last() =~= s);
        assert(s.push(x) =~= seq![x]);
    } else if key_le(s.last().0, x.0) {
        let r = s.push(x);
        assert(r.drop_last() =~= s);
        if is_signed(x.0) {
            assert forall|j: int| 0 <= j < s.len() implies key_le((#[trigger] s[j]).0, x.0) by {
                if j < s.len() - 1 {
                    lemma_key_trans(s[j].0, s[s.len() - 1].0, x.0);
                }
            }
            lemma_signable_below(s, x.0);
            let u = signable(s);
            if u.len() > 0 {
                assert(key_le(u[u.len() - 1].0, x.0));
            } else {
                assert(u.push(x) =~= seq![x]);
            }
        }
    } else {
        let front = s.drop_last();
        let last = s.last();
        assert forall|i: int, j: int| 0 <= i < j < front.len() implies key_le(
            (#[trigger] front[i]).0,
            (#[trigger] front[j]).0,
        ) by {
            assert(front[i] == s[i] && front[j] == s[j]);
        }
        lemma_signable_insert(front, x);
        let r = insert_by_key(front, x).push(last);
        assert(r.drop_last() =~= insert_by_key(front, x));
        if is_signed(x.0) && is_signed(last.0) {
            let u = signable(front).push(last);
            assert(u.drop_last() =~= signable(front));
            assert(u.last() == last);
        }
    }
}

/// Leaving out what is not signed and sorting can be done in either order.
pub proof fn lemma_signable_sorted(p: Pairs)
    ensures
        signable(sorted_by_key(p)) == sorted_by_key(signable(p)),
    decreases p.len(),
{
    if p.len() > 0 {
        let front = p.drop_last();
        lemma_signable_sorted(front);
        lemma_sorted_in_order(front);
        lemma_signable_insert(sorted_by_key(front), p.last());
        if is_signed(p.last().0) {
            let u = signable(front).push(p.last());
            assert(u.drop_last() =~= signable(front));
        }
    }
}

/// A parameter that is not signed can be taken out of the list without
/// changing what is signed.
pub proof fn lemma_signable_without(p: Pairs, i: int)
    requires
        0 <= i < p.len(),
        !is_signed(p[i].0),
    ensures
        signable(p.remove(i)) == signable(p),
    decreases p.len(),
{
    if i == p.len() - 1 {
        assert(p.remove(i) =~= p.drop_last());
    } else {
        let front = p.drop_last();
        assert(front[i] == p[i]);
        lemma_signable_without(front, i);
        let q = p.remove(i);
        assert(q.drop_last() =~= front.remove(i));
        assert(q.last() == p.last());
    }
}

/// A list in which every parameter is signed is signed as it is.
pub proof fn lemma_signable_all(p: Pairs)
    requires
        forall|i: int| 0 <= i < p.len() ==> is_signed((#[trigger] p[i]).0),
    ensures
        signable(p) == p,
    decreases p.len(),
{
    if p.len() > 0 {
        let front = p.drop_last();
        assert forall|i: int| 0 <= i < front.len() implies is_signed((#[trigger] front[i]).0) by {
            assert(front[i] == p[i]);
        }
        lemma_signable_all(front);
        assert(is_signed(p[p.len() - 1].0));
        assert(front.push(p.last()) =~= p);
    }
}

/// The signature field and the format field are not signed: a list to which
/// a pair with the key `api_sig` and a pair with the key `format` are added
/// has the signature of the list without them.
pub proof fn lemma_signature_leaves_out_fields(
    p: Pairs,
    api_sig: Seq<char>,
    format: Seq<char>,
    secret: Seq<char>,
)
    ensures
        signable(p.push(("api_sig"@, api_sig)).push(("format"@, format))) == signable(p),
        signature(signable(p.push(("api_sig"@, api_sig)).push(("format"@, format))), secret)
            == signature(signable(p), secret),
{
    let one = p.push(("api_sig"@, api_sig));
    let two = one.push(("format"@, format));
    assert(two.drop_last() =~= one);
    assert(one.drop_last() =~= p);
    assert(signable(one) == signable(p));
    assert(signable(two) == signable(one));
}

/// Sorting neither adds nor loses a parameter: the sorted list holds exactly
/// the pairs of the list, each as often as the list does.
pub proof fn lemma_sorted_same_pairs(s: Pairs)
    ensures
        sorted_by_key(s).to_multiset() == s.to_multiset(),
    decreases s.len(),
{
    if s.len() > 0 {
        let front = s.drop_last();
        let sorted = sorted_by_key(front);
        lemma_sorted_same_pairs(front);
        lemma_slot(sorted, s.last());
        to_multiset_insert(sorted, slot(sorted, s.last()), s.last());
        to_multiset_insert(front, front.len() as int, s.last());
        assert(front.insert(front.len() as int, s.last()) =~= s);
    }
}

/// Where a parameter goes depends on the keys alone.
proof fn lemma_slot_by_keys(
    s: Pairs,
    t: Pairs,
    x: (Seq<char>, Seq<char>),
    y: (Seq<char>, Seq<char>),
)
    requires
        s.len() == t.len(),
        forall|j: int| 0 <= j < s.len() ==> (#[trigger] s[j]).0 == t[j].0,
        x.0 == y.0,
    ensures
        slot(s, x) == slot(t, y),
    decreases s.len(),
{
    if s.len() > 0 {
        assert(s[s.len() - 1].0 == t[s.len() - 1].0);
        let sf = s.drop_last();
        let tf = t.drop_last();
        assert forall|j: int| 0 <= j < sf.len() implies (#[trigger] sf[j]).0 == tf[j].0 by {
            assert(s[j].0 == t[j].0);
        }
        lemma_slot_by_keys(sf, tf, x, y);
    }
}

/// Two lists that are one value apart are one value apart when sorted, and
/// the pair with that value stands at the same place in both.
proof fn lemma_sorted_one_apart(a: Pairs, b: Pairs, i: int) -> (m: int)
    requires
        one_value_apart(a, b, i),
    ensures
        one_value_apart(sorted_by_key(a), sorted_by_key(b), m),
        sorted_by_key(a)[m] == a[i],
        sorted_by_key(b)[m] == b[i],
    decreases a.len(),
{
    let fa = a.drop_last();
    let fb = b.drop_last();
    let sa = sorted_by_key(fa);
    let sb = sorted_by_key(fb);
    if i == a.len() - 1 {
        assert(fa =~= fb) by {
            assert forall|j: int| 0 <= j < fa.len() implies fa[j] == fb[j] by {
                assert(a[j] == b[j]);
            }
        }
        lemma_slot(sa, a[i]);
        lemma_slot(sa, b[i]);
        lemma_slot_by_keys(sa, sa, a[i], b[i]);
        let k = slot(sa, a[i]);
        let ra = sa.insert(k, a[i]);
        let rb = sa.insert(k, b[i]);
        assert forall|j: int| 0 <= j < ra.len() && j != k implies #[trigger] ra[j] == rb[j] by {}
        k
    } else {
        assert(one_value_apart(fa, fb, i)) by {
            assert forall|j: int| 0 <= j < fa.len() && j != i implies #[trigger] fa[j]
                == fb[j] by {
                assert(a[j] == b[j]);
            }
        }
        let m0 = lemma_sorted_one_apart(fa, fb, i);
        let x = a.last();
        assert(a[a.len() - 1] == b[a.len() - 1]);
        assert forall|j: int| 0 <= j < sa.len() implies (#[trigger] sa[j]).0 == sb[j].0 by {
            if j != m0 {
                assert(sa[j] == sb[j]);
            }
        }
        lemma_slot(sa, x);
        lemma_slot(sb, x);
        lemma_slot_by_keys(sa, sb, x, x);
        let k = slot(sa, x);
        let ra = sa.insert(k, x);
        let rb = sb.insert(k, x);
        let m = if m0 < k {
            m0
        } else {
            m0 + 1
        };
        assert forall|j: int| 0 <= j < ra.len() && j != m implies #[trigger] ra[j] == rb[j] by {
            if j < k {
                assert(sa[j] == sb[j]);
            } else if j > k {
                assert(sa[j - 1] == sb[j - 1]);
            }
        }
        m
    }
}

/// Two lists that are one value apart, at a parameter that is signed, are
/// one value apart in what is signed of them.
proof fn lemma_signable_one_apart(a: Pairs, b: Pairs, i: int) -> (m: int)
    requires
        one_value_apart(a, b, i),
        is_signed(a[i].0),
    ensures
        one_value_apart(signable(a), signable(b), m),
        signable(a)[m] == a[i],
        signable(b)[m] == b[i],
    decreases a.len(),
{
    let fa = a.drop_last();
    let fb = b.drop_last();
    if i == a.len() - 1 {
        assert(fa =~= fb) by {
            assert forall|j: int| 0 <= j < fa.len() implies fa[j] == fb[j] by {
                assert(a[j] == b[j]);
            }
        }
        signable(fa).len() as int
    } else {
        assert(one_value_apart(fa, fb, i)) by {
            assert forall|j: int| 0 <= j < fa.len() && j != i implies #[trigger] fa[j]
                == fb[j] by {
                assert(a[j] == b[j]);
            }
        }
        let m = lemma_signable_one_apart(fa, fb, i);
        assert(a[a.len() - 1] == b[a.len() - 1]);
        assert forall|j: int| 0 <= j < signable(a).len() && j != m implies #[trigger] signable(
            a,
        )[j] == signable(b)[j] by {
            if j < signable(fa).len() {
                assert(signable(fa)[j] == signable(fb)[j]);
            }
        }
        m
    }
}

/// The text of two lists, one after the other, is the text of the first
/// followed by the text of the second.
proof fn lemma_joined_concat(s: Pairs, t: Pairs)
    ensures
        joined(s + t) == joined(s) + joined(t),
    decreases t.len(),
{
    if t.len() == 0 {
        assert(s + t =~= s);
        assert(joined(s) + joined(t) =~= joined(s));
    } else {
        assert((s + t).drop_last() =~= s + t.drop_last());
        assert((s + t).last() == t.last());
        lemma_joined_concat(s, t.drop_last());
        assert(joined(s + t) =~= joined(s) + joined(t));
    }
}

/// Two texts that differ only in a middle part differ.
proof fn lemma_middle_differs(a: Seq<char>, v: Seq<char>, w: Seq<char>, b: Seq<char>)
    requires
        v != w,
    ensures
        a + v + b != a + w + b,
{
    if a + v + b == a + w + b {
        assert((a + v + b).len() == (a + w + b).len());
        assert forall|j: int| 0 <= j < v.len() implies v[j] == w[j] by {
            assert((a + v + b)[a.len() + j] == v[j]);
            assert((a + w + b)[a.len() + j] == w[j]);
        }
        assert(v =~= w);
    }
}

/// Two lists that are one value apart, with different values there, are
/// written as different texts in front of the same secret.
proof fn lemma_joined_tells_values(s: Pairs, t: Pairs, m: int, secret: Seq<char>)
    requires
        one_value_apart(s, t, m),
        s[m].1 != t[m].1,
    ensures
        joined(s) + secret != joined(t) + secret,
{
    let before = s.subrange(0, m);
    let after = s.subrange(m + 1, s.len() as int);
    assert(before =~= t.subrange(0, m)) by {
        assert forall|j: int| 0 <= j < m implies before[j] == t.subrange(0, m)[j] by {
            assert(s[j] == t[j]);
        }
    }
    assert(after =~= t.subrange(m + 1, t.len() as int)) by {
        assert forall|j: int| 0 <= j < after.len() implies after[j] == t.subrange(
            m + 1,
            t.len() as int,
        )[j] by {
            assert(s[m + 1 + j] == t[m + 1 + j]);
        }
    }
    assert(s =~= before + seq![s[m]] + after);
    assert(t =~= before + seq![t[m]] + after);
    lemma_joined_concat(before + seq![s[m]], after);
    lemma_joined_concat(before, seq![s[m]]);
    lemma_joined_concat(before + seq![t[m]], after);
    lemma_joined_concat(before, seq![t[m]]);
    assert(seq![s[m]].drop_last() =~= Seq::<(Seq<char>, Seq<char>)>::empty());
    assert(seq![t[m]].drop_last() =~= Seq::<(Seq<char>, Seq<char>)>::empty());
    assert(joined(Seq::<(Seq<char>, Seq<char>)>::empty()) =~= Seq::<char>::empty());
    assert(joined(seq![s[m]]) =~= s[m].0 + s[m].1);
    assert(joined(seq![t[m]]) =~= t[m].0 + t[m].1);
    let head = joined(before) + s[m].0;
    let tail = joined(after) + secret;
    assert(joined(s) + secret =~= head + s[m].1 + tail);
    assert(joined(t) + secret =~= head + t[m].1 + tail);
    lemma_middle_differs(head, s[m].1, t[m].1, tail);
}

/// For fixed keys, changing one value changes the text that is signed: two
/// lists with the same keys in the same places that differ in the value of
/// one parameter are signed as different texts under the same secret, and so
/// is what is signed of them if that parameter is signed.
pub proof fn lemma_value_changes_signed_text(a: Pairs, b: Pairs, i: int, secret: Seq<char>)
    requires
        one_value_apart(a, b, i),
        a[i].1 != b[i].1,
    ensures
        signature_base(a, secret) != signature_base(b, secret),
        is_signed(a[i].0) ==> signature_base(signable(a), secret) != signature_base(
            signable(b),
            secret,
        ),
{
    let m = lemma_sorted_one_apart(a, b, i);
    lemma_joined_tells_values(sorted_by_key(a), sorted_by_key(b), m, secret);
    if is_signed(a[i].0) {
        let k = lemma_signable_one_apart(a, b, i);
        let n = lemma_sorted_one_apart(signable(a), signable(b), k);
        lemma_joined_tells_values(
            sorted_by_key(signable(a)),
            sorted_by_key(signable(b)),
            n,
            secret,
        );
    }
}

/// The signature does not depend on the order in which the parameters are
/// given: two lists that hold the same parameters, each key only once, have
/// the same signature under the same secret, whether or not some of them are
/// left unsigned.
pub proof fn lemma_signature_order_independent(a: Pairs, b: Pairs, secret: Seq<char>)
    requires
        distinct_keys(a),
        distinct_keys(b),
        same_parameters(a, b),
    ensures
        signature(a, secret) == signature(b, secret),
        signature(signable(a), secret) == signature(signable(b), secret),
{
    lemma_sorted_order_independent(a, b);
    lemma_signable_sorted(a);
    lemma_signable_sorted(b);
}

} // verus!
