//! The request signature of the scrobbling service.
//!
//! The parameters are put in the order of their keys, each key is written
//! with its value behind it, the shared secret follows, and the MD5 digest of
//! that text, in lower-case hexadecimal, is the signature. The signature
//! itself and the format of the answer are never signed.

use vstd::prelude::*;
use vstd::string::StringExecFns;
use vstd::utf8::encode_utf8;
use crate::param_order::lemma_signable_sorted;

verus! {

/// Parameters as texts: each a key and its value.
pub type Pairs = Seq<(Seq<char>, Seq<char>)>;

/// The parameters of `v` as texts.
pub open spec fn text_pairs(v: Seq<(String, String)>) -> Pairs {
    Seq::new(v.len(), |i: int| (v[i].0@, v[i].1@))
}

/// `a`, from index `i` on, comes no later than `b`, from index `i` on, in
/// the order of a dictionary.
pub open spec fn lex_le_from(a: Seq<u8>, b: Seq<u8>, i: int) -> bool
    decreases a.len() - i,
{
    if i < 0 || i >= a.len() {
        true
    } else if i >= b.len() {
        false
    } else if a[i] != b[i] {
        a[i] < b[i]
    } else {
        lex_le_from(a, b, i + 1)
    }
}

/// The key `a` comes no later than the key `b`: the order of their UTF-8
/// bytes, which is the order of strings.
pub open spec fn key_le(a: Seq<char>, b: Seq<char>) -> bool {
    lex_le_from(encode_utf8(a), encode_utf8(b), 0)
}

/// `sorted` with `p` put in behind every parameter whose key comes no later
/// than the key of `p`.
pub open spec fn insert_by_key(sorted: Pairs, p: (Seq<char>, Seq<char>)) -> Pairs
    decreases sorted.len(),
{
    if sorted.len() == 0 {
        seq![p]
    } else if key_le(sorted.last().0, p.0) {
        sorted.push(p)
    } else {
        insert_by_key(sorted.drop_last(), p).push(sorted.last())
    }
}

/// The parameters in the order of their keys; parameters with the same key
/// stay in the order in which they came.
pub open spec fn sorted_by_key(params: Pairs) -> Pairs
    decreases params.len(),
{
    if params.len() == 0 {
        params
    } else {
        insert_by_key(sorted_by_key(params.drop_last()), params.last())
    }
}

/// The key of a parameter that is signed: any but the signature itself and
/// the format of the answer.
pub open spec fn is_signed(key: Seq<char>) -> bool {
    key != "api_sig"@ && key != "format"@
}

/// The parameters that are signed, in the order given.
pub open spec fn signable(params: Pairs) -> Pairs
    decreases params.len(),
{
    if params.len() == 0 {
        params
    } else if is_signed(params.last().0) {
        signable(params.drop_last()).push(params.last())
    } else {
        signable(params.drop_last())
    }
}

/// Every key with its value behind it, in the order given.
pub open spec fn joined(params: Pairs) -> Seq<char>
    decreases params.len(),
{
    if params.len() == 0 {
        Seq::<char>::empty()
    } else {
        joined(params.drop_last()) + params.last().0 + params.last().1
    }
}

/// The text that is signed: the parameters in key order, then the secret.
pub open spec fn signature_base(params: Pairs, secret: Seq<char>) -> Seq<char> {
    joined(sorted_by_key(params)) + secret
}

/// The digit of `n` in lower-case hexadecimal.
pub open spec fn hex_digit(n: int) -> char {
    if n < 10 {
        (48 + n) as char
    } else {
        (87 + n) as char
    }
}

/// The bytes in lower-case hexadecimal, two digits each.
pub open spec fn hex_lower(bytes: Seq<u8>) -> Seq<char>
    decreases bytes.len(),
{
    if bytes.len() == 0 {
        Seq::<char>::empty()
    } else {
        hex_lower(bytes.drop_last()).push(hex_digit(bytes.last() as int / 16)).push(
            hex_digit(bytes.last() as int % 16),
        )
    }
}

/// The MD5 digest of `data`.
pub uninterp spec fn md5_digest(data: Seq<u8>) -> Seq<u8>;

/// The signature of a signed text: the MD5 digest of its UTF-8 bytes in
/// lower-case hexadecimal.
pub open spec fn digest_text(base: Seq<char>) -> Seq<char> {
    hex_lower(md5_digest(encode_utf8(base)))
}

/// The signature of `params`, all of which are signed, under `secret`.
pub open spec fn signature(params: Pairs, secret: Seq<char>) -> Seq<char> {
    digest_text(signature_base(params, secret))
}

/// `md5::compute`: the 16 bytes of the MD5 digest of `data`, which depend on
/// `data` alone.
#[verifier::external_body]
fn md5_compute(data: &[u8]) -> (digest: [u8; 16])
    ensures
        digest@ == md5_digest(data@),
{
    md5::compute(data).0
}

/// The digit of `n` in lower-case hexadecimal, as a text.
pub(crate) fn hex_digit_text(n: u8) -> (text: &'static str)
    requires
        n < 16,
    ensures
        text@ == seq![hex_digit(n as int)],
{
    proof {
        reveal_strlit("0");
        reveal_strlit("1");
        reveal_strlit("2");
        reveal_strlit("3");
        reveal_strlit("4");
        reveal_strlit("5");
        reveal_strlit("6");
        reveal_strlit("7");
        reveal_strlit("8");
        reveal_strlit("9");
        reveal_strlit("a");
        reveal_strlit("b");
        reveal_strlit("c");
        reveal_strlit("d");
        reveal_strlit("e");
        reveal_strlit("f");
    }
    let text = match n {
        0 => "0",
        1 => "1",
        2 => "2",
        3 => "3",
        4 => "4",
        5 => "5",
        6 => "6",
        7 => "7",
        8 => "8",
        9 => "9",
        10 => "a",
        11 => "b",
        12 => "c",
        13 => "d",
        14 => "e",
        _ => "f",
    };
    assert(text@ =~= seq![hex_digit(n as int)]);
    text
}

/// Writes bytes in lower-case hexadecimal.
pub fn to_hex_lower(bytes: &[u8]) -> (text: String)
    ensures
        text@ == hex_lower(bytes@),
        text@.len() == 2 * bytes@.len(),
{
    let mut text = String::new();
    let mut i: usize = 0;
    while i < bytes.len()
        invariant
            i <= bytes@.len(),
            text@ == hex_lower(bytes@.subrange(0, i as int)),
            text@.len() == 2 * i,
        decreases bytes@.len() - i,
    {
        let b = bytes[i];
        let ghost before = text@;
        text.append(hex_digit_text(b / 16));
        text.append(hex_digit_text(b % 16));
        proof {
            let longer = bytes@.subrange(0, i + 1);
            assert(longer.drop_last() =~= bytes@.subrange(0, i as int));
            assert(longer.last() == b);
            assert(text@ =~= before.push(hex_digit(b as int / 16)).push(hex_digit(b as int % 16)));
        }
        i += 1;
    }
    assert(bytes@.subrange(0, i as int) =~= bytes@);
    text
}

/// The signature of a text that is ready to be signed: see `digest_text`.
/// It has 32 characters.
pub fn sign_text(base: &str) -> (sig: String)
    ensures
        sig@ == digest_text(base@),
        sig@.len() == 32,
{
    let digest = md5_compute(base.as_bytes());
    to_hex_lower(digest.as_slice())
}

/// Whether the key `a` comes no later than the key `b`.
pub fn key_no_later(a: &str, b: &str) -> (le: bool)
    ensures
        le == key_le(a@, b@),
{
    let x = a.as_bytes();
    let y = b.as_bytes();
    let mut i: usize = 0;
    loop
        invariant
            i <= x@.len(),
            i <= y@.len(),
            x@ == encode_utf8(a@),
            y@ == encode_utf8(b@),
            lex_le_from(x@, y@, 0) == lex_le_from(x@, y@, i as int),
        decreases x@.len() - i,
    {
        if i >= x.len() {
            return true;
        }
        if i >= y.len() {
            return false;
        }
        if x[i] != y[i] {
            return x[i] < y[i];
        }
        i += 1;
    }
}

/// Where `p` goes by `insert_by_key`: behind the parameters up to `at`, whose
/// last key comes no later, and before those from `at` on, whose keys all
/// come later.
pub proof fn lemma_insert_at(sorted: Pairs, p: (Seq<char>, Seq<char>), at: int)
    requires
        0 <= at <= sorted.len(),
        at > 0 ==> key_le(sorted[at - 1].0, p.0),
        forall|j: int| at <= j < sorted.len() ==> !key_le((#[trigger] sorted[j]).0, p.0),
    ensures
        insert_by_key(sorted, p) == sorted.insert(at, p),
    decreases sorted.len() - at,
{
    if sorted.len() == 0 {
        assert(sorted.insert(at, p) =~= seq![p]);
    } else if at == sorted.len() {
        assert(sorted.insert(at, p) =~= sorted.push(p));
    } else {
        let front = sorted.drop_last();
        assert(!key_le(sorted[sorted.len() - 1].0, p.0));
        lemma_insert_at(front, p, at);
        assert(front.insert(at, p).push(sorted.last()) =~= sorted.insert(at, p));
    }
}

/// Puts the parameters in the order of their keys: see `sorted_by_key`.
pub fn sort_by_key(params: &mut Vec<(String, String)>)
    ensures
        text_pairs(final(params)@) == sorted_by_key(text_pairs(old(params)@)),
        final(params)@.len() == old(params)@.len(),
{
    let mut sorted: Vec<(String, String)> = Vec::new();
    let mut i: usize = 0;
    assert(text_pairs(params@.subrange(0, 0)) =~= Seq::empty());
    assert(text_pairs(sorted@) =~= Seq::empty());
    while i < params.len()
        invariant
            i <= params@.len(),
            sorted@.len() == i,
            text_pairs(sorted@) == sorted_by_key(text_pairs(params@.subrange(0, i as int))),
        decreases params@.len() - i,
    {
        let key = params[i].0.clone();
        let value = params[i].1.clone();
        let mut at: usize = sorted.len();
        while at > 0 && !key_no_later(sorted[at - 1].0.as_str(), key.as_str())
            invariant
                at <= sorted@.len(),
                forall|j: int|
                    at <= j < sorted@.len() ==> !key_le(
                        (#[trigger] text_pairs(sorted@)[j]).0,
                        key@,
                    ),
            decreases at,
        {
            at -= 1;
        }
        proof {
            let before = text_pairs(sorted@);
            let longer = text_pairs(params@.subrange(0, i + 1));
            assert(longer.drop_last() =~= text_pairs(params@.subrange(0, i as int)));
            assert(longer.last() == (key@, value@));
            lemma_insert_at(before, (key@, value@), at as int);
            assert(text_pairs(sorted@.insert(at as int, (key, value))) =~= before.insert(
                at as int,
                (key@, value@),
            ));
        }
        sorted.insert(at, (key, value));
        i += 1;
    }
    assert(params@.subrange(0, i as int) =~= params@);
    *params = sorted;
}

/// The signed parameters of `params`, each key with its value behind it.
fn join_signable(params: &Vec<(String, String)>) -> (text: String)
    ensures
        text@ == joined(signable(text_pairs(params@))),
{
    let signature_key = String::from_str("api_sig");
    let format_key = String::from_str("format");
    let mut text = String::new();
    let mut i: usize = 0;
    assert(text_pairs(params@.subrange(0, 0)) =~= Seq::empty());
    while i < params.len()
        invariant
            i <= params@.len(),
            signature_key@ == "api_sig"@,
            format_key@ == "format"@,
            text@ == joined(signable(text_pairs(params@.subrange(0, i as int)))),
        decreases params@.len() - i,
    {
        proof {
            let shorter = text_pairs(params@.subrange(0, i as int));
            let longer = text_pairs(params@.subrange(0, i + 1));
            assert(longer.drop_last() =~= shorter);
            assert(longer.last() == (params@[i as int].0@, params@[i as int].1@));
            assert(signable(shorter).push(longer.last()).drop_last() =~= signable(shorter));
        }
        if !(params[i].0 == signature_key) && !(params[i].0 == format_key) {
            text.append(params[i].0.as_str());
            text.append(params[i].1.as_str());
        }
        i += 1;
    }
    assert(params@.subrange(0, i as int) =~= params@);
    text
}

/// Signs the parameters under the shared secret.
///
/// The parameters are left in the order of their keys. The signature is the
/// MD5 digest, in lower-case hexadecimal, of every signed key with its value
/// in that order, followed by the secret; it has 32 characters. A parameter
/// with the key `api_sig` or `format` is not signed.
pub fn sign_lastfm(params: &mut Vec<(String, String)>, api_secret: &str) -> (sig: String)
    ensures
        text_pairs(final(params)@) == sorted_by_key(text_pairs(old(params)@)),
        sig@ == signature(signable(text_pairs(old(params)@)), api_secret@),
        sig@.len() == 32,
{
    proof {
        lemma_signable_sorted(text_pairs(params@));
    }
    sort_by_key(params);
    let mut base = join_signable(params);
    base.append(api_secret);
    sign_text(base.as_str())
}

} // verus!
