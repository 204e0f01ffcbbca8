//! Byte-level text utilities for the scanning layers.
//!
//! All keyword matching in the pipeline is case-insensitive substring
//! search. Case folding is ASCII-only: bytes `b'A'..=b'Z'` map to their
//! lower-case counterparts and every other byte is left unchanged.

use vstd::prelude::*;
use vstd::string::{StrSliceExecFns, StringExecFns};

verus! {

/// The UTF-8 bytes of a character sequence.
pub open spec fn utf8_bytes(s: Seq<char>) -> Seq<u8> {
    vstd::utf8::encode_utf8(s)
}

/// Append the UTF-8 bytes of `s` to `buf`.
pub fn push_str_bytes(buf: &mut Vec<u8>, s: &str)
    ensures
        final(buf)@ == old(buf)@ + utf8_bytes(s@),
{
    let mut v = s.as_bytes_vec();
    buf.append(&mut v);
}

/// Copy a vector of strings, preserving contents.
pub fn clone_strings(v: &Vec<String>) -> (r: Vec<String>)
    ensures
        r.deep_view() == v.deep_view(),
{
    let mut r: Vec<String> = Vec::new();
    let mut i: usize = 0;
    while i < v.len()
        invariant
            i <= v@.len(),
            r@.len() == i,
            forall|k: int| 0 <= k < i ==> r@[k]@ == v@[k]@,
        decreases v@.len() - i,
    {
        r.push(String::from_str(v[i].as_str()));
        i = i + 1;
    }
    proof {
        assert(r.deep_view() =~~= v.deep_view());
    }
    r
}

/// Content equality of two vectors of strings.
pub fn strings_eq(a: &Vec<String>, b: &Vec<String>) -> (r: bool)
    ensures
        r == (a.deep_view() == b.deep_view()),
{
    if a.len() != b.len() {
        proof {
            assert(a.deep_view().len() != b.deep_view().len());
        }
        return false;
    }
    let mut i: usize = 0;
    while i < a.len()
        invariant
            i <= a@.len(),
            a@.len() == b@.len(),
            forall|j: int| 0 <= j < i ==> a.deep_view()[j] == b.deep_view()[j],
        decreases a@.len() - i,
    {
        if !(a[i] == b[i]) {
            proof {
                assert(a.deep_view()[i as int] != b.deep_view()[i as int]);
            }
            return false;
        }
        i = i + 1;
    }
    proof {
        assert(a.deep_view() =~~= b.deep_view());
    }
    true
}

/// Relies on String::from_utf8: ASCII bytes decode to the characters with
/// the same code points.
#[verifier::external_body]
pub fn ascii_to_string(v: Vec<u8>) -> (r: String)
    requires
        forall|i: int| 0 <= i < v@.len() ==> v@[i] < 128,
    ensures
        r@ == v@.map(|_i: int, b: u8| b as char),
{
    String::from_utf8(v).unwrap_or_default()
}

/// ASCII lower-casing of a single byte.
pub open spec fn lower_byte(b: u8) -> u8 {
    if 65 <= b && b <= 90 {
        (b + 32) as u8
    } else {
        b
    }
}

/// ASCII lower-casing of a byte sequence.
pub open spec fn lower_bytes(s: Seq<u8>) -> Seq<u8> {
    s.map(|_i: int, b: u8| lower_byte(b))
}

/// `p` occurs as a contiguous subsequence of `t`.
pub open spec fn is_substring(t: Seq<u8>, p: Seq<u8>) -> bool {
    exists|i: int|
        0 <= i && i + p.len() <= t.len() && #[trigger] t.subrange(i, i + p.len() as int) == p
}

/// `p` occurs in `t` when both are compared case-insensitively (ASCII).
pub open spec fn contains_ci(t: Seq<u8>, p: Seq<u8>) -> bool {
    is_substring(lower_bytes(t), lower_bytes(p))
}

/// Lower-case a byte slice (ASCII).
pub fn lower_vec(s: &[u8]) -> (r: Vec<u8>)
    ensures
        r@ == lower_bytes(s@),
{
    let mut r: Vec<u8> = Vec::new();
    let mut i: usize = 0;
    while i < s.len()
        invariant
            i <= s@.len(),
            r@ == lower_bytes(s@.subrange(0, i as int)),
        decreases s@.len() - i,
    {
        let b = s[i];
        let lb: u8 = if 65 <= b && b <= 90 {
            b + 32
        } else {
            b
        };
        r.push(lb);
        proof {
            assert(s@.subrange(0, i + 1).drop_last() == s@.subrange(0, i as int));
            assert(lower_bytes(s@.subrange(0, i + 1)) =~= lower_bytes(
                s@.subrange(0, i as int),
            ).push(lower_byte(s@[i as int])));
        }
        i = i + 1;
    }
    proof {
        assert(s@.subrange(0, s@.len() as int) == s@);
    }
    r
}

/// Byte-slice equality.
pub fn bytes_eq(a: &[u8], b: &[u8]) -> (r: bool)
    ensures
        r == (a@ == b@),
{
    if a.len() != b.len() {
        proof {
            assert(a@.len() != b@.len());
        }
        return false;
    }
    let mut i: usize = 0;
    while i < a.len()
        invariant
            i <= a@.len(),
            a@.len() == b@.len(),
            forall|j: int| 0 <= j < i ==> a@[j] == b@[j],
        decreases a@.len() - i,
    {
        if a[i] != b[i] {
            return false;
        }
        i = i + 1;
    }
    proof {
        assert(a@ =~= b@);
    }
    true
}

/// Does `p` match `t` starting at position `at`?
fn matches_at(t: &[u8], p: &[u8], at: usize) -> (r: bool)
    requires
        t@.len() <= usize::MAX,
        at + p@.len() <= t@.len(),
    ensures
        r == (t@.subrange(at as int, at + p@.len()) == p@),
{
    let mut j: usize = 0;
    while j < p.len()
        invariant
            j <= p@.len(),
            t@.len() <= usize::MAX,
            at + p@.len() <= t@.len(),
            forall|k: int| 0 <= k < j ==> t@[at + k] == p@[k],
        decreases p@.len() - j,
    {
        if t[at + j] != p[j] {
            proof {
                assert(t@.subrange(at as int, at + p@.len())[j as int] == t@[at + j]);
            }
            return false;
        }
        j = j + 1;
    }
    proof {
        assert(t@.subrange(at as int, at + p@.len()) =~= p@);
    }
    true
}

/// Case-sensitive substring search.
pub fn contains_sub(t: &[u8], p: &[u8]) -> (r: bool)
    ensures
        r == is_substring(t@, p@),
{
    if p.len() > t.len() {
        proof {
            assert(!is_substring(t@, p@));
        }
        return false;
    }
    if p.len() == 0 {
        proof {
            let w = 0int;
            assert(t@.subrange(w, w + p@.len() as int) =~= p@);
        }
        return true;
    }
    let mut i: usize = 0;
    let last = t.len() - p.len();
    while i <= last
        invariant
            t@.len() <= usize::MAX,
            1 <= p@.len() <= t@.len(),
            last == t@.len() - p@.len(),
            i <= last + 1,
            forall|k: int| 0 <= k < i ==> #[trigger] t@.subrange(k, k + p@.len()) != p@,
        decreases last + 1 - i,
    {
        if matches_at(t, p, i) {
            proof {
                let w = i as int;
                assert(0 <= w && w + p@.len() <= t@.len() && t@.subrange(w, w + p@.len() as int)
                    == p@);
            }
            return true;
        }
        i = i + 1;
    }
    proof {
        assert(forall|k: int|
            0 <= k && k + p@.len() <= t@.len() ==> #[trigger] t@.subrange(k, k + p@.len())
                != p@);
    }
    false
}

/// The first position at or after `i` where `p` occurs in `t`, if any.
pub open spec fn first_match_index(t: Seq<u8>, p: Seq<u8>, i: int) -> Option<int>
    decreases t.len() + 1 - i,
{
    if i < 0 || i + p.len() > t.len() {
        None
    } else if t.subrange(i, i + p.len() as int) == p {
        Some(i)
    } else {
        first_match_index(t, p, i + 1)
    }
}

/// `first_match_index` finds the first occurrence at or after `i`.
pub proof fn lemma_first_match_index(t: Seq<u8>, p: Seq<u8>, i: int)
    requires
        0 <= i,
    ensures
        match first_match_index(t, p, i) {
            Some(j) => i <= j && j + p.len() <= t.len() && t.subrange(j, j + p.len() as int) == p
                && forall|k: int|
                i <= k < j ==> #[trigger] t.subrange(k, k + p.len() as int) != p,
            None => forall|k: int|
                i <= k && k + p.len() <= t.len() ==> #[trigger] t.subrange(k, k + p.len() as int)
                    != p,
        },
    decreases t.len() + 1 - i,
{
    if i + p.len() <= t.len() && t.subrange(i, i + p.len() as int) != p {
        lemma_first_match_index(t, p, i + 1);
    }
}

/// Find the first occurrence of `p` in `t`.
pub fn find_sub(t: &[u8], p: &[u8]) -> (r: Option<usize>)
    ensures
        match r {
            Some(i) => first_match_index(t@, p@, 0) == Some(i as int),
            None => first_match_index(t@, p@, 0) is None,
        },
{
    proof {
        lemma_first_match_index(t@, p@, 0);
    }
    if p.len() > t.len() {
        return None;
    }
    if p.len() == 0 {
        proof {
            assert(t@.subrange(0, 0) =~= p@);
        }
        return Some(0);
    }
    let mut i: usize = 0;
    let last = t.len() - p.len();
    while i <= last
        invariant
            t@.len() <= usize::MAX,
            1 <= p@.len() <= t@.len(),
            last == t@.len() - p@.len(),
            i <= last + 1,
            forall|k: int| 0 <= k < i ==> #[trigger] t@.subrange(k, k + p@.len()) != p@,
            match first_match_index(t@, p@, 0) {
                Some(j) => 0 <= j && j + p@.len() <= t@.len() && t@.subrange(j, j + p@.len() as int)
                    == p@ && forall|k: int|
                    0 <= k < j ==> #[trigger] t@.subrange(k, k + p@.len() as int) != p@,
                None => forall|k: int|
                    0 <= k && k + p@.len() <= t@.len() ==> #[trigger] t@.subrange(
                        k,
                        k + p@.len() as int,
                    ) != p@,
            },
        decreases last + 1 - i,
    {
        if matches_at(t, p, i) {
            proof {
                let j = first_match_index(t@, p@, 0)->Some_0;
                assert(!(j < i) && !(i < j));
            }
            return Some(i);
        }
        i = i + 1;
    }
    None
}

/// Case-insensitive (ASCII) substring search.
pub fn contains_ci_bytes(t: &[u8], p: &[u8]) -> (r: bool)
    ensures
        r == contains_ci(t@, p@),
{
    let lt = lower_vec(t);
    let lp = lower_vec(p);
    contains_sub(lt.as_slice(), lp.as_slice())
}

/// First index of byte `b` in `t`, if any.
pub open spec fn first_index_of(t: Seq<u8>, b: u8) -> Option<int>
    decreases t.len(),
{
    if t.len() == 0 {
        None
    } else if t[0] == b {
        Some(0)
    } else {
        match first_index_of(t.drop_first(), b) {
            Some(i) => Some(i + 1),
            None => None,
        }
    }
}

/// `first_index_of` finds the first occurrence.
pub proof fn lemma_first_index_of(t: Seq<u8>, b: u8)
    ensures
        match first_index_of(t, b) {
            Some(i) => 0 <= i < t.len() && t[i] == b && forall|j: int| 0 <= j < i ==> t[j] != b,
            None => forall|j: int| 0 <= j < t.len() ==> t[j] != b,
        },
    decreases t.len(),
{
    if t.len() > 0 && t[0] != b {
        lemma_first_index_of(t.drop_first(), b);
        assert(forall|j: int| 0 < j < t.len() ==> t[j] == t.drop_first()[j - 1]);
    }
}

/// Find the first occurrence of byte `b` in `t`.
pub fn find_byte(t: &[u8], b: u8) -> (r: Option<usize>)
    ensures
        match r {
            Some(i) => first_index_of(t@, b) == Some(i as int),
            None => first_index_of(t@, b) is None,
        },
{
    proof {
        lemma_first_index_of(t@, b);
    }
    let mut i: usize = 0;
    while i < t.len()
        invariant
            i <= t@.len(),
            forall|j: int| 0 <= j < i ==> t@[j] != b,
            match first_index_of(t@, b) {
                Some(k) => 0 <= k < t@.len() && t@[k] == b && forall|j: int|
                    0 <= j < k ==> t@[j] != b,
                None => forall|j: int| 0 <= j < t@.len() ==> t@[j] != b,
            },
        decreases t@.len() - i,
    {
        if t[i] == b {
            proof {
                let k = first_index_of(t@, b)->Some_0;
                assert(!(k < i) && !(i < k));
            }
            return Some(i);
        }
        i = i + 1;
    }
    None
}

/// ASCII whitespace.
pub open spec fn is_space(b: u8) -> bool {
    b == 32 || (9 <= b && b <= 13)
}

/// The whitespace-separated words of `s` from position `i`, with `cur`
/// the word in progress.
pub open spec fn words_acc(s: Seq<u8>, i: int, cur: Seq<u8>) -> Seq<Seq<u8>>
    decreases s.len() - i,
{
    if i < 0 || i >= s.len() {
        if cur.len() > 0 {
            seq![cur]
        } else {
            Seq::empty()
        }
    } else if is_space(s[i]) {
        (if cur.len() > 0 {
            seq![cur]
        } else {
            Seq::<Seq<u8>>::empty()
        }) + words_acc(s, i + 1, Seq::empty())
    } else {
        words_acc(s, i + 1, cur.push(s[i]))
    }
}

/// The whitespace-separated words of `s`.
pub open spec fn words(s: Seq<u8>) -> Seq<Seq<u8>> {
    words_acc(s, 0, Seq::empty())
}


/// Split a byte string into whitespace-separated words.
pub fn split_words(s: &[u8]) -> (r: Vec<Vec<u8>>)
    ensures
        r.deep_view() == words(s@),
{
    let mut out: Vec<Vec<u8>> = Vec::new();
    let mut cur: Vec<u8> = Vec::new();
    let mut i: usize = 0;
    proof {
        assert(out.deep_view() + words_acc(s@, 0, cur@) =~~= words(s@));
    }
    while i < s.len()
        invariant
            i <= s@.len(),
            words(s@) == out.deep_view() + words_acc(s@, i as int, cur@),
        decreases s@.len() - i,
    {
        let b = s[i];
        if b == 32 || (9 <= b && b <= 13) {
            if cur.len() > 0 {
                proof {
                    assert(words_acc(s@, i as int, cur@) == seq![cur@] + words_acc(
                        s@,
                        i + 1,
                        Seq::<u8>::empty(),
                    ));
                }
                out.push(cur);
                cur = Vec::new();
                proof {
                    assert(out.deep_view() + words_acc(s@, i + 1, cur@) =~~= words(s@));
                }
            } else {
                proof {
                    assert(cur@ =~= Seq::<u8>::empty());
                    assert(out.deep_view() + words_acc(s@, i + 1, cur@) =~~= words(s@));
                }
            }
        } else {
            proof {
                assert(words_acc(s@, i as int, cur@) == words_acc(s@, i + 1, cur@.push(s@[i as int])));
            }
            cur.push(b);
        }
        i = i + 1;
    }
    if cur.len() > 0 {
        proof {
            assert(words_acc(s@, i as int, cur@) =~~= seq![cur@]);
        }
        out.push(cur);
        proof {
            assert(out.deep_view() =~~= words(s@));
        }
    } else {
        proof {
            assert(words_acc(s@, i as int, cur@) =~~= Seq::<Seq<u8>>::empty());
            assert(out.deep_view() =~~= words(s@));
        }
    }
    out
}


/// ASCII upper-casing of a single byte.
pub open spec fn upper_byte(b: u8) -> u8 {
    if 97 <= b && b <= 122 {
        (b - 32) as u8
    } else {
        b
    }
}

/// ASCII upper-casing of a byte sequence.
pub open spec fn upper_bytes(s: Seq<u8>) -> Seq<u8> {
    s.map(|_i: int, b: u8| upper_byte(b))
}

/// Upper-case a byte slice (ASCII).
pub fn upper_vec(s: &[u8]) -> (r: Vec<u8>)
    ensures
        r@ == upper_bytes(s@),
{
    let mut r: Vec<u8> = Vec::new();
    let mut i: usize = 0;
    while i < s.len()
        invariant
            i <= s@.len(),
            r@.len() == i,
            forall|k: int| 0 <= k < i ==> r@[k] == upper_byte(s@[k]),
        decreases s@.len() - i,
    {
        let b = s[i];
        let ub: u8 = if 97 <= b && b <= 122 {
            b - 32
        } else {
            b
        };
        r.push(ub);
        i = i + 1;
    }
    proof {
        assert(r@ =~= upper_bytes(s@));
    }
    r
}

/// The sequence without its leading bytes that satisfy `pred`.
pub open spec fn trim_front_if(s: Seq<u8>, pred: spec_fn(u8) -> bool) -> Seq<u8>
    decreases s.len(),
{
    if s.len() > 0 && pred(s[0]) {
        trim_front_if(s.drop_first(), pred)
    } else {
        s
    }
}

/// The sequence without its trailing bytes that satisfy `pred`.
pub open spec fn trim_back_if(s: Seq<u8>, pred: spec_fn(u8) -> bool) -> Seq<u8>
    decreases s.len(),
{
    if s.len() > 0 && pred(s.last()) {
        trim_back_if(s.drop_last(), pred)
    } else {
        s
    }
}

/// The sequence without leading or trailing bytes that satisfy `pred`.
pub open spec fn trim_if(s: Seq<u8>, pred: spec_fn(u8) -> bool) -> Seq<u8> {
    trim_back_if(trim_front_if(s, pred), pred)
}

/// When the first `i` bytes satisfy `pred` and byte `i` does not,
/// front-trimming drops exactly those `i` bytes.
pub proof fn lemma_trim_front_if(s: Seq<u8>, pred: spec_fn(u8) -> bool, i: int)
    requires
        0 <= i <= s.len(),
        forall|k: int| 0 <= k < i ==> pred(#[trigger] s[k]),
        i == s.len() || !pred(s[i]),
    ensures
        trim_front_if(s, pred) == s.skip(i),
    decreases i,
{
    if i == 0 {
        assert(trim_front_if(s, pred) =~= s.skip(0));
    } else {
        assert(pred(s[0]));
        let t = s.drop_first();
        assert(forall|k: int| 0 <= k < i - 1 ==> pred(#[trigger] t[k]));
        lemma_trim_front_if(t, pred, i - 1);
        assert(t.skip(i - 1) =~= s.skip(i));
    }
}

/// When the bytes from `j` on satisfy `pred` and byte `j - 1` does not,
/// back-trimming keeps exactly the first `j` bytes.
pub proof fn lemma_trim_back_if(s: Seq<u8>, pred: spec_fn(u8) -> bool, j: int)
    requires
        0 <= j <= s.len(),
        forall|k: int| j <= k < s.len() ==> pred(#[trigger] s[k]),
        j == 0 || !pred(s[j - 1]),
    ensures
        trim_back_if(s, pred) == s.take(j),
    decreases s.len() - j,
{
    if j == s.len() {
        assert(trim_back_if(s, pred) =~= s.take(j));
    } else {
        assert(pred(s.last()));
        let t = s.drop_last();
        assert(forall|k: int| j <= k < t.len() ==> pred(#[trigger] t[k]));
        lemma_trim_back_if(t, pred, j);
        assert(t.take(j) =~= s.take(j));
    }
}

/// The whitespace predicate as a value.
pub open spec fn space_pred() -> spec_fn(u8) -> bool {
    |b: u8| is_space(b)
}

/// The comma-or-dot predicate as a value.
pub open spec fn punct_pred() -> spec_fn(u8) -> bool {
    |b: u8| b == 44 || b == 46
}

/// ASCII whitespace trim.
pub open spec fn trim_spaces(s: Seq<u8>) -> Seq<u8> {
    trim_if(s, space_pred())
}

/// Comma-and-dot trim.
pub open spec fn trim_punct(s: Seq<u8>) -> Seq<u8> {
    trim_if(s, punct_pred())
}

/// Trim leading and trailing ASCII whitespace.
pub fn trim_spaces_exec(s: &[u8]) -> (r: Vec<u8>)
    ensures
        r@ == trim_spaces(s@),
{
    trim_exec_by(s, true)
}

/// Trim leading and trailing commas and dots.
pub fn trim_punct_exec(s: &[u8]) -> (r: Vec<u8>)
    ensures
        r@ == trim_punct(s@),
{
    trim_exec_by(s, false)
}

/// Does this byte fall to the chosen trim predicate?
fn trim_pred_exec(spaces: bool, b: u8) -> (r: bool)
    ensures
        spaces ==> r == space_pred()(b),
        !spaces ==> r == punct_pred()(b),
{
    if spaces {
        b == 32 || (9 <= b && b <= 13)
    } else {
        b == 44 || b == 46
    }
}

/// Trim by one of the two fixed predicates: whitespace, or punctuation.
#[verifier::loop_isolation(false)]
fn trim_exec_by(s: &[u8], spaces: bool) -> (r: Vec<u8>)
    ensures
        spaces ==> r@ == trim_spaces(s@),
        !spaces ==> r@ == trim_punct(s@),
{
    let ghost pred = if spaces {
        space_pred()
    } else {
        punct_pred()
    };
    let mut start: usize = 0;
    while start < s.len() && trim_pred_exec(spaces, s[start])
        invariant
            start <= s@.len(),
            forall|k: int| 0 <= k < start ==> pred(#[trigger] s@[k]),
        decreases s@.len() - start,
    {
        start = start + 1;
    }
    proof {
        lemma_trim_front_if(s@, pred, start as int);
    }
    let ghost f = s@.skip(start as int);
    let mut end: usize = s.len();
    while end > start && trim_pred_exec(spaces, s[end - 1])
        invariant
            start <= end <= s@.len(),
            forall|k: int| end <= k < s@.len() ==> pred(#[trigger] s@[k]),
        decreases end,
    {
        end = end - 1;
    }
    proof {
        assert(forall|k: int| end - start <= k < f.len() ==> pred(#[trigger] f[k]));
        lemma_trim_back_if(f, pred, end - start);
    }
    let mut r: Vec<u8> = Vec::new();
    let mut i: usize = start;
    while i < end
        invariant
            start <= i <= end <= s@.len(),
            r@.len() == i - start,
            forall|k: int| 0 <= k < r@.len() ==> r@[k] == s@[start + k],
        decreases end - i,
    {
        r.push(s[i]);
        i = i + 1;
    }
    proof {
        assert(r@ =~= f.take(end - start));
    }
    r
}

/// The bytes of `s` below 128, in order.
pub open spec fn filter_ascii(s: Seq<u8>) -> Seq<u8>
    decreases s.len(),
{
    if s.len() == 0 {
        Seq::empty()
    } else {
        filter_ascii(s.drop_last()) + (if s.last() < 128 {
            seq![s.last()]
        } else {
            Seq::<u8>::empty()
        })
    }
}

/// Keep the bytes below 128, in order.
pub fn filter_ascii_exec(s: &[u8]) -> (r: Vec<u8>)
    ensures
        r@ == filter_ascii(s@),
        forall|k: int| 0 <= k < r@.len() ==> r@[k] < 128,
{
    let mut r: Vec<u8> = Vec::new();
    let mut i: usize = 0;
    while i < s.len()
        invariant
            i <= s@.len(),
            r@ == filter_ascii(s@.subrange(0, i as int)),
            forall|k: int| 0 <= k < r@.len() ==> r@[k] < 128,
        decreases s@.len() - i,
    {
        let b = s[i];
        proof {
            assert(s@.subrange(0, i + 1).drop_last() == s@.subrange(0, i as int));
            assert(s@.subrange(0, i + 1).last() == s@[i as int]);
        }
        if b < 128 {
            r.push(b);
            proof {
                assert(r@ =~= filter_ascii(s@.subrange(0, i + 1)));
            }
        } else {
            proof {
                assert(r@ =~= filter_ascii(s@.subrange(0, i + 1)));
            }
        }
        i = i + 1;
    }
    proof {
        assert(s@.subrange(0, s@.len() as int) == s@);
    }
    r
}

/// The segments of `s` between occurrences of `sep`, from position `i`
/// with `cur` the segment in progress; empty segments are kept.
pub open spec fn split_acc(s: Seq<u8>, sep: u8, i: int, cur: Seq<u8>) -> Seq<Seq<u8>>
    decreases s.len() - i,
{
    if i < 0 || i >= s.len() {
        seq![cur]
    } else if s[i] == sep {
        seq![cur] + split_acc(s, sep, i + 1, Seq::empty())
    } else {
        split_acc(s, sep, i + 1, cur.push(s[i]))
    }
}

/// The segments of `s` between occurrences of `sep`; empty segments are
/// kept, and there is always at least one segment.
pub open spec fn split_all(s: Seq<u8>, sep: u8) -> Seq<Seq<u8>> {
    split_acc(s, sep, 0, Seq::empty())
}

/// A byte property that holds throughout `s` and `cur` holds throughout
/// every segment of the split.
pub proof fn lemma_split_acc_bytes(
    s: Seq<u8>,
    sep: u8,
    i: int,
    cur: Seq<u8>,
    pred: spec_fn(u8) -> bool,
)
    requires
        forall|k: int| 0 <= k < s.len() ==> pred(#[trigger] s[k]),
        forall|k: int| 0 <= k < cur.len() ==> pred(#[trigger] cur[k]),
    ensures
        forall|a: int, b: int|
            0 <= a < split_acc(s, sep, i, cur).len() && 0 <= b < split_acc(s, sep, i, cur)[a].len()
                ==> pred(#[trigger] split_acc(s, sep, i, cur)[a][b]),
    decreases s.len() - i,
{
    if 0 <= i < s.len() {
        if s[i] == sep {
            lemma_split_acc_bytes(s, sep, i + 1, Seq::empty(), pred);
            let rec = split_acc(s, sep, i + 1, Seq::<u8>::empty());
            assert forall|a: int, b: int|
                0 <= a < split_acc(s, sep, i, cur).len() && 0 <= b < split_acc(
                    s,
                    sep,
                    i,
                    cur,
                )[a].len() implies pred(#[trigger] split_acc(s, sep, i, cur)[a][b]) by {
                if a == 0 {
                    assert(split_acc(s, sep, i, cur)[a] == cur);
                } else {
                    assert(split_acc(s, sep, i, cur)[a] == rec[a - 1]);
                    assert(pred(rec[a - 1][b]));
                }
            };
        } else {
            assert(forall|k: int|
                0 <= k < cur.push(s[i]).len() ==> pred(#[trigger] cur.push(s[i])[k]));
            lemma_split_acc_bytes(s, sep, i + 1, cur.push(s[i]), pred);
            let rec = split_acc(s, sep, i + 1, cur.push(s[i]));
            assert forall|a: int, b: int|
                0 <= a < split_acc(s, sep, i, cur).len() && 0 <= b < split_acc(
                    s,
                    sep,
                    i,
                    cur,
                )[a].len() implies pred(#[trigger] split_acc(s, sep, i, cur)[a][b]) by {
                assert(split_acc(s, sep, i, cur)[a] == rec[a]);
                assert(pred(rec[a][b]));
            };
        }
    }
}

/// Split a byte string on a separator, keeping empty segments.
pub fn split_exec(s: &[u8], sep: u8) -> (r: Vec<Vec<u8>>)
    ensures
        r.deep_view() == split_all(s@, sep),
{
    let mut out: Vec<Vec<u8>> = Vec::new();
    let mut cur: Vec<u8> = Vec::new();
    let mut i: usize = 0;
    proof {
        assert(out.deep_view() + split_acc(s@, sep, 0, cur@) =~~= split_all(s@, sep));
    }
    while i < s.len()
        invariant
            i <= s@.len(),
            split_all(s@, sep) == out.deep_view() + split_acc(s@, sep, i as int, cur@),
        decreases s@.len() - i,
    {
        let b = s[i];
        if b == sep {
            proof {
                assert(split_acc(s@, sep, i as int, cur@) == seq![cur@] + split_acc(
                    s@,
                    sep,
                    i + 1,
                    Seq::<u8>::empty(),
                ));
            }
            out.push(cur);
            cur = Vec::new();
            proof {
                assert(out.deep_view() + split_acc(s@, sep, i + 1, cur@) =~~= split_all(s@, sep));
            }
        } else {
            proof {
                assert(split_acc(s@, sep, i as int, cur@) == split_acc(
                    s@,
                    sep,
                    i + 1,
                    cur@.push(s@[i as int]),
                ));
            }
            cur.push(b);
        }
        i = i + 1;
    }
    proof {
        assert(split_acc(s@, sep, i as int, cur@) =~~= seq![cur@]);
    }
    out.push(cur);
    proof {
        assert(out.deep_view() =~~= split_all(s@, sep));
    }
    out
}

} // verus!
