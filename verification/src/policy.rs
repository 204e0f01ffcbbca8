//! Policy engine: deterministic symbolic rules.
//!
//! Amount rules bound monetary actions by the configured thresholds;
//! structural rules catch degenerate transfers and force review of
//! critical action classes; a text heuristic covers unclassified
//! actions. Amounts are integer cents throughout.

use vstd::prelude::*;
use vstd::string::StringExecFns;

use crate::action::{ActionType, AgentAction, Payload};
use crate::config::SafetyConfig;
use crate::evaluation::DecisionStatus;
use crate::text::{
    bytes_eq, contains_ci, contains_ci_bytes, find_byte, find_sub, first_index_of,
    first_match_index, lemma_first_index_of, lemma_first_match_index, lower_bytes, lower_vec,
    split_words, utf8_bytes, words,
};

verus! {

/// A rule as the contracts see it: identifier, description,
/// suggests-block flag, requires-review flag.
pub type RuleSpec = (Seq<char>, Seq<char>, bool, bool);

/// A rule that triggered during evaluation.
#[derive(Debug, Clone)]
pub struct TriggeredRule {
    /// Stable identifier for the rule.
    pub rule_id: String,
    /// Human-readable description.
    pub description: String,
    /// Whether this rule suggests blocking.
    pub suggests_block: bool,
    /// Whether this rule requires human review.
    pub requires_hitl: bool,
}

/// The spec-level view of a list of triggered rules.
pub open spec fn rule_views(rs: Seq<TriggeredRule>) -> Seq<RuleSpec> {
    rs.map(|_i: int, r: TriggeredRule| (r.rule_id@, r.description@, r.suggests_block, r.requires_hitl))
}

// ---------------------------------------------------------------------
// Amount extraction from free text.
// ---------------------------------------------------------------------

/// Decimal digit.
pub open spec fn is_digit(b: u8) -> bool {
    48 <= b && b <= 57
}

/// A character that may appear in a written amount: digit, comma, dot.
pub open spec fn is_amount_char(b: u8) -> bool {
    is_digit(b) || b == 44 || b == 46
}

/// Every byte is a decimal digit.
pub open spec fn all_digits(s: Seq<u8>) -> bool {
    forall|i: int| 0 <= i < s.len() ==> is_digit(#[trigger] s[i])
}

/// The value of a digit string, most significant first.
pub open spec fn digits_value(s: Seq<u8>) -> int
    decreases s.len(),
{
    if s.len() == 0 {
        0
    } else {
        digits_value(s.drop_last()) * 10 + (s.last() - 48)
    }
}

/// A digit string has a non-negative value.
pub proof fn lemma_digits_value_nonneg(s: Seq<u8>)
    requires
        all_digits(s),
    ensures
        digits_value(s) >= 0,
    decreases s.len(),
{
    if s.len() > 0 {
        assert(all_digits(s.drop_last()));
        lemma_digits_value_nonneg(s.drop_last());
    }
}

/// The cent value of the fractional digits: at most the first two count.
pub open spec fn frac_cents(fp: Seq<u8>) -> int {
    if fp.len() == 0 {
        0
    } else if fp.len() == 1 {
        (fp[0] - 48) * 10
    } else {
        (fp[0] - 48) * 10 + (fp[1] - 48)
    }
}

/// Parse integer and fractional digit parts into cents.
pub open spec fn parse_parts(ip: Seq<u8>, fp: Seq<u8>) -> Option<int> {
    if all_digits(ip) && all_digits(fp) && ip.len() + fp.len() > 0 {
        Some(digits_value(ip) * 100 + frac_cents(fp))
    } else {
        None
    }
}

/// Parse a cleaned amount string (digits and at most one dot) as cents.
pub open spec fn parse_cents(s: Seq<u8>) -> Option<int> {
    match first_index_of(s, 46) {
        Some(d) => parse_parts(s.take(d), s.skip(d + 1)),
        None => parse_parts(s, Seq::<u8>::empty()),
    }
}

/// Clamp a mathematical integer into the i64 range.
pub open spec fn sat_i64(v: int) -> i64 {
    if v > i64::MAX {
        i64::MAX
    } else if v < i64::MIN {
        i64::MIN
    } else {
        v as i64
    }
}

/// `parse_cents`, saturated to i64.
pub open spec fn parse_cents_sat(s: Seq<u8>) -> Option<i64> {
    match parse_cents(s) {
        Some(v) => Some(sat_i64(v)),
        None => None,
    }
}

/// The digits and dots of `w`, in order; everything else is dropped.
pub open spec fn keep_amount_digits(w: Seq<u8>) -> Seq<u8>
    decreases w.len(),
{
    if w.len() == 0 {
        Seq::empty()
    } else {
        keep_amount_digits(w.drop_last()) + (if is_digit(w.last()) || w.last() == 46 {
            seq![w.last()]
        } else {
            Seq::<u8>::empty()
        })
    }
}

/// The run of amount characters starting at position `i`.
pub open spec fn amount_run(s: Seq<u8>, i: int) -> Seq<u8>
    decreases s.len() - i,
{
    if i < 0 || i >= s.len() || !is_amount_char(s[i]) {
        Seq::empty()
    } else {
        seq![s[i]] + amount_run(s, i + 1)
    }
}

/// The first digit position at or after `i`.
pub open spec fn first_digit_index(s: Seq<u8>, i: int) -> Option<int>
    decreases s.len() - i,
{
    if i < 0 || i >= s.len() {
        None
    } else if is_digit(s[i]) {
        Some(i)
    } else {
        first_digit_index(s, i + 1)
    }
}

/// A word naming the dollar currency.
pub open spec fn is_currency_word(w: Seq<u8>) -> bool {
    w == utf8_bytes("dollars"@) || w == utf8_bytes("dollar"@) || w == utf8_bytes("usd"@)
}

/// The positive cent amount a single word denotes, if any.
pub open spec fn word_amount(w: Seq<u8>) -> Option<i64> {
    match parse_cents_sat(keep_amount_digits(w)) {
        Some(v) => if v > 0 {
            Some(v)
        } else {
            None
        },
        None => None,
    }
}

/// Scan words from index `i` for a currency word preceded by a number.
pub open spec fn currency_scan(ws: Seq<Seq<u8>>, i: int) -> Option<i64>
    decreases ws.len() - i,
{
    if i < 0 || i >= ws.len() {
        None
    } else {
        let attempt = if i > 0 && is_currency_word(ws[i]) {
            word_amount(ws[i - 1])
        } else {
            None::<i64>
        };
        if attempt is Some {
            attempt
        } else {
            currency_scan(ws, i + 1)
        }
    }
}

/// The amount written as `$` followed by digits, if any.
pub open spec fn dollar_amount(t: Seq<u8>) -> Option<i64> {
    match first_index_of(t, 36) {
        Some(d) => word_amount(amount_run(t, d + 1)),
        None => None,
    }
}

/// The positive amount of the first digit run at or after `pos`.
pub open spec fn verb_amount_after(lt: Seq<u8>, pos: int) -> Option<i64> {
    match first_digit_index(lt, pos) {
        Some(ds) => word_amount(amount_run(lt, ds)),
        None => None,
    }
}

/// The amount following the first occurrence of `verb`, if any.
pub open spec fn verb_scan_one(lt: Seq<u8>, verb: Seq<char>) -> Option<i64> {
    match first_match_index(lt, utf8_bytes(verb), 0) {
        Some(vi) => verb_amount_after(lt, vi + utf8_bytes(verb).len()),
        None => None,
    }
}

/// The financial verbs tried for amount extraction, in order.
pub open spec fn financial_verbs() -> Seq<Seq<char>> {
    seq!["transfer"@, "send"@, "pay"@, "wire"@, "withdraw"@]
}

/// Try each verb in order for a following amount.
pub open spec fn verb_scan(lt: Seq<u8>, vs: Seq<Seq<char>>, i: int) -> Option<i64>
    decreases vs.len() - i,
{
    if i < 0 || i >= vs.len() {
        None
    } else {
        let a = verb_scan_one(lt, vs[i]);
        if a is Some {
            a
        } else {
            verb_scan(lt, vs, i + 1)
        }
    }
}

/// The amount, in cents, that free text mentions. Three patterns are
/// tried in order: a `$` prefix, a number before a currency word, and a
/// number after a financial verb.
pub open spec fn text_amount(t: Seq<char>) -> Option<i64> {
    let raw = utf8_bytes(t);
    let low = lower_bytes(raw);
    match dollar_amount(raw) {
        Some(v) => Some(v),
        None => match currency_scan(words(low), 0) {
            Some(v) => Some(v),
            None => verb_scan(low, financial_verbs(), 0),
        },
    }
}

// ---------------------------------------------------------------------
// Executable amount extraction.
// ---------------------------------------------------------------------

/// Collect the run of amount characters starting at `start`.
fn amount_run_exec(s: &[u8], start: usize) -> (r: Vec<u8>)
    ensures
        r@ == amount_run(s@, start as int),
{
    let mut r: Vec<u8> = Vec::new();
    let mut i: usize = start;
    while i < s.len()
        invariant
            start <= i,
            amount_run(s@, start as int) == r@ + amount_run(s@, i as int),
        ensures
            amount_run(s@, start as int) == r@,
        decreases s@.len() - i,
    {
        let b = s[i];
        if !(48 <= b && b <= 57 || b == 44 || b == 46) {
            proof {
                assert(amount_run(s@, i as int) =~= Seq::<u8>::empty());
                assert(r@ + amount_run(s@, i as int) =~= r@);
            }
            break;
        }
        r.push(b);
        proof {
            assert(amount_run(s@, i as int) == seq![s@[i as int]] + amount_run(s@, i + 1));
            assert(r@ + amount_run(s@, i + 1) =~= amount_run(s@, start as int));
        }
        i = i + 1;
    }
    r
}

/// Keep the digits and dots of `w`, in order.
fn keep_amount_digits_exec(w: &[u8]) -> (r: Vec<u8>)
    ensures
        r@ == keep_amount_digits(w@),
{
    let mut r: Vec<u8> = Vec::new();
    let mut i: usize = 0;
    while i < w.len()
        invariant
            i <= w@.len(),
            r@ == keep_amount_digits(w@.subrange(0, i as int)),
        decreases w@.len() - i,
    {
        let b = w[i];
        proof {
            assert(w@.subrange(0, i + 1).drop_last() == w@.subrange(0, i as int));
            assert(w@.subrange(0, i + 1).last() == w@[i as int]);
        }
        if 48 <= b && b <= 57 || b == 46 {
            r.push(b);
            proof {
                assert(r@ =~= keep_amount_digits(w@.subrange(0, i + 1)));
            }
        } else {
            proof {
                assert(r@ =~= keep_amount_digits(w@.subrange(0, i + 1)));
            }
        }
        i = i + 1;
    }
    proof {
        assert(w@.subrange(0, w@.len() as int) == w@);
    }
    r
}

/// Parse a cleaned amount string as cents, saturating at i64::MAX.
#[verifier::loop_isolation(false)]
fn parse_cents_exec(s: &[u8]) -> (r: Option<i64>)
    ensures
        r == parse_cents_sat(s@),
{
    let n = s.len();
    proof {
        lemma_first_index_of(s@, 46);
    }
    let dot = find_byte(s, 46);
    let ip_end: usize;
    let fp_start: usize;
    match dot {
        Some(d) => {
            ip_end = d;
            fp_start = d + 1;
        },
        None => {
            ip_end = s.len();
            fp_start = s.len();
        },
    }
    let ghost ip = if fp_start <= s@.len() && ip_end < fp_start {
        s@.take(ip_end as int)
    } else {
        s@
    };
    let ghost fp = if fp_start <= s@.len() && ip_end < fp_start {
        s@.skip(fp_start as int)
    } else {
        Seq::<u8>::empty()
    };
    proof {
        match first_index_of(s@, 46) {
            Some(d) => {
                assert(ip == s@.take(d) && fp == s@.skip(d + 1));
            },
            None => {
                assert(ip =~= s@ && fp == Seq::<u8>::empty());
            },
        }
        assert(parse_cents(s@) == parse_parts(ip, fp));
    }

    // Validate digits.
    let mut i: usize = 0;
    while i < ip_end
        invariant
            ip_end <= s@.len(),
            i <= ip_end,
            ip.len() == ip_end,
            forall|k: int| 0 <= k < ip.len() ==> ip[k] == s@[k],
            forall|k: int| 0 <= k < i ==> is_digit(#[trigger] ip[k]),
        decreases ip_end - i,
    {
        let b = s[i];
        if !(48 <= b && b <= 57) {
            proof {
                assert(ip[i as int] == s@[i as int]);
                assert(!is_digit(ip[i as int]));
                assert(!all_digits(ip));
                assert(parse_parts(ip, fp) is None);
                assert(parse_cents(s@) is None);
                assert(parse_cents_sat(s@) is None);
            }
            return None;
        }
        i = i + 1;
    }
    proof {
        assert(all_digits(ip));
    }
    let mut j: usize = fp_start;
    while j < s.len()
        invariant
            fp_start <= s@.len() || fp.len() == 0,
            fp_start <= j,
            j <= s@.len() || j == fp_start,
            fp.len() == s@.len() - fp_start || (fp.len() == 0 && fp_start == s@.len()),
            forall|k: int| 0 <= k < fp.len() ==> fp[k] == s@[fp_start + k],
            forall|k: int| 0 <= k < j - fp_start ==> is_digit(#[trigger] fp[k]),
        decreases s@.len() - j,
    {
        let b = s[j];
        if !(48 <= b && b <= 57) {
            proof {
                assert(!is_digit(fp[j - fp_start]));
                assert(!all_digits(fp));
                assert(parse_parts(ip, fp) is None);
                assert(parse_cents(s@) is None);
                assert(parse_cents_sat(s@) is None);
            }
            return None;
        }
        j = j + 1;
    }
    proof {
        assert(all_digits(fp));
    }

    if ip_end == 0 && fp_start >= s.len() {
        proof {
            assert(ip.len() + fp.len() == 0);
        }
        return None;
    }
    proof {
        assert(ip.len() + fp.len() > 0);
        lemma_digits_value_nonneg(ip);
    }

    // Integer part, saturating.
    let mut acc: i64 = 0;
    let mut k: usize = 0;
    while k < ip_end
        invariant
            ip_end <= s@.len(),
            k <= ip_end,
            ip.len() == ip_end,
            all_digits(ip),
            forall|m: int| 0 <= m < ip.len() ==> ip[m] == s@[m],
            acc == sat_i64(digits_value(ip.take(k as int))),
            digits_value(ip.take(k as int)) >= 0,
        decreases ip_end - k,
    {
        let b = s[k];
        proof {
            assert(is_digit(ip[k as int]));
        }
        let d: i64 = (b - 48) as i64;
        let ghost x = digits_value(ip.take(k as int));
        proof {
            assert(ip.take(k + 1).drop_last() == ip.take(k as int));
            assert(ip.take(k + 1).last() == ip[k as int]);
            assert(digits_value(ip.take(k + 1)) == x * 10 + d);
            assert(all_digits(ip.take(k + 1)));
            lemma_digits_value_nonneg(ip.take(k + 1));
        }
        acc = match acc.checked_mul(10) {
            Some(m) => match m.checked_add(d) {
                Some(y) => y,
                None => i64::MAX,
            },
            None => i64::MAX,
        };
        proof {
            assert(acc == sat_i64(x * 10 + d));
        }
        k = k + 1;
    }
    proof {
        assert(ip.take(ip.len() as int) == ip);
    }

    // Fractional part: at most the first two digits count.
    let frac_len = s.len() - fp_start;
    let f: i64 = if frac_len == 0 {
        0
    } else if frac_len == 1 {
        ((s[fp_start] - 48) as i64) * 10
    } else {
        ((s[fp_start] - 48) as i64) * 10 + ((s[fp_start + 1] - 48) as i64)
    };
    proof {
        assert(f == frac_cents(fp));
        assert(0 <= frac_cents(fp) < 100);
    }

    let ghost xi = digits_value(ip);
    let total: i64 = match acc.checked_mul(100) {
        Some(m) => match m.checked_add(f) {
            Some(y) => y,
            None => i64::MAX,
        },
        None => i64::MAX,
    };
    proof {
        assert(total == sat_i64(xi * 100 + frac_cents(fp)));
    }
    Some(total)
}

/// Parse a word as a positive cent amount: clean, parse, require > 0.
fn word_amount_exec(w: &[u8]) -> (r: Option<i64>)
    ensures
        r == word_amount(w@),
{
    let cleaned = keep_amount_digits_exec(w);
    match parse_cents_exec(cleaned.as_slice()) {
        Some(v) => if v > 0 {
            Some(v)
        } else {
            None
        },
        None => None,
    }
}

/// Extract an amount in cents from natural-language text: `$` prefix,
/// number before a currency word, or number after a financial verb.
#[verifier::loop_isolation(false)]
pub fn extract_amount_from_text(text: &str) -> (r: Option<i64>)
    ensures
        r == text_amount(text@),
{
    let raw = text.as_bytes();
    let n = raw.len();

    // Pattern 1: $ followed by digits.
    proof {
        lemma_first_index_of(raw@, 36);
    }
    match find_byte(raw, 36) {
        Some(idx) => {
            proof {
                assert(idx < n);
            }
            let run = amount_run_exec(raw, idx + 1);
            match word_amount_exec(run.as_slice()) {
                Some(v) => {
                    proof {
                        assert(dollar_amount(raw@) == Some(v));
                    }
                    return Some(v);
                },
                None => {},
            }
        },
        None => {},
    }

    let low = lower_vec(raw);

    // Pattern 2: a number before "dollars", "dollar" or "usd".
    let ws = split_words(low.as_slice());
    let mut i: usize = 0;
    while i < ws.len()
        invariant
            i <= ws@.len(),
            ws.deep_view() == words(lower_bytes(raw@)),
            currency_scan(ws.deep_view(), 0) == currency_scan(ws.deep_view(), i as int),
        decreases ws@.len() - i,
    {
        proof {
            assert(ws.deep_view()[i as int] =~= ws@[i as int]@);
            if i > 0 {
                assert(ws.deep_view()[i as int - 1] =~= ws@[i as int - 1]@);
            }
        }
        if i > 0 {
            let w = &ws[i];
            if bytes_eq(w.as_slice(), "dollars".as_bytes()) || bytes_eq(
                w.as_slice(),
                "dollar".as_bytes(),
            ) || bytes_eq(w.as_slice(), "usd".as_bytes()) {
                proof {
                    assert(is_currency_word(ws.deep_view()[i as int]));
                }
                match word_amount_exec(ws[i - 1].as_slice()) {
                    Some(v) => {
                        proof {
                            assert(word_amount(ws.deep_view()[i as int - 1]) == Some(v));
                            assert(currency_scan(ws.deep_view(), i as int) == Some(v));
                            assert(currency_scan(words(lower_bytes(raw@)), 0) == Some(v));
                            assert(dollar_amount(raw@) is None);
                            assert(raw@ == utf8_bytes(text@));
                            assert(text_amount(text@) == Some(v));
                        }
                        return Some(v);
                    },
                    None => {},
                }
            }
        }
        proof {
            assert(currency_scan(ws.deep_view(), i as int) == currency_scan(
                ws.deep_view(),
                i + 1,
            ));
        }
        i = i + 1;
    }
    proof {
        assert(currency_scan(ws.deep_view(), ws.deep_view().len() as int) is None);
    }

    // Pattern 3: a number after a financial verb.
    let mut verbs: Vec<&str> = Vec::new();
    verbs.push("transfer");
    verbs.push("send");
    verbs.push("pay");
    verbs.push("wire");
    verbs.push("withdraw");
    proof {
        assert(verbs.deep_view() =~~= financial_verbs());
    }
    let mut v: usize = 0;
    while v < verbs.len()
        invariant
            v <= verbs@.len(),
            verbs.deep_view() == financial_verbs(),
            low@ == lower_bytes(raw@),
            verb_scan(low@, financial_verbs(), 0) == verb_scan(low@, financial_verbs(), v as int),
        decreases verbs@.len() - v,
    {
        proof {
            assert(verbs.deep_view()[v as int] == financial_verbs()[v as int]);
        }
        match verb_after_amount(low.as_slice(), verbs[v]) {
            Some(amt) => {
                proof {
                    assert(verb_scan_one(low@, financial_verbs()[v as int]) == Some(amt));
                    assert(verb_scan(low@, financial_verbs(), v as int) == Some(amt));
                    assert(verb_scan(low@, financial_verbs(), 0) == Some(amt));
                    assert(dollar_amount(raw@) is None);
                    assert(currency_scan(words(lower_bytes(raw@)), 0) is None);
                    assert(text_amount(text@) == Some(amt));
                }
                return Some(amt);
            },
            None => {},
        }
        proof {
            assert(verb_scan_one(low@, financial_verbs()[v as int]) is None);
            assert(verb_scan(low@, financial_verbs(), v as int) == verb_scan(
                low@,
                financial_verbs(),
                v + 1,
            ));
        }
        v = v + 1;
    }
    proof {
        assert(verb_scan(low@, financial_verbs(), financial_verbs().len() as int) is None);
    }
    None
}

/// The amount after the first occurrence of one verb, if any.
#[verifier::loop_isolation(false)]
fn verb_after_amount(lt: &[u8], verb: &str) -> (r: Option<i64>)
    ensures
        r == verb_scan_one(lt@, verb@),
{
    let n = lt.len();
    proof {
        lemma_first_match_index(lt@, utf8_bytes(verb@), 0);
    }
    match find_sub(lt, verb.as_bytes()) {
        Some(vi) => {
            let after_pos = vi + verb.as_bytes().len();
            proof {
                assert(after_pos <= n);
            }
            let mut p: usize = after_pos;
            while p < lt.len() && !(48 <= lt[p] && lt[p] <= 57)
                invariant
                    after_pos <= p,
                    p <= lt@.len() || p == after_pos,
                    first_digit_index(lt@, after_pos as int) == first_digit_index(lt@, p as int),
                decreases lt@.len() - p,
            {
                p = p + 1;
            }
            if p < lt.len() {
                proof {
                    assert(first_digit_index(lt@, p as int) == Some(p as int));
                }
                let run = amount_run_exec(lt, p);
                word_amount_exec(run.as_slice())
            } else {
                proof {
                    assert(first_digit_index(lt@, p as int) is None);
                }
                None
            }
        },
        None => None,
    }
}

// ---------------------------------------------------------------------
// Rules.
// ---------------------------------------------------------------------

/// The payload names the same source and destination account.
pub open spec fn same_account(p: Payload) -> bool {
    &&& p.from_account_id matches Some(f) && p.to_account_id matches Some(t) && f@ == t@
}

/// One of the financial keywords occurs in the intent text.
pub open spec fn financial_keyword_present(t: Seq<u8>) -> bool {
    ||| contains_ci(t, utf8_bytes("transfer"@))
    ||| contains_ci(t, utf8_bytes("send"@))
    ||| contains_ci(t, utf8_bytes("pay"@))
    ||| contains_ci(t, utf8_bytes("wire"@))
    ||| contains_ci(t, utf8_bytes("withdraw"@))
    ||| contains_ci(t, utf8_bytes("deposit"@))
    ||| contains_ci(t, utf8_bytes("move money"@))
    ||| contains_ci(t, utf8_bytes("move funds"@))
    ||| contains_ci(t, utf8_bytes("payment"@))
    ||| contains_ci(t, utf8_bytes("transaction"@))
}

/// The amount rules for a monetary action, in order.
pub open spec fn amount_rules_spec(cfg: SafetyConfig, a: AgentAction) -> Seq<RuleSpec> {
    if a.action_type != ActionType::TransferFunds && a.action_type != ActionType::PayBill {
        Seq::empty()
    } else {
        match a.extract_amount_spec() {
            None => seq![
                ("AMOUNT_MISSING"@, "Monetary action missing amount field"@, false, true),
            ],
            Some(amount) => (if amount > cfg.hitl_threshold {
                seq![
                    (
                        "AMOUNT_EXCEEDS_HITL_THRESHOLD"@,
                        "Amount exceeds HITL threshold"@,
                        false,
                        true,
                    ),
                ]
            } else if amount > cfg.max_auto_amount {
                seq![
                    (
                        "AMOUNT_EXCEEDS_AUTO_LIMIT"@,
                        "Amount exceeds auto-approval limit"@,
                        false,
                        true,
                    ),
                ]
            } else {
                Seq::<RuleSpec>::empty()
            }) + (if amount <= 0 {
                seq![("AMOUNT_INVALID"@, "Invalid amount"@, true, false)]
            } else {
                Seq::<RuleSpec>::empty()
            }) + (if amount > 1000_00 && amount % 1000_00 == 0 {
                seq![
                    (
                        "AMOUNT_SUSPICIOUS_ROUND"@,
                        "Suspiciously round amount may indicate automation"@,
                        false,
                        true,
                    ),
                ]
            } else {
                Seq::<RuleSpec>::empty()
            }),
        }
    }
}

/// The text-heuristic rules for an unclassified action.
pub open spec fn unknown_rules_spec(cfg: SafetyConfig, a: AgentAction) -> Seq<RuleSpec> {
    let has_kw = financial_keyword_present(utf8_bytes(a.original_intent@));
    let amt = text_amount(a.original_intent@);
    if has_kw {
        match amt {
            Some(amount) => if amount > cfg.hitl_threshold {
                seq![
                    (
                        "UNCLASSIFIED_HIGH_VALUE_TRANSFER"@,
                        "Unclassified financial action exceeds threshold"@,
                        true,
                        false,
                    ),
                ]
            } else if amount > cfg.max_auto_amount {
                seq![
                    (
                        "UNCLASSIFIED_TRANSFER_NEEDS_REVIEW"@,
                        "Unclassified financial action requires human review"@,
                        false,
                        true,
                    ),
                ]
            } else {
                seq![
                    (
                        "UNCLASSIFIED_SMALL_TRANSFER"@,
                        "Unclassified financial action flagged for monitoring"@,
                        false,
                        false,
                    ),
                ]
            },
            None => seq![
                (
                    "UNCLASSIFIED_FINANCIAL_INTENT"@,
                    "Unclassified action with financial keywords requires review"@,
                    false,
                    true,
                ),
            ],
        }
    } else {
        match amt {
            Some(amount) => if amount > cfg.max_auto_amount {
                seq![
                    (
                        "UNCLASSIFIED_AMOUNT_DETECTED"@,
                        "Unclassified action mentions an amount above the auto limit"@,
                        false,
                        true,
                    ),
                ]
            } else {
                Seq::<RuleSpec>::empty()
            },
            None => Seq::<RuleSpec>::empty(),
        }
    }
}

/// The structural and action-class rules, in order.
pub open spec fn type_rules_spec(cfg: SafetyConfig, a: AgentAction) -> Seq<RuleSpec> {
    match a.action_type {
        ActionType::TransferFunds => if same_account(a.payload) {
            seq![
                (
                    "TRANSFER_SAME_ACCOUNT"@,
                    "Transfer source and destination are the same"@,
                    true,
                    false,
                ),
            ]
        } else {
            Seq::<RuleSpec>::empty()
        },
        ActionType::AddBeneficiary => seq![
            (
                "ACTION_ADD_BENEFICIARY"@,
                "Adding new beneficiary requires human approval"@,
                false,
                true,
            ),
        ],
        ActionType::CloseAccount => seq![
            (
                "ACTION_CLOSE_ACCOUNT"@,
                "Account closure is a critical action requiring review"@,
                false,
                true,
            ),
        ],
        ActionType::UpdateProfile => seq![
            ("ACTION_UPDATE_PROFILE"@, "Profile updates should be reviewed"@, false, true),
        ],
        ActionType::RequestLoan => seq![
            ("ACTION_REQUEST_LOAN"@, "Loan requests require human verification"@, false, true),
        ],
        ActionType::RefundTransaction => seq![
            ("ACTION_REFUND"@, "Refunds require human approval"@, false, true),
        ],
        ActionType::Unknown => unknown_rules_spec(cfg, a),
        _ => Seq::empty(),
    }
}

/// Every rule the engine reports for this action, in order.
pub open spec fn policy_rules_spec(cfg: SafetyConfig, a: AgentAction) -> Seq<RuleSpec> {
    amount_rules_spec(cfg, a) + type_rules_spec(cfg, a)
}

/// The aggregate decision of a rule list: Block if any rule suggests
/// blocking, else review if any rule requires it, else Allow.
pub open spec fn aggregate_decision(rules: Seq<RuleSpec>) -> DecisionStatus {
    if exists|i: int| 0 <= i < rules.len() && (#[trigger] rules[i]).2 {
        DecisionStatus::Block
    } else if exists|i: int| 0 <= i < rules.len() && (#[trigger] rules[i]).3 {
        DecisionStatus::RequireHitl
    } else {
        DecisionStatus::Allow
    }
}

/// Outcome of policy evaluation.
#[derive(Debug, Clone)]
pub struct PolicyOutcome {
    /// Suggested decision; other layers may override it.
    pub decision_hint: Option<DecisionStatus>,
    /// The rules that triggered, in order.
    pub triggered_rules: Vec<TriggeredRule>,
}

impl PolicyOutcome {
    /// An Allow outcome with no rules.
    pub fn allow() -> (r: PolicyOutcome)
        ensures
            r.decision_hint == Some(DecisionStatus::Allow),
            r.triggered_rules@.len() == 0,
    {
        PolicyOutcome { decision_hint: Some(DecisionStatus::Allow), triggered_rules: Vec::new() }
    }

    /// A RequireHitl outcome with the given rules.
    pub fn require_hitl(rules: Vec<TriggeredRule>) -> (r: PolicyOutcome)
        ensures
            r.decision_hint == Some(DecisionStatus::RequireHitl),
            r.triggered_rules == rules,
    {
        PolicyOutcome { decision_hint: Some(DecisionStatus::RequireHitl), triggered_rules: rules }
    }

    /// A Block outcome with the given rules.
    pub fn block(rules: Vec<TriggeredRule>) -> (r: PolicyOutcome)
        ensures
            r.decision_hint == Some(DecisionStatus::Block),
            r.triggered_rules == rules,
    {
        PolicyOutcome { decision_hint: Some(DecisionStatus::Block), triggered_rules: rules }
    }

    /// The strictest decision this outcome stands for.
    pub open spec fn strictest_spec(self) -> Option<DecisionStatus> {
        if exists|i: int|
            0 <= i < self.triggered_rules@.len() && (
            #[trigger] self.triggered_rules@[i]).suggests_block {
            Some(DecisionStatus::Block)
        } else if exists|i: int|
            0 <= i < self.triggered_rules@.len() && (
            #[trigger] self.triggered_rules@[i]).requires_hitl {
            Some(DecisionStatus::RequireHitl)
        } else {
            self.decision_hint
        }
    }

    /// The strictest decision among the triggered rules, or the hint.
    pub fn strictest_decision(&self) -> (r: Option<DecisionStatus>)
        ensures
            r == self.strictest_spec(),
    {
        let mut any_block = false;
        let mut any_hitl = false;
        let mut i: usize = 0;
        while i < self.triggered_rules.len()
            invariant
                i <= self.triggered_rules@.len(),
                any_block == exists|k: int|
                    0 <= k < i && (#[trigger] self.triggered_rules@[k]).suggests_block,
                any_hitl == exists|k: int|
                    0 <= k < i && (#[trigger] self.triggered_rules@[k]).requires_hitl,
            decreases self.triggered_rules@.len() - i,
        {
            if self.triggered_rules[i].suggests_block {
                any_block = true;
            }
            if self.triggered_rules[i].requires_hitl {
                any_hitl = true;
            }
            i = i + 1;
        }
        if any_block {
            Some(DecisionStatus::Block)
        } else if any_hitl {
            Some(DecisionStatus::RequireHitl)
        } else {
            self.decision_hint
        }
    }

    /// The identifiers of the triggered rules, in order.
    pub fn rule_ids(&self) -> (r: Vec<String>)
        ensures
            r.deep_view() == self.triggered_rules@.map(|_i: int, t: TriggeredRule| t.rule_id@),
    {
        let mut r: Vec<String> = Vec::new();
        let mut i: usize = 0;
        while i < self.triggered_rules.len()
            invariant
                i <= self.triggered_rules@.len(),
                r@.len() == i,
                forall|k: int| 0 <= k < i ==> r@[k]@ == (
                #[trigger] self.triggered_rules@[k]).rule_id@,
            decreases self.triggered_rules@.len() - i,
        {
            r.push(String::from_str(self.triggered_rules[i].rule_id.as_str()));
            i = i + 1;
        }
        proof {
            assert(r.deep_view() =~~= self.triggered_rules@.map(
                |_i: int, t: TriggeredRule| t.rule_id@,
            ));
        }
        r
    }

    /// The descriptions of the triggered rules, in order.
    pub fn descriptions(&self) -> (r: Vec<String>)
        ensures
            r.deep_view() == self.triggered_rules@.map(|_i: int, t: TriggeredRule| t.description@),
    {
        let mut r: Vec<String> = Vec::new();
        let mut i: usize = 0;
        while i < self.triggered_rules.len()
            invariant
                i <= self.triggered_rules@.len(),
                r@.len() == i,
                forall|k: int| 0 <= k < i ==> r@[k]@ == (
                #[trigger] self.triggered_rules@[k]).description@,
            decreases self.triggered_rules@.len() - i,
        {
            r.push(String::from_str(self.triggered_rules[i].description.as_str()));
            i = i + 1;
        }
        proof {
            assert(r.deep_view() =~~= self.triggered_rules@.map(
                |_i: int, t: TriggeredRule| t.description@,
            ));
        }
        r
    }
}

/// Configuration-driven policy engine.
#[derive(Debug, Clone)]
pub struct ConfigPolicyEngine {
    /// The thresholds and keyword lists the rules use.
    pub config: SafetyConfig,
}

/// Build one triggered rule.
fn mk_rule(id: &str, desc: &str, suggests_block: bool, requires_hitl: bool) -> (r: TriggeredRule)
    ensures
        r.rule_id@ == id@,
        r.description@ == desc@,
        r.suggests_block == suggests_block,
        r.requires_hitl == requires_hitl,
{
    TriggeredRule {
        rule_id: String::from_str(id),
        description: String::from_str(desc),
        suggests_block,
        requires_hitl,
    }
}

impl ConfigPolicyEngine {
    /// Create an engine over the given configuration.
    pub fn new(config: SafetyConfig) -> (r: ConfigPolicyEngine)
        ensures
            r.config == config,
    {
        ConfigPolicyEngine { config }
    }

    /// The amount rules for a monetary action.
    fn check_amount_rules(&self, action: &AgentAction) -> (r: Vec<TriggeredRule>)
        ensures
            rule_views(r@) == amount_rules_spec(self.config, *action),
    {
        let mut rules: Vec<TriggeredRule> = Vec::new();

        if !matches!(action.action_type, ActionType::TransferFunds | ActionType::PayBill) {
            proof {
                assert(rule_views(rules@) =~~= amount_rules_spec(self.config, *action));
            }
            return rules;
        }

        let amount = match action.extract_amount() {
            Some(a) => a,
            None => {
                rules.push(
                    mk_rule("AMOUNT_MISSING", "Monetary action missing amount field", false, true),
                );
                proof {
                    assert(rule_views(rules@) =~~= amount_rules_spec(self.config, *action));
                }
                return rules;
            },
        };

        if amount > self.config.hitl_threshold {
            rules.push(
                mk_rule(
                    "AMOUNT_EXCEEDS_HITL_THRESHOLD",
                    "Amount exceeds HITL threshold",
                    false,
                    true,
                ),
            );
        } else if amount > self.config.max_auto_amount {
            rules.push(
                mk_rule(
                    "AMOUNT_EXCEEDS_AUTO_LIMIT",
                    "Amount exceeds auto-approval limit",
                    false,
                    true,
                ),
            );
        }

        if amount <= 0 {
            rules.push(mk_rule("AMOUNT_INVALID", "Invalid amount", true, false));
        }

        if amount > 1000_00 && amount % 1000_00 == 0 {
            rules.push(
                mk_rule(
                    "AMOUNT_SUSPICIOUS_ROUND",
                    "Suspiciously round amount may indicate automation",
                    false,
                    true,
                ),
            );
        }

        proof {
            assert(rule_views(rules@) =~~= amount_rules_spec(self.config, *action));
        }
        rules
    }

    /// The structural and action-class rules.
    fn check_action_type_rules(&self, action: &AgentAction) -> (r: Vec<TriggeredRule>)
        ensures
            rule_views(r@) == type_rules_spec(self.config, *action),
    {
        let mut rules: Vec<TriggeredRule> = Vec::new();

        match action.action_type {
            ActionType::TransferFunds => {
                let same = match (&action.payload.from_account_id, &action.payload.to_account_id) {
                    (Some(f), Some(t)) => *f == *t,
                    _ => false,
                };
                if same {
                    rules.push(
                        mk_rule(
                            "TRANSFER_SAME_ACCOUNT",
                            "Transfer source and destination are the same",
                            true,
                            false,
                        ),
                    );
                }
                proof {
                    assert(same == same_account(action.payload));
                    assert(rule_views(rules@) =~~= type_rules_spec(self.config, *action));
                }
            },
            ActionType::AddBeneficiary => {
                rules.push(
                    mk_rule(
                        "ACTION_ADD_BENEFICIARY",
                        "Adding new beneficiary requires human approval",
                        false,
                        true,
                    ),
                );
                proof {
                    assert(rule_views(rules@) =~~= type_rules_spec(self.config, *action));
                }
            },
            ActionType::CloseAccount => {
                rules.push(
                    mk_rule(
                        "ACTION_CLOSE_ACCOUNT",
                        "Account closure is a critical action requiring review",
                        false,
                        true,
                    ),
                );
                proof {
                    assert(rule_views(rules@) =~~= type_rules_spec(self.config, *action));
                }
            },
            ActionType::UpdateProfile => {
                rules.push(
                    mk_rule(
                        "ACTION_UPDATE_PROFILE",
                        "Profile updates should be reviewed",
                        false,
                        true,
                    ),
                );
                proof {
                    assert(rule_views(rules@) =~~= type_rules_spec(self.config, *action));
                }
            },
            ActionType::RequestLoan => {
                rules.push(
                    mk_rule(
                        "ACTION_REQUEST_LOAN",
                        "Loan requests require human verification",
                        false,
                        true,
                    ),
                );
                proof {
                    assert(rule_views(rules@) =~~= type_rules_spec(self.config, *action));
                }
            },
            ActionType::RefundTransaction => {
                rules.push(
                    mk_rule("ACTION_REFUND", "Refunds require human approval", false, true),
                );
                proof {
                    assert(rule_views(rules@) =~~= type_rules_spec(self.config, *action));
                }
            },
            ActionType::Unknown => {
                let intent = action.original_intent.as_str();
                let t = intent.as_bytes();
                let has_financial_keyword = contains_ci_bytes(t, "transfer".as_bytes())
                    || contains_ci_bytes(t, "send".as_bytes()) || contains_ci_bytes(
                    t,
                    "pay".as_bytes(),
                ) || contains_ci_bytes(t, "wire".as_bytes()) || contains_ci_bytes(
                    t,
                    "withdraw".as_bytes(),
                ) || contains_ci_bytes(t, "deposit".as_bytes()) || contains_ci_bytes(
                    t,
                    "move money".as_bytes(),
                ) || contains_ci_bytes(t, "move funds".as_bytes()) || contains_ci_bytes(
                    t,
                    "payment".as_bytes(),
                ) || contains_ci_bytes(t, "transaction".as_bytes());

                let detected_amount = extract_amount_from_text(intent);

                if has_financial_keyword {
                    match detected_amount {
                        Some(amount) => {
                            if amount > self.config.hitl_threshold {
                                rules.push(
                                    mk_rule(
                                        "UNCLASSIFIED_HIGH_VALUE_TRANSFER",
                                        "Unclassified financial action exceeds threshold",
                                        true,
                                        false,
                                    ),
                                );
                            } else if amount > self.config.max_auto_amount {
                                rules.push(
                                    mk_rule(
                                        "UNCLASSIFIED_TRANSFER_NEEDS_REVIEW",
                                        "Unclassified financial action requires human review",
                                        false,
                                        true,
                                    ),
                                );
                            } else {
                                rules.push(
                                    mk_rule(
                                        "UNCLASSIFIED_SMALL_TRANSFER",
                                        "Unclassified financial action flagged for monitoring",
                                        false,
                                        false,
                                    ),
                                );
                            }
                        },
                        None => {
                            rules.push(
                                mk_rule(
                                    "UNCLASSIFIED_FINANCIAL_INTENT",
                                    "Unclassified action with financial keywords requires review",
                                    false,
                                    true,
                                ),
                            );
                        },
                    }
                } else {
                    match detected_amount {
                        Some(amount) => {
                            if amount > self.config.max_auto_amount {
                                rules.push(
                                    mk_rule(
                                        "UNCLASSIFIED_AMOUNT_DETECTED",
                                        "Unclassified action mentions an amount above the auto limit",
                                        false,
                                        true,
                                    ),
                                );
                            }
                        },
                        None => {},
                    }
                }
                proof {
                    assert(has_financial_keyword == financial_keyword_present(
                        utf8_bytes(action.original_intent@),
                    ));
                    assert(rule_views(rules@) =~~= type_rules_spec(self.config, *action));
                }
            },
            ActionType::GetBalance | ActionType::GetTransactions | ActionType::PayBill => {
                proof {
                    assert(rule_views(rules@) =~~= type_rules_spec(self.config, *action));
                }
            },
        }

        rules
    }

    /// Evaluate every rule family against an action. The outcome lists
    /// the triggered rules in order, and its hint is the aggregate
    /// decision of those rules.
    pub fn evaluate_policies(&self, action: &AgentAction) -> (r: PolicyOutcome)
        ensures
            rule_views(r.triggered_rules@) == policy_rules_spec(self.config, *action),
            r.decision_hint == Some(aggregate_decision(policy_rules_spec(self.config, *action))),
            r.strictest_spec() == Some(aggregate_decision(policy_rules_spec(self.config, *action))),
    {
        let mut all_rules = self.check_amount_rules(action);
        let mut type_rules = self.check_action_type_rules(action);
        all_rules.append(&mut type_rules);
        proof {
            assert(rule_views(all_rules@) =~~= policy_rules_spec(self.config, *action));
        }

        let ghost spec_rules = policy_rules_spec(self.config, *action);

        let mut any_block = false;
        let mut any_hitl = false;
        let mut i: usize = 0;
        while i < all_rules.len()
            invariant
                i <= all_rules@.len(),
                rule_views(all_rules@) == spec_rules,
                any_block == exists|k: int|
                    0 <= k < i && (#[trigger] all_rules@[k]).suggests_block,
                any_hitl == exists|k: int| 0 <= k < i && (#[trigger] all_rules@[k]).requires_hitl,
            decreases all_rules@.len() - i,
        {
            if all_rules[i].suggests_block {
                any_block = true;
            }
            if all_rules[i].requires_hitl {
                any_hitl = true;
            }
            i = i + 1;
        }
        proof {
            assert(spec_rules.len() == all_rules@.len());
            assert(forall|k: int|
                0 <= k < spec_rules.len() ==> (#[trigger] spec_rules[k]).2 == all_rules@[k].suggests_block
                    && spec_rules[k].3 == all_rules@[k].requires_hitl);
            if any_block {
                let k = choose|k: int|
                    0 <= k < all_rules@.len() && (#[trigger] all_rules@[k]).suggests_block;
                assert(0 <= k < spec_rules.len() && (#[trigger] spec_rules[k]).2);
            }
            if exists|k: int| 0 <= k < spec_rules.len() && (#[trigger] spec_rules[k]).2 {
                let k = choose|k: int|
                    0 <= k < spec_rules.len() && (#[trigger] spec_rules[k]).2;
                assert((#[trigger] all_rules@[k]).suggests_block);
                assert(any_block);
            }
            if any_hitl {
                let k = choose|k: int|
                    0 <= k < all_rules@.len() && (#[trigger] all_rules@[k]).requires_hitl;
                assert(0 <= k < spec_rules.len() && (#[trigger] spec_rules[k]).3);
            }
            if exists|k: int| 0 <= k < spec_rules.len() && (#[trigger] spec_rules[k]).3 {
                let k = choose|k: int|
                    0 <= k < spec_rules.len() && (#[trigger] spec_rules[k]).3;
                assert((#[trigger] all_rules@[k]).requires_hitl);
                assert(any_hitl);
            }
            assert(any_block == exists|k: int|
                0 <= k < spec_rules.len() && (#[trigger] spec_rules[k]).2);
            assert(any_hitl == exists|k: int|
                0 <= k < spec_rules.len() && (#[trigger] spec_rules[k]).3);
        }

        let r = if all_rules.len() == 0 {
            PolicyOutcome::allow()
        } else if any_block {
            PolicyOutcome::block(all_rules)
        } else if any_hitl {
            PolicyOutcome::require_hitl(all_rules)
        } else {
            PolicyOutcome { decision_hint: Some(DecisionStatus::Allow), triggered_rules: all_rules }
        };
        proof {
            assert(rule_views(r.triggered_rules@) =~~= policy_rules_spec(self.config, *action));
        }
        r
    }
}

} // verus!
