//! Content-safety guard: configuration for the hosted classifier and the
//! parser for its verdicts.
//!
//! The classifier answers `safe`, or `unsafe` followed by a list of
//! category codes from the MLCommons hazard taxonomy. The network call
//! itself happens outside the library; the verdict text is parsed and
//! mapped to a firewall outcome here. Code handling is ASCII: category
//! codes are short ASCII identifiers.

use vstd::prelude::*;
use vstd::string::StringExecFns;

use crate::firewall::FirewallOutcome;
use crate::text::{
    ascii_to_string, bytes_eq, filter_ascii, filter_ascii_exec, lower_vec, lower_bytes, split_all,
    split_exec, split_words, trim_punct, trim_punct_exec, trim_spaces, trim_spaces_exec,
    upper_bytes, upper_vec, utf8_bytes, words,
};

verus! {

/// Configuration for the hosted classifier endpoint.
#[derive(Debug, Clone)]
pub struct OpenRouterConfig {
    /// API key for the service.
    pub api_key: String,
    /// Model to query.
    pub model: String,
    /// Request timeout in seconds.
    pub timeout_secs: u64,
    /// Whether the guard is enabled.
    pub enabled: bool,
}

impl Default for OpenRouterConfig {
    /// Disabled by default, with the stock guard model and a ten-second
    /// timeout.
    fn default() -> (r: OpenRouterConfig)
        ensures
            r.api_key@ == Seq::<char>::empty(),
            r.model@ == "meta-llama/llama-guard-4-12b"@,
            r.timeout_secs == 10,
            !r.enabled,
    {
        OpenRouterConfig {
            api_key: String::new(),
            model: String::from_str("meta-llama/llama-guard-4-12b"),
            timeout_secs: 10,
            enabled: false,
        }
    }
}

/// Safety categories of the MLCommons hazard taxonomy.
#[derive(Debug, Clone, PartialEq, Eq)]
pub enum SafetyCategory {
    /// S1: violent crimes.
    ViolentCrimes,
    /// S2: non-violent crimes.
    NonViolentCrimes,
    /// S3: sex-related crimes.
    SexCrimes,
    /// S4: child sexual exploitation.
    ChildExploitation,
    /// S5: defamation.
    Defamation,
    /// S6: specialized advice.
    SpecializedAdvice,
    /// S7: privacy.
    Privacy,
    /// S8: intellectual property.
    IntellectualProperty,
    /// S9: indiscriminate weapons.
    IndiscriminateWeapons,
    /// S10: hate.
    Hate,
    /// S11: suicide and self-harm.
    SelfHarm,
    /// S12: sexual content.
    SexualContent,
    /// S13: elections.
    Elections,
    /// S14: code interpreter abuse.
    CodeInterpreterAbuse,
    /// An unrecognized category code.
    Unknown(String),
}

/// The canonical form of a category code: trimmed and upper-cased.
pub open spec fn code_norm(code: Seq<u8>) -> Seq<u8> {
    upper_bytes(trim_spaces(code))
}

/// `c` is what `from_code` yields on a code whose canonical form is
/// `norm`: the S-numbered categories match their code exactly, and any
/// other code is kept, restricted to its ASCII bytes.
pub open spec fn is_category_of(c: SafetyCategory, norm: Seq<u8>) -> bool {
    match c {
        SafetyCategory::ViolentCrimes => norm == utf8_bytes("S1"@),
        SafetyCategory::NonViolentCrimes => norm == utf8_bytes("S2"@),
        SafetyCategory::SexCrimes => norm == utf8_bytes("S3"@),
        SafetyCategory::ChildExploitation => norm == utf8_bytes("S4"@),
        SafetyCategory::Defamation => norm == utf8_bytes("S5"@),
        SafetyCategory::SpecializedAdvice => norm == utf8_bytes("S6"@),
        SafetyCategory::Privacy => norm == utf8_bytes("S7"@),
        SafetyCategory::IntellectualProperty => norm == utf8_bytes("S8"@),
        SafetyCategory::IndiscriminateWeapons => norm == utf8_bytes("S9"@),
        SafetyCategory::Hate => norm == utf8_bytes("S10"@),
        SafetyCategory::SelfHarm => norm == utf8_bytes("S11"@),
        SafetyCategory::SexualContent => norm == utf8_bytes("S12"@),
        SafetyCategory::Elections => norm == utf8_bytes("S13"@),
        SafetyCategory::CodeInterpreterAbuse => norm == utf8_bytes("S14"@),
        SafetyCategory::Unknown(u) => {
            &&& norm != utf8_bytes("S1"@)
            &&& norm != utf8_bytes("S2"@)
            &&& norm != utf8_bytes("S3"@)
            &&& norm != utf8_bytes("S4"@)
            &&& norm != utf8_bytes("S5"@)
            &&& norm != utf8_bytes("S6"@)
            &&& norm != utf8_bytes("S7"@)
            &&& norm != utf8_bytes("S8"@)
            &&& norm != utf8_bytes("S9"@)
            &&& norm != utf8_bytes("S10"@)
            &&& norm != utf8_bytes("S11"@)
            &&& norm != utf8_bytes("S12"@)
            &&& norm != utf8_bytes("S13"@)
            &&& norm != utf8_bytes("S14"@)
            &&& u@ == filter_ascii(norm).map(|_i: int, b: u8| b as char)
        },
    }
}

/// Categories whose presence blocks the action outright.
pub open spec fn is_critical_category(c: SafetyCategory) -> bool {
    c == SafetyCategory::ChildExploitation || c == SafetyCategory::IndiscriminateWeapons || c
        == SafetyCategory::ViolentCrimes
}

/// Parse a category code from bytes.
fn category_from_bytes(code: &[u8]) -> (r: SafetyCategory)
    ensures
        is_category_of(r, code_norm(code@)),
{
    let trimmed = trim_spaces_exec(code);
    let up = upper_vec(trimmed.as_slice());
    if bytes_eq(up.as_slice(), "S1".as_bytes()) {
        SafetyCategory::ViolentCrimes
    } else if bytes_eq(up.as_slice(), "S2".as_bytes()) {
        SafetyCategory::NonViolentCrimes
    } else if bytes_eq(up.as_slice(), "S3".as_bytes()) {
        SafetyCategory::SexCrimes
    } else if bytes_eq(up.as_slice(), "S4".as_bytes()) {
        SafetyCategory::ChildExploitation
    } else if bytes_eq(up.as_slice(), "S5".as_bytes()) {
        SafetyCategory::Defamation
    } else if bytes_eq(up.as_slice(), "S6".as_bytes()) {
        SafetyCategory::SpecializedAdvice
    } else if bytes_eq(up.as_slice(), "S7".as_bytes()) {
        SafetyCategory::Privacy
    } else if bytes_eq(up.as_slice(), "S8".as_bytes()) {
        SafetyCategory::IntellectualProperty
    } else if bytes_eq(up.as_slice(), "S9".as_bytes()) {
        SafetyCategory::IndiscriminateWeapons
    } else if bytes_eq(up.as_slice(), "S10".as_bytes()) {
        SafetyCategory::Hate
    } else if bytes_eq(up.as_slice(), "S11".as_bytes()) {
        SafetyCategory::SelfHarm
    } else if bytes_eq(up.as_slice(), "S12".as_bytes()) {
        SafetyCategory::SexualContent
    } else if bytes_eq(up.as_slice(), "S13".as_bytes()) {
        SafetyCategory::Elections
    } else if bytes_eq(up.as_slice(), "S14".as_bytes()) {
        SafetyCategory::CodeInterpreterAbuse
    } else {
        let kept = filter_ascii_exec(up.as_slice());
        SafetyCategory::Unknown(ascii_to_string(kept))
    }
}

impl SafetyCategory {
    /// Parse a category code such as `S1`, case-insensitively and
    /// ignoring surrounding whitespace.
    pub fn from_code(code: &str) -> (r: SafetyCategory)
        ensures
            is_category_of(r, code_norm(utf8_bytes(code@))),
    {
        category_from_bytes(code.as_bytes())
    }

    /// The short human-readable description of this category.
    pub open spec fn description_spec(self) -> Seq<char> {
        match self {
            SafetyCategory::ViolentCrimes => "Violent crimes"@,
            SafetyCategory::NonViolentCrimes => "Non-violent crimes (fraud, theft)"@,
            SafetyCategory::SexCrimes => "Sex-related crimes"@,
            SafetyCategory::ChildExploitation => "Child sexual exploitation"@,
            SafetyCategory::Defamation => "Defamation"@,
            SafetyCategory::SpecializedAdvice => "Specialized advice (medical, legal, financial)"@,
            SafetyCategory::Privacy => "Privacy violation"@,
            SafetyCategory::IntellectualProperty => "Intellectual property violation"@,
            SafetyCategory::IndiscriminateWeapons => "Indiscriminate weapons (CBRN)"@,
            SafetyCategory::Hate => "Hate speech"@,
            SafetyCategory::SelfHarm => "Suicide & self-harm"@,
            SafetyCategory::SexualContent => "Sexual content"@,
            SafetyCategory::Elections => "Election misinformation"@,
            SafetyCategory::CodeInterpreterAbuse => "Code interpreter abuse"@,
            SafetyCategory::Unknown(s) => s@,
        }
    }

    /// The short human-readable description of this category.
    pub fn description(&self) -> (r: &str)
        ensures
            r@ == self.description_spec(),
    {
        match self {
            SafetyCategory::ViolentCrimes => "Violent crimes",
            SafetyCategory::NonViolentCrimes => "Non-violent crimes (fraud, theft)",
            SafetyCategory::SexCrimes => "Sex-related crimes",
            SafetyCategory::ChildExploitation => "Child sexual exploitation",
            SafetyCategory::Defamation => "Defamation",
            SafetyCategory::SpecializedAdvice => "Specialized advice (medical, legal, financial)",
            SafetyCategory::Privacy => "Privacy violation",
            SafetyCategory::IntellectualProperty => "Intellectual property violation",
            SafetyCategory::IndiscriminateWeapons => "Indiscriminate weapons (CBRN)",
            SafetyCategory::Hate => "Hate speech",
            SafetyCategory::SelfHarm => "Suicide & self-harm",
            SafetyCategory::SexualContent => "Sexual content",
            SafetyCategory::Elections => "Election misinformation",
            SafetyCategory::CodeInterpreterAbuse => "Code interpreter abuse",
            SafetyCategory::Unknown(s) => s.as_str(),
        }
    }
}

/// The lower-cased, trimmed answer text.
pub open spec fn verdict_norm(response: Seq<char>) -> Seq<u8> {
    lower_bytes(trim_spaces(utf8_bytes(response)))
}

/// The answer text starts with `safe`.
pub open spec fn verdict_is_safe(norm: Seq<u8>) -> bool {
    norm.len() >= 4 && norm.subrange(0, 4) == utf8_bytes("safe"@)
}

/// One line of the answer: a trailing carriage return is stripped.
pub open spec fn strip_cr(l: Seq<u8>) -> Seq<u8> {
    if l.len() > 0 && l.last() == 13 {
        l.drop_last()
    } else {
        l
    }
}

/// The non-empty trimmed codes of the comma-separated segments of one
/// line, from segment `j` on.
pub open spec fn segment_codes(segs: Seq<Seq<u8>>, j: int) -> Seq<Seq<u8>>
    decreases segs.len() - j,
{
    if j < 0 || j >= segs.len() {
        Seq::empty()
    } else {
        (if trim_spaces(segs[j]).len() > 0 {
            seq![segs[j]]
        } else {
            Seq::<Seq<u8>>::empty()
        }) + segment_codes(segs, j + 1)
    }
}

/// The codes found on the answer's lines after the first, in order.
pub open spec fn line_codes(lines: Seq<Seq<u8>>, i: int) -> Seq<Seq<u8>>
    decreases lines.len() - i,
{
    if i < 0 || i >= lines.len() {
        Seq::empty()
    } else {
        segment_codes(split_all(strip_cr(lines[i]), 44), 0) + line_codes(lines, i + 1)
    }
}

/// An inline candidate: after punctuation trimming it starts with `s`
/// and has at most three bytes.
pub open spec fn is_inline_code(w: Seq<u8>) -> bool {
    trim_punct(w).len() > 0 && trim_punct(w)[0] == 115 && trim_punct(w).len() <= 3
}

/// The inline codes among the answer's words after the first, in order.
pub open spec fn inline_codes(ws: Seq<Seq<u8>>, i: int) -> Seq<Seq<u8>>
    decreases ws.len() - i,
{
    if i < 0 || i >= ws.len() {
        Seq::empty()
    } else {
        (if is_inline_code(ws[i]) {
            seq![trim_punct(ws[i])]
        } else {
            Seq::<Seq<u8>>::empty()
        }) + inline_codes(ws, i + 1)
    }
}

/// The category-code byte strings an unsafe answer names, in order:
/// codes on the lines after the first; or, when there are none and the
/// answer is a single line, inline codes after the first word.
pub open spec fn verdict_codes(norm: Seq<u8>) -> Seq<Seq<u8>> {
    let from_lines = line_codes(split_all(norm, 10), 1);
    if from_lines.len() > 0 {
        from_lines
    } else if split_all(norm, 10).len() == 1 {
        inline_codes(words(norm), 1)
    } else {
        from_lines
    }
}

/// A parsed classifier answer.
#[derive(Debug, Clone)]
pub struct GuardResult {
    /// Whether the content is safe.
    pub is_safe: bool,
    /// Categories violated, when unsafe.
    pub violated_categories: Vec<SafetyCategory>,
    /// The answer text as received.
    pub raw_response: String,
}

impl GuardResult {
    /// Parse one classifier answer: `safe`, or `unsafe` followed by
    /// category codes, either on later lines or inline.
    #[verifier::loop_isolation(false)]
    pub fn parse(response: &str) -> (r: GuardResult)
        ensures
            r.is_safe == verdict_is_safe(verdict_norm(response@)),
            r.is_safe ==> r.violated_categories@.len() == 0,
            !r.is_safe ==> {
                let codes = verdict_codes(verdict_norm(response@));
                &&& r.violated_categories@.len() == codes.len()
                &&& forall|k: int|
                    0 <= k < codes.len() ==> is_category_of(
                        #[trigger] r.violated_categories@[k],
                        code_norm(codes[k]),
                    )
            },
            r.raw_response@ == response@,
    {
        let trimmed = trim_spaces_exec(response.as_bytes());
        let norm = lower_vec(trimmed.as_slice());
        let ghost nv = verdict_norm(response@);
        proof {
            assert(norm@ == nv);
        }

        if norm.len() >= 4 && bytes_eq(&norm.as_slice()[0..4], "safe".as_bytes()) {
            proof {
                assert(norm@.subrange(0, 4) == nv.subrange(0, 4));
            }
            return GuardResult {
                is_safe: true,
                violated_categories: Vec::new(),
                raw_response: String::from_str(response),
            };
        }
        proof {
            if norm@.len() >= 4 {
                assert(norm@.subrange(0, 4) == nv.subrange(0, 4));
            }
            assert(!verdict_is_safe(nv));
        }

        let mut categories: Vec<SafetyCategory> = Vec::new();
        let ghost mut codes: Seq<Seq<u8>> = Seq::empty();

        let lines = split_exec(norm.as_slice(), 10);
        let mut i: usize = 1;
        while i < lines.len()
            invariant
                1 <= i,
                i <= lines@.len() || i == 1,
                lines.deep_view() == split_all(nv, 10),
                categories@.len() == codes.len(),
                forall|k: int|
                    0 <= k < codes.len() ==> is_category_of(
                        #[trigger] categories@[k],
                        code_norm(codes[k]),
                    ),
                codes + line_codes(lines.deep_view(), i as int) == line_codes(
                    lines.deep_view(),
                    1,
                ),
            decreases lines@.len() - i,
        {
            let line = trim_cr_exec(&lines[i]);
            proof {
                assert(lines.deep_view()[i as int] =~= lines@[i as int]@);
                assert(line@ == strip_cr(lines.deep_view()[i as int]));
            }
            let segs = split_exec(line.as_slice(), 44);
            let mut j: usize = 0;
            while j < segs.len()
                invariant
                    j <= segs@.len(),
                    segs.deep_view() == split_all(strip_cr(lines.deep_view()[i as int]), 44),
                    categories@.len() == codes.len(),
                    forall|k: int|
                        0 <= k < codes.len() ==> is_category_of(
                            #[trigger] categories@[k],
                            code_norm(codes[k]),
                        ),
                    codes + segment_codes(segs.deep_view(), j as int) + line_codes(
                        lines.deep_view(),
                        i + 1,
                    ) == line_codes(lines.deep_view(), 1),
                decreases segs@.len() - j,
            {
                proof {
                    assert(segs.deep_view()[j as int] =~= segs@[j as int]@);
                }
                let t = trim_spaces_exec(segs[j].as_slice());
                if t.len() > 0 {
                    let cat = category_from_bytes(segs[j].as_slice());
                    categories.push(cat);
                    proof {
                        codes = codes + seq![segs.deep_view()[j as int]];
                        assert(segment_codes(segs.deep_view(), j as int) == seq![
                            segs.deep_view()[j as int],
                        ] + segment_codes(segs.deep_view(), j + 1));
                        assert(codes + segment_codes(segs.deep_view(), j + 1) + line_codes(
                            lines.deep_view(),
                            i + 1,
                        ) =~~= line_codes(lines.deep_view(), 1));
                    }
                } else {
                    proof {
                        assert(segment_codes(segs.deep_view(), j as int) =~~= segment_codes(
                            segs.deep_view(),
                            j + 1,
                        ));
                    }
                }
                j = j + 1;
            }
            proof {
                assert(segment_codes(segs.deep_view(), segs.deep_view().len() as int)
                    =~~= Seq::<Seq<u8>>::empty());
                assert(line_codes(lines.deep_view(), i as int) == segment_codes(
                    split_all(strip_cr(lines.deep_view()[i as int]), 44),
                    0,
                ) + line_codes(lines.deep_view(), i + 1));
            }
            i = i + 1;
        }
        proof {
            assert(line_codes(lines.deep_view(), i as int) =~~= Seq::<Seq<u8>>::empty());
            assert(codes =~~= line_codes(lines.deep_view(), 1));
        }

        if categories.len() == 0 && lines.len() == 1 {
            let ws = split_words(norm.as_slice());
            let mut w: usize = 1;
            while w < ws.len()
                invariant
                    1 <= w,
                    w <= ws@.len() || w == 1,
                    ws.deep_view() == words(nv),
                    categories@.len() == codes.len(),
                    forall|k: int|
                        0 <= k < codes.len() ==> is_category_of(
                            #[trigger] categories@[k],
                            code_norm(codes[k]),
                        ),
                    codes + inline_codes(ws.deep_view(), w as int) == inline_codes(
                        ws.deep_view(),
                        1,
                    ),
                decreases ws@.len() - w,
            {
                proof {
                    assert(ws.deep_view()[w as int] =~= ws@[w as int]@);
                }
                let t = trim_punct_exec(ws[w].as_slice());
                if t.len() > 0 && t[0] == 115 && t.len() <= 3 {
                    let cat = category_from_bytes(t.as_slice());
                    categories.push(cat);
                    proof {
                        codes = codes + seq![trim_punct(ws.deep_view()[w as int])];
                        assert(is_inline_code(ws.deep_view()[w as int]));
                        assert(inline_codes(ws.deep_view(), w as int) == seq![
                            trim_punct(ws.deep_view()[w as int]),
                        ] + inline_codes(ws.deep_view(), w + 1));
                        assert(codes + inline_codes(ws.deep_view(), w + 1) =~~= inline_codes(
                            ws.deep_view(),
                            1,
                        ));
                        assert(code_norm(trim_punct(ws.deep_view()[w as int])) == code_norm(t@));
                    }
                } else {
                    proof {
                        assert(!is_inline_code(ws.deep_view()[w as int]));
                        assert(inline_codes(ws.deep_view(), w as int) =~~= inline_codes(
                            ws.deep_view(),
                            w + 1,
                        ));
                    }
                }
                w = w + 1;
            }
            proof {
                assert(inline_codes(ws.deep_view(), ws.deep_view().len() as int)
                    =~~= Seq::<Seq<u8>>::empty());
                assert(codes =~~= inline_codes(words(nv), 1));
                assert(codes =~~= verdict_codes(nv));
            }
        } else {
            proof {
                assert(codes =~~= verdict_codes(nv));
            }
        }

        GuardResult {
            is_safe: false,
            violated_categories: categories,
            raw_response: String::from_str(response),
        }
    }
}

/// Strip one trailing carriage return.
fn trim_cr_exec(l: &Vec<u8>) -> (r: Vec<u8>)
    ensures
        r@ == strip_cr(l@),
{
    let mut r = clone_bytes(l);
    if r.len() > 0 && r[r.len() - 1] == 13 {
        let _last = r.pop();
        proof {
            assert(r@ =~= strip_cr(l@));
        }
    }
    r
}

/// Copy a byte vector.
fn clone_bytes(v: &Vec<u8>) -> (r: Vec<u8>)
    ensures
        r@ == v@,
{
    let mut r: Vec<u8> = Vec::new();
    let mut i: usize = 0;
    while i < v.len()
        invariant
            i <= v@.len(),
            r@.len() == i,
            forall|k: int| 0 <= k < i ==> r@[k] == v@[k],
        decreases v@.len() - i,
    {
        r.push(v[i]);
        i = i + 1;
    }
    proof {
        assert(r@ =~= v@);
    }
    r
}

/// Map a parsed classifier verdict to a firewall outcome: a critical
/// category blocks; any other unsafe verdict is suspicious; a safe
/// verdict, or a failed call treated as safe, is clean. Each violated
/// category contributes one decorated reason, in order.
pub fn outcome_from_guard(result: &GuardResult) -> (r: FirewallOutcome)
    ensures
        result.is_safe ==> r is Clean,
        !result.is_safe ==> {
            let any_critical = exists|k: int|
                0 <= k < result.violated_categories@.len() && is_critical_category(
                    #[trigger] result.violated_categories@[k],
                );
            &&& (r is Blocked) == any_critical
            &&& (r is Suspicious) == !any_critical
            &&& r.reasons_spec() == result.violated_categories@.map(
                |_i: int, c: SafetyCategory| "Llama Guard: "@ + c.description_spec(),
            )
        },
{
    if result.is_safe {
        return FirewallOutcome::Clean;
    }

    let mut reasons: Vec<String> = Vec::new();
    let mut critical = false;
    let mut i: usize = 0;
    while i < result.violated_categories.len()
        invariant
            i <= result.violated_categories@.len(),
            reasons@.len() == i,
            forall|k: int|
                0 <= k < i ==> reasons@[k]@ == "Llama Guard: "@ + (
                #[trigger] result.violated_categories@[k]).description_spec(),
            critical == exists|k: int|
                0 <= k < i && is_critical_category(#[trigger] result.violated_categories@[k]),
        decreases result.violated_categories@.len() - i,
    {
        let c = &result.violated_categories[i];
        let mut m = String::from_str("Llama Guard: ");
        m.append(c.description());
        reasons.push(m);
        if matches!(
            c,
            SafetyCategory::ChildExploitation
                | SafetyCategory::IndiscriminateWeapons
                | SafetyCategory::ViolentCrimes
        ) {
            critical = true;
        }
        i = i + 1;
    }
    proof {
        assert(reasons.deep_view() =~~= result.violated_categories@.map(
            |_i: int, c: SafetyCategory| "Llama Guard: "@ + c.description_spec(),
        ));
    }

    if critical {
        FirewallOutcome::Blocked { reasons }
    } else {
        FirewallOutcome::Suspicious { reasons }
    }
}

} // verus!
