//! Input firewall: the first layer of the pipeline.
//!
//! It scans every user-facing text surface of an action — the original
//! intent, the chain-of-thought trace, and every string-valued payload
//! field — for known prompt-injection signatures and configured
//! suspicious phrases, case-insensitively.

use vstd::prelude::*;
use vstd::string::StringExecFns;

use crate::action::AgentAction;
use crate::text::{
    clone_strings, contains_ci, contains_sub, lower_vec, push_str_bytes, strings_eq, utf8_bytes,
};

verus! {

/// Outcome of firewall evaluation.
#[derive(Debug, Clone)]
pub enum FirewallOutcome {
    /// Input appears clean.
    Clean,
    /// Input contains suspicious patterns but is not definitely malicious.
    Suspicious { reasons: Vec<String> },
    /// Input is definitely malicious and must be blocked.
    Blocked { reasons: Vec<String> },
}

impl PartialEq for FirewallOutcome {
    fn eq(&self, other: &FirewallOutcome) -> (r: bool) {
        match (self, other) {
            (FirewallOutcome::Clean, FirewallOutcome::Clean) => true,
            (
                FirewallOutcome::Suspicious { reasons: a },
                FirewallOutcome::Suspicious { reasons: b },
            ) => strings_eq(a, b),
            (FirewallOutcome::Blocked { reasons: a }, FirewallOutcome::Blocked { reasons: b }) => {
                strings_eq(a, b)
            },
            _ => false,
        }
    }
}

impl vstd::std_specs::cmp::PartialEqSpecImpl for FirewallOutcome {
    open spec fn obeys_eq_spec() -> bool {
        true
    }

    open spec fn eq_spec(&self, other: &FirewallOutcome) -> bool {
        match (self, other) {
            (FirewallOutcome::Clean, FirewallOutcome::Clean) => true,
            (
                FirewallOutcome::Suspicious { reasons: a },
                FirewallOutcome::Suspicious { reasons: b },
            ) => a.deep_view() == b.deep_view(),
            (FirewallOutcome::Blocked { reasons: a }, FirewallOutcome::Blocked { reasons: b }) => a
                .deep_view() == b.deep_view(),
            _ => false,
        }
    }
}

impl FirewallOutcome {
    /// Is this outcome Blocked?
    pub fn is_blocked(&self) -> (r: bool)
        ensures
            r == (self is Blocked),
    {
        matches!(self, FirewallOutcome::Blocked { .. })
    }

    /// Is this outcome Suspicious?
    pub fn is_suspicious(&self) -> (r: bool)
        ensures
            r == (self is Suspicious),
    {
        matches!(self, FirewallOutcome::Suspicious { .. })
    }

    /// The reasons this outcome carries; empty for Clean.
    pub open spec fn reasons_spec(self) -> Seq<Seq<char>> {
        match self {
            FirewallOutcome::Clean => Seq::empty(),
            FirewallOutcome::Suspicious { reasons } => reasons.deep_view(),
            FirewallOutcome::Blocked { reasons } => reasons.deep_view(),
        }
    }

    /// The reasons this outcome carries; empty for Clean.
    pub fn reasons(&self) -> (r: Vec<String>)
        ensures
            r.deep_view() == self.reasons_spec(),
    {
        match self {
            FirewallOutcome::Clean => Vec::new(),
            FirewallOutcome::Suspicious { reasons } => clone_strings(reasons),
            FirewallOutcome::Blocked { reasons } => clone_strings(reasons),
        }
    }
}

/// The fixed hard-block list: clear prompt-injection signatures.
pub open spec fn hard_block_list() -> Seq<Seq<char>> {
    seq![
        "ignore all previous instructions"@,
        "disregard your instructions"@,
        "you are now"@,
        "new persona"@,
        "jailbreak"@,
        "DAN mode"@,
    ]
}

/// The keywords among `kws` that occur in `t`, case-insensitively, in
/// list order.
pub open spec fn matched_keywords(t: Seq<u8>, kws: Seq<Seq<char>>) -> Seq<Seq<char>>
    decreases kws.len(),
{
    if kws.len() == 0 {
        Seq::empty()
    } else {
        matched_keywords(t, kws.drop_last()) + (if contains_ci(t, utf8_bytes(kws.last())) {
            seq![kws.last()]
        } else {
            Seq::<Seq<char>>::empty()
        })
    }
}

/// Some keyword matches exactly when the matched list is non-empty.
pub proof fn lemma_matched_keywords_nonempty(t: Seq<u8>, kws: Seq<Seq<char>>)
    ensures
        matched_keywords(t, kws).len() > 0 <==> exists|j: int|
            0 <= j < kws.len() && contains_ci(t, utf8_bytes(#[trigger] kws[j])),
    decreases kws.len(),
{
    if kws.len() > 0 {
        lemma_matched_keywords_nonempty(t, kws.drop_last());
        if contains_ci(t, utf8_bytes(kws.last())) {
            assert(contains_ci(t, utf8_bytes(kws[kws.len() - 1])));
        } else if matched_keywords(t, kws.drop_last()).len() > 0 {
            let j = choose|j: int|
                0 <= j < kws.drop_last().len() && contains_ci(
                    t,
                    utf8_bytes(#[trigger] kws.drop_last()[j]),
                );
            assert(kws.drop_last()[j] == kws[j]);
            assert(contains_ci(t, utf8_bytes(kws[j])));
        } else {
            assert forall|j: int| 0 <= j < kws.len() implies !contains_ci(
                t,
                utf8_bytes(#[trigger] kws[j]),
            ) by {
                if j < kws.len() - 1 {
                    assert(kws.drop_last()[j] == kws[j]);
                    assert(!contains_ci(t, utf8_bytes(kws.drop_last()[j])));
                } else {
                    assert(kws[j] == kws.last());
                }
            };
        }
    }
}

/// The concatenation of the payload's text fields, each followed by a
/// space.
pub open spec fn payload_texts_bytes(ts: Seq<Seq<char>>) -> Seq<u8>
    decreases ts.len(),
{
    if ts.len() == 0 {
        Seq::empty()
    } else {
        payload_texts_bytes(ts.drop_last()) + utf8_bytes(ts.last()) + seq![32u8]
    }
}

/// Every scannable text surface of an action, concatenated with space
/// separators: the intent, the chain-of-thought trace, and each
/// string-valued payload field.
pub open spec fn scan_text(a: AgentAction) -> Seq<u8> {
    utf8_bytes(a.original_intent@) + seq![32u8] + (match a.cot_trace {
        Some(c) => utf8_bytes(c@) + seq![32u8],
        None => Seq::<u8>::empty(),
    }) + payload_texts_bytes(a.payload.texts.deep_view())
}

/// Keyword-based firewall: scans input for known prompt-injection
/// signatures and configured suspicious phrases.
#[derive(Debug, Clone)]
pub struct KeywordFirewall {
    /// Keywords that trigger blocking.
    pub block_keywords: Vec<String>,
    /// Keywords that trigger suspicion.
    pub suspicious_keywords: Vec<String>,
}

impl KeywordFirewall {
    /// Create a keyword firewall with the fixed hard-block list and the
    /// given suspicion list.
    pub fn new(suspicious_keywords: Vec<String>) -> (r: KeywordFirewall)
        ensures
            r.block_keywords.deep_view() == hard_block_list(),
            r.suspicious_keywords == suspicious_keywords,
    {
        let mut block_keywords: Vec<String> = Vec::new();
        block_keywords.push(String::from_str("ignore all previous instructions"));
        block_keywords.push(String::from_str("disregard your instructions"));
        block_keywords.push(String::from_str("you are now"));
        block_keywords.push(String::from_str("new persona"));
        block_keywords.push(String::from_str("jailbreak"));
        block_keywords.push(String::from_str("DAN mode"));
        proof {
            assert(block_keywords.deep_view() =~= hard_block_list());
        }
        KeywordFirewall { block_keywords, suspicious_keywords }
    }

    /// The keywords of `keywords` contained in `text`, case-insensitively.
    pub fn contains_any(&self, text: &[u8], keywords: &Vec<String>) -> (r: Vec<String>)
        ensures
            r.deep_view() == matched_keywords(text@, keywords.deep_view()),
    {
        let lowered = lower_vec(text);
        let mut r: Vec<String> = Vec::new();
        let mut i: usize = 0;
        while i < keywords.len()
            invariant
                i <= keywords@.len(),
                lowered@ == crate::text::lower_bytes(text@),
                r.deep_view() == matched_keywords(text@, keywords.deep_view().take(i as int)),
            decreases keywords@.len() - i,
        {
            let kw_bytes = keywords[i].as_str().as_bytes();
            let kw_lower = lower_vec(kw_bytes);
            proof {
                assert(keywords.deep_view().take(i + 1).drop_last() == keywords.deep_view().take(
                    i as int,
                ));
                assert(keywords.deep_view().take(i + 1).last() == keywords.deep_view()[i as int]);
            }
            if contains_sub(lowered.as_slice(), kw_lower.as_slice()) {
                r.push(String::from_str(keywords[i].as_str()));
                proof {
                    assert(r.deep_view() =~~= matched_keywords(
                        text@,
                        keywords.deep_view().take(i + 1),
                    ));
                }
            } else {
                proof {
                    assert(r.deep_view() =~~= matched_keywords(
                        text@,
                        keywords.deep_view().take(i + 1),
                    ));
                }
            }
            i = i + 1;
        }
        proof {
            assert(keywords.deep_view().take(keywords.deep_view().len() as int)
                == keywords.deep_view());
        }
        r
    }

    /// Collect every scannable text surface of the action.
    pub fn get_scannable_text(&self, action: &AgentAction) -> (r: Vec<u8>)
        ensures
            r@ == scan_text(*action),
    {
        let mut buf: Vec<u8> = Vec::new();
        push_str_bytes(&mut buf, action.original_intent.as_str());
        buf.push(32);
        match &action.cot_trace {
            Some(cot) => {
                push_str_bytes(&mut buf, cot.as_str());
                buf.push(32);
            },
            None => {},
        }
        let ghost prefix = buf@;
        let mut i: usize = 0;
        while i < action.payload.texts.len()
            invariant
                i <= action.payload.texts@.len(),
                buf@ == prefix + payload_texts_bytes(action.payload.texts.deep_view().take(i as int)),
            decreases action.payload.texts@.len() - i,
        {
            push_str_bytes(&mut buf, action.payload.texts[i].as_str());
            buf.push(32);
            proof {
                let ts = action.payload.texts.deep_view();
                assert(ts.take(i + 1).drop_last() == ts.take(i as int));
                assert(ts.take(i + 1).last() == ts[i as int]);
                assert(buf@ =~= prefix + payload_texts_bytes(ts.take(i + 1)));
            }
            i = i + 1;
        }
        proof {
            let ts = action.payload.texts.deep_view();
            assert(ts.take(ts.len() as int) == ts);
            assert(buf@ =~= scan_text(*action));
        }
        buf
    }

    /// The decoration applied to each matched hard-block keyword.
    pub open spec fn blocked_reason(kw: Seq<char>) -> Seq<char> {
        "Blocked keyword detected: '"@ + kw + "'"@
    }

    /// The decoration applied to each matched suspicious keyword.
    pub open spec fn suspicious_reason(kw: Seq<char>) -> Seq<char> {
        "Suspicious pattern detected: '"@ + kw + "'"@
    }

    /// The matched hard-block keywords of this firewall on text `t`.
    pub open spec fn block_matches(self, t: Seq<u8>) -> Seq<Seq<char>> {
        matched_keywords(t, self.block_keywords.deep_view())
    }

    /// The matched suspicious keywords of this firewall on text `t`.
    pub open spec fn suspicious_matches(self, t: Seq<u8>) -> Seq<Seq<char>> {
        matched_keywords(t, self.suspicious_keywords.deep_view())
    }

    /// Evaluate an action: any hard-block match blocks; otherwise any
    /// suspicious match raises suspicion; otherwise the input is clean.
    /// One decorated reason is reported for each matched keyword, in
    /// list order.
    pub fn evaluate(&self, action: &AgentAction) -> (r: FirewallOutcome)
        ensures
            (r is Blocked) <==> self.block_matches(scan_text(*action)).len() > 0,
            (r is Suspicious) <==> (self.block_matches(scan_text(*action)).len() == 0
                && self.suspicious_matches(scan_text(*action)).len() > 0),
            r matches FirewallOutcome::Blocked { reasons } ==> reasons.deep_view()
                == self.block_matches(scan_text(*action)).map(
                |_i: int, kw: Seq<char>| KeywordFirewall::blocked_reason(kw),
            ),
            r matches FirewallOutcome::Suspicious { reasons } ==> reasons.deep_view()
                == self.suspicious_matches(scan_text(*action)).map(
                |_i: int, kw: Seq<char>| KeywordFirewall::suspicious_reason(kw),
            ),
    {
        let text = self.get_scannable_text(action);

        let block_hits = self.contains_any(text.as_slice(), &self.block_keywords);
        if block_hits.len() > 0 {
            let reasons = decorate(&block_hits, true);
            return FirewallOutcome::Blocked { reasons };
        }

        let suspicious_hits = self.contains_any(text.as_slice(), &self.suspicious_keywords);
        if suspicious_hits.len() > 0 {
            let reasons = decorate(&suspicious_hits, false);
            return FirewallOutcome::Suspicious { reasons };
        }

        FirewallOutcome::Clean
    }
}

/// Decorate matched keywords as human-readable reasons.
fn decorate(hits: &Vec<String>, blocked: bool) -> (r: Vec<String>)
    ensures
        blocked ==> r.deep_view() == hits.deep_view().map(
            |_i: int, kw: Seq<char>| KeywordFirewall::blocked_reason(kw),
        ),
        !blocked ==> r.deep_view() == hits.deep_view().map(
            |_i: int, kw: Seq<char>| KeywordFirewall::suspicious_reason(kw),
        ),
{
    let mut r: Vec<String> = Vec::new();
    let mut i: usize = 0;
    while i < hits.len()
        invariant
            i <= hits@.len(),
            r@.len() == i,
            forall|k: int|
                0 <= k < i ==> r@[k]@ == (if blocked {
                    KeywordFirewall::blocked_reason(hits@[k]@)
                } else {
                    KeywordFirewall::suspicious_reason(hits@[k]@)
                }),
        decreases hits@.len() - i,
    {
        let mut reason = if blocked {
            String::from_str("Blocked keyword detected: '")
        } else {
            String::from_str("Suspicious pattern detected: '")
        };
        reason.append(hits[i].as_str());
        reason.append("'");
        r.push(reason);
        i = i + 1;
    }
    proof {
        if blocked {
            assert(r.deep_view() =~~= hits.deep_view().map(
                |_i: int, kw: Seq<char>| KeywordFirewall::blocked_reason(kw),
            ));
        } else {
            assert(r.deep_view() =~~= hits.deep_view().map(
                |_i: int, kw: Seq<char>| KeywordFirewall::suspicious_reason(kw),
            ));
        }
    }
    r
}

/// Placeholder neural firewall; the hosted-classifier variant lives in
/// the guard module. Disabled or not, it reports Clean.
#[derive(Debug, Clone)]
pub struct NeuralFirewall {
    /// Whether the detector is enabled.
    pub enabled: bool,
}

impl NeuralFirewall {
    /// Create a neural firewall.
    pub fn new(enabled: bool) -> (r: NeuralFirewall)
        ensures
            r.enabled == enabled,
    {
        NeuralFirewall { enabled }
    }

    /// Evaluate an action; this placeholder always reports Clean.
    pub fn evaluate(&self, _action: &AgentAction) -> (r: FirewallOutcome)
        ensures
            r is Clean,
    {
        FirewallOutcome::Clean
    }
}

/// One member of a composite firewall.
#[derive(Debug, Clone)]
pub enum FirewallVariant {
    /// A keyword firewall.
    Keyword(KeywordFirewall),
    /// A neural firewall.
    Neural(NeuralFirewall),
}

impl FirewallVariant {
    /// Does this member block text `t`?
    pub open spec fn blocks(self, t: Seq<u8>) -> bool {
        match self {
            FirewallVariant::Keyword(f) => f.block_matches(t).len() > 0,
            FirewallVariant::Neural(_) => false,
        }
    }

    /// The blocked reasons this member reports on text `t`.
    pub open spec fn blocked_reasons(self, t: Seq<u8>) -> Seq<Seq<char>> {
        match self {
            FirewallVariant::Keyword(f) => f.block_matches(t).map(
                |_i: int, kw: Seq<char>| KeywordFirewall::blocked_reason(kw),
            ),
            FirewallVariant::Neural(_) => Seq::empty(),
        }
    }

    /// The suspicious reasons this member reports on text `t`, when it
    /// does not block.
    pub open spec fn suspicious_reasons(self, t: Seq<u8>) -> Seq<Seq<char>> {
        match self {
            FirewallVariant::Keyword(f) => if f.block_matches(t).len() == 0 {
                f.suspicious_matches(t).map(
                    |_i: int, kw: Seq<char>| KeywordFirewall::suspicious_reason(kw),
                )
            } else {
                Seq::empty()
            },
            FirewallVariant::Neural(_) => Seq::empty(),
        }
    }

    /// Evaluate an action through this member.
    pub fn evaluate(&self, action: &AgentAction) -> (r: FirewallOutcome)
        ensures
            (r is Blocked) <==> self.blocks(scan_text(*action)),
            r matches FirewallOutcome::Blocked { reasons } ==> reasons.deep_view()
                == self.blocked_reasons(scan_text(*action)),
            (r is Suspicious) <==> (!self.blocks(scan_text(*action)) && self.suspicious_reasons(
                scan_text(*action),
            ).len() > 0),
            r matches FirewallOutcome::Suspicious { reasons } ==> reasons.deep_view()
                == self.suspicious_reasons(scan_text(*action)),
    {
        match self {
            FirewallVariant::Keyword(f) => f.evaluate(action),
            FirewallVariant::Neural(f) => f.evaluate(action),
        }
    }
}

/// The index of the first member that blocks text `t`, if any.
pub open spec fn first_blocking(fs: Seq<FirewallVariant>, t: Seq<u8>) -> Option<int>
    decreases fs.len(),
{
    if fs.len() == 0 {
        None
    } else if fs[0].blocks(t) {
        Some(0)
    } else {
        match first_blocking(fs.drop_first(), t) {
            Some(i) => Some(i + 1),
            None => None,
        }
    }
}

/// `first_blocking` finds the first blocking member.
pub proof fn lemma_first_blocking(fs: Seq<FirewallVariant>, t: Seq<u8>)
    ensures
        match first_blocking(fs, t) {
            Some(i) => 0 <= i < fs.len() && fs[i].blocks(t) && forall|j: int|
                0 <= j < i ==> !(#[trigger] fs[j]).blocks(t),
            None => forall|j: int| 0 <= j < fs.len() ==> !(#[trigger] fs[j]).blocks(t),
        },
    decreases fs.len(),
{
    if fs.len() > 0 && !fs[0].blocks(t) {
        lemma_first_blocking(fs.drop_first(), t);
        assert(forall|j: int| 0 < j < fs.len() ==> fs[j] == fs.drop_first()[j - 1]);
    }
}

/// The suspicious reasons accumulated over members `fs[..n]`, in order.
pub open spec fn accumulated_suspicious(fs: Seq<FirewallVariant>, t: Seq<u8>) -> Seq<Seq<char>>
    decreases fs.len(),
{
    if fs.len() == 0 {
        Seq::empty()
    } else {
        accumulated_suspicious(fs.drop_last(), t) + fs.last().suspicious_reasons(t)
    }
}

/// Composite firewall: members run in order, the first Blocked verdict
/// short-circuits, and Suspicious reasons accumulate.
#[derive(Debug, Clone)]
pub struct CompositeFirewall {
    /// The member firewalls, in evaluation order.
    pub firewalls: Vec<FirewallVariant>,
}

impl CompositeFirewall {
    /// Create a composite over the given members.
    pub fn new(firewalls: Vec<FirewallVariant>) -> (r: CompositeFirewall)
        ensures
            r.firewalls == firewalls,
    {
        CompositeFirewall { firewalls }
    }

    /// Does some member block text `t`?
    pub open spec fn blocks(self, t: Seq<u8>) -> bool {
        first_blocking(self.firewalls@, t) is Some
    }

    /// The suspicious reasons of all members on text `t`.
    pub open spec fn suspicious_reasons(self, t: Seq<u8>) -> Seq<Seq<char>> {
        accumulated_suspicious(self.firewalls@, t)
    }

    /// Evaluate an action through every member: the first Blocked verdict
    /// is returned unchanged; otherwise suspicious reasons accumulate
    /// across members; with none, the composite is Clean.
    pub fn evaluate(&self, action: &AgentAction) -> (r: FirewallOutcome)
        ensures
            (r is Blocked) <==> self.blocks(scan_text(*action)),
            r matches FirewallOutcome::Blocked { reasons } ==> first_blocking(
                self.firewalls@,
                scan_text(*action),
            ) matches Some(i) && reasons.deep_view() == self.firewalls@[i].blocked_reasons(
                scan_text(*action),
            ),
            (r is Suspicious) <==> (!self.blocks(scan_text(*action)) && self.suspicious_reasons(
                scan_text(*action),
            ).len() > 0),
            r matches FirewallOutcome::Suspicious { reasons } ==> reasons.deep_view()
                == self.suspicious_reasons(scan_text(*action)),
    {
        proof {
            lemma_first_blocking(self.firewalls@, scan_text(*action));
        }
        let mut all_suspicious: Vec<String> = Vec::new();
        let mut i: usize = 0;
        while i < self.firewalls.len()
            invariant
                i <= self.firewalls@.len(),
                forall|j: int| 0 <= j < i ==> !(#[trigger] self.firewalls@[j]).blocks(
                    scan_text(*action),
                ),
                all_suspicious.deep_view() == accumulated_suspicious(
                    self.firewalls@.take(i as int),
                    scan_text(*action),
                ),
            decreases self.firewalls@.len() - i,
        {
            let outcome = self.firewalls[i].evaluate(action);
            proof {
                assert(self.firewalls@.take(i + 1).drop_last() == self.firewalls@.take(i as int));
                assert(self.firewalls@.take(i + 1).last() == self.firewalls@[i as int]);
            }
            match outcome {
                FirewallOutcome::Blocked { reasons } => {
                    proof {
                        lemma_first_blocking(self.firewalls@, scan_text(*action));
                        let k = first_blocking(self.firewalls@, scan_text(*action))->Some_0;
                        assert(!(k < i) && !(i < k));
                    }
                    return FirewallOutcome::Blocked { reasons };
                },
                FirewallOutcome::Suspicious { reasons } => {
                    let mut rs = reasons;
                    all_suspicious.append(&mut rs);
                    proof {
                        assert(all_suspicious.deep_view() =~~= accumulated_suspicious(
                            self.firewalls@.take(i + 1),
                            scan_text(*action),
                        ));
                    }
                },
                FirewallOutcome::Clean => {
                    proof {
                        assert(all_suspicious.deep_view() =~~= accumulated_suspicious(
                            self.firewalls@.take(i + 1),
                            scan_text(*action),
                        ));
                    }
                },
            }
            i = i + 1;
        }
        proof {
            assert(self.firewalls@.take(self.firewalls@.len() as int) == self.firewalls@);
            lemma_first_blocking(self.firewalls@, scan_text(*action));
        }
        if all_suspicious.len() == 0 {
            FirewallOutcome::Clean
        } else {
            FirewallOutcome::Suspicious { reasons: all_suspicious }
        }
    }
}

} // verus!
