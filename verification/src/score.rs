//! Danger scoring: turn a finding multiset into a 1..10 score and a
//! deterministic, human-readable explanation.

use vstd::prelude::*;
use vstd::string::StringExecFns;

use crate::text::{count_matching, dec_digits};
use crate::types::{
    base_score_spec, findings_view, max_contribution_spec, Finding, FindingType, SpecFinding,
};

verus! {

// ---------------------------------------------------------------------------
// Score specification
// ---------------------------------------------------------------------------

/// How many findings of kind `t` the set holds.
pub open spec fn type_count(fs: Seq<SpecFinding>, t: FindingType) -> nat {
    count_matching(fs, |f: SpecFinding| f.0 == t)
}

/// The capped score contribution of `count` findings of kind `t`.
pub open spec fn contribution_of(count: nat, t: FindingType) -> int {
    let raw = count * base_score_spec(t);
    if raw <= max_contribution_spec(t) {
        raw
    } else {
        max_contribution_spec(t)
    }
}

/// The uncapped sum of the per-kind contributions.
pub open spec fn raw_score(fs: Seq<SpecFinding>) -> int {
    contribution_of(type_count(fs, FindingType::DiscordWebhook), FindingType::DiscordWebhook)
        + contribution_of(
        type_count(fs, FindingType::ObfuscationRandomName),
        FindingType::ObfuscationRandomName,
    ) + contribution_of(
        type_count(fs, FindingType::ObfuscationUnicode),
        FindingType::ObfuscationUnicode,
    ) + contribution_of(
        type_count(fs, FindingType::ObfuscationString),
        FindingType::ObfuscationString,
    )
}

/// The danger score of a finding set: 1 for no findings; 10 whenever a
/// webhook finding is present; otherwise the contribution sum clamped
/// to [1, 10].
pub open spec fn score_spec(fs: Seq<SpecFinding>) -> int {
    if fs.len() == 0 {
        1
    } else if type_count(fs, FindingType::DiscordWebhook) > 0 {
        10
    } else {
        let sum = raw_score(fs);
        if sum < 1 {
            1
        } else if sum > 10 {
            10
        } else {
            sum
        }
    }
}

// ---------------------------------------------------------------------------
// Explanation specification
// ---------------------------------------------------------------------------

/// The overall verdict line, selected by score bucket.
pub open spec fn verdict_line(score: int) -> Seq<char> {
    if score >= 10 {
        "CRITICAL RISK: This file is almost certainly malicious!"@
    } else if score >= 8 {
        "HIGH RISK: This file contains multiple high-risk indicators!"@
    } else if score >= 5 {
        "MODERATE RISK: This file contains several suspicious elements."@
    } else if score >= 3 {
        "LOW RISK: This file contains some potentially concerning elements."@
    } else if score >= 2 {
        "VERY LOW RISK: This file contains only isolated weak signals."@
    } else {
        "MINIMAL RISK: Few or no concerning elements detected."@
    }
}

/// The per-kind summary line.
pub open spec fn type_line(t: FindingType, count: nat) -> Seq<char> {
    match t {
        FindingType::DiscordWebhook => "CRITICAL: Found "@ + dec_digits(count)
            + " Discord webhook(s)! These are extremely dangerous and commonly used for data exfiltration."@,
        FindingType::ObfuscationUnicode => "Found "@ + dec_digits(count)
            + " obfuscated name(s) with Unicode characters."@,
        FindingType::ObfuscationRandomName => "Found "@ + dec_digits(count)
            + " obfuscated name(s) with random naming pattern (a, b, c, ...)."@,
        FindingType::ObfuscationString => "Found "@ + dec_digits(count)
            + " obfuscated string(s) with non-ASCII characters."@,
    }
}

pub open spec fn type_line_opt(fs: Seq<SpecFinding>, t: FindingType) -> Seq<Seq<char>> {
    if type_count(fs, t) > 0 {
        seq![type_line(t, type_count(fs, t))]
    } else {
        Seq::empty()
    }
}

/// The explanation: a verdict line, then one summary line per finding
/// kind present, in a fixed kind order. Deterministic in the finding
/// multiset regardless of discovery order.
pub open spec fn explanation_spec(score: int, fs: Seq<SpecFinding>) -> Seq<Seq<char>> {
    if fs.len() == 0 {
        seq!["No suspicious elements detected."@]
    } else {
        seq![verdict_line(score)] + type_line_opt(fs, FindingType::DiscordWebhook) + type_line_opt(
            fs,
            FindingType::ObfuscationUnicode,
        ) + type_line_opt(fs, FindingType::ObfuscationRandomName) + type_line_opt(
            fs,
            FindingType::ObfuscationString,
        )
    }
}

// ---------------------------------------------------------------------------
// Exec scorer
// ---------------------------------------------------------------------------

/// Count the findings of each kind in one pass: webhook, unicode,
/// random-name, string.
#[verifier::loop_isolation(false)]
fn count_by_type(findings: &Vec<Finding>) -> (r: (usize, usize, usize, usize))
    ensures
        r.0 == type_count(findings_view(findings@), FindingType::DiscordWebhook),
        r.1 == type_count(findings_view(findings@), FindingType::ObfuscationUnicode),
        r.2 == type_count(findings_view(findings@), FindingType::ObfuscationRandomName),
        r.3 == type_count(findings_view(findings@), FindingType::ObfuscationString),
{
    let ghost fv = findings_view(findings@);
    let mut webhook: usize = 0;
    let mut unicode: usize = 0;
    let mut random: usize = 0;
    let mut strings: usize = 0;
    let mut i: usize = 0;
    proof {
        assert(fv.take(0) =~= Seq::<SpecFinding>::empty());
        assert(fv.len() == findings@.len());
    }
    while i < findings.len()
        invariant
            i <= findings@.len(),
            webhook == type_count(fv.take(i as int), FindingType::DiscordWebhook),
            unicode == type_count(fv.take(i as int), FindingType::ObfuscationUnicode),
            random == type_count(fv.take(i as int), FindingType::ObfuscationRandomName),
            strings == type_count(fv.take(i as int), FindingType::ObfuscationString),
            webhook <= i && unicode <= i && random <= i && strings <= i,
        decreases findings@.len() - i,
    {
        proof {
            assert(fv[i as int] == crate::types::finding_view(findings@[i as int]));
        }
        match findings[i].0 {
            FindingType::DiscordWebhook => {
                webhook = webhook + 1;
            },
            FindingType::ObfuscationUnicode => {
                unicode = unicode + 1;
            },
            FindingType::ObfuscationRandomName => {
                random = random + 1;
            },
            FindingType::ObfuscationString => {
                strings = strings + 1;
            },
        }
        i = i + 1;
        proof {
            assert(fv.take(i as int).drop_last() =~= fv.take(i - 1));
            assert(fv.take(i as int).last() == fv[i - 1]);
        }
    }
    proof {
        assert(fv.take(findings@.len() as int) =~= fv);
    }
    (webhook, unicode, random, strings)
}

fn contribution_exec(count: usize, t: FindingType) -> (r: u8)
    ensures
        r as int == contribution_of(count as nat, t),
{
    let base = t.base_score();
    let cap = t.max_contribution();
    if count >= 10 {
        proof {
            assert(count as nat * base_score_spec(t) >= 10 * base_score_spec(t))
                by (nonlinear_arith)
                requires
                    count >= 10,
                    base_score_spec(t) >= 0,
            ;
        }
        cap
    } else {
        let raw: u8 = (count as u8) * base;
        if raw <= cap {
            raw
        } else {
            cap
        }
    }
}

/// The danger score for a finding set. Empty findings score 1; any
/// webhook finding forces 10; otherwise the per-kind contributions,
/// each capped, are summed and clamped to [1, 10].
pub fn calculate_danger_score(findings: &Vec<Finding>) -> (r: u8)
    ensures
        r as int == score_spec(findings_view(findings@)),
        1 <= r <= 10,
{
    proof {
        assert(findings_view(findings@).len() == findings@.len());
    }
    if findings.len() == 0 {
        return 1;
    }
    let (webhook, unicode, random, strings) = count_by_type(findings);
    if webhook > 0 {
        return 10;
    }
    let c0 = contribution_exec(webhook, FindingType::DiscordWebhook);
    let c1 = contribution_exec(random, FindingType::ObfuscationRandomName);
    let c2 = contribution_exec(unicode, FindingType::ObfuscationUnicode);
    let c3 = contribution_exec(strings, FindingType::ObfuscationString);
    let sum: u32 = c0 as u32 + c1 as u32 + c2 as u32 + c3 as u32;
    if sum < 1 {
        1
    } else if sum > 10 {
        10
    } else {
        sum as u8
    }
}

// ---------------------------------------------------------------------------
// Exec explanation
// ---------------------------------------------------------------------------

fn verdict_line_exec(score: u8) -> (r: String)
    ensures
        r@ == verdict_line(score as int),
{
    if score >= 10 {
        String::from_str("CRITICAL RISK: This file is almost certainly malicious!")
    } else if score >= 8 {
        String::from_str("HIGH RISK: This file contains multiple high-risk indicators!")
    } else if score >= 5 {
        String::from_str("MODERATE RISK: This file contains several suspicious elements.")
    } else if score >= 3 {
        String::from_str("LOW RISK: This file contains some potentially concerning elements.")
    } else if score >= 2 {
        String::from_str("VERY LOW RISK: This file contains only isolated weak signals.")
    } else {
        String::from_str("MINIMAL RISK: Few or no concerning elements detected.")
    }
}

fn type_line_exec(t: FindingType, count: usize) -> (r: String)
    ensures
        r@ == type_line(t, count as nat),
{
    let digits = crate::text::num_to_string(count as u64);
    match t {
        FindingType::DiscordWebhook => {
            let mut msg = String::from_str("CRITICAL: Found ");
            msg.append(digits.as_str());
            msg.append(
                " Discord webhook(s)! These are extremely dangerous and commonly used for data exfiltration.",
            );
            msg
        },
        FindingType::ObfuscationUnicode => {
            let mut msg = String::from_str("Found ");
            msg.append(digits.as_str());
            msg.append(" obfuscated name(s) with Unicode characters.");
            msg
        },
        FindingType::ObfuscationRandomName => {
            let mut msg = String::from_str("Found ");
            msg.append(digits.as_str());
            msg.append(" obfuscated name(s) with random naming pattern (a, b, c, ...).");
            msg
        },
        FindingType::ObfuscationString => {
            let mut msg = String::from_str("Found ");
            msg.append(digits.as_str());
            msg.append(" obfuscated string(s) with non-ASCII characters.");
            msg
        },
    }
}

/// The explanation lines for a scored finding set: the verdict line,
/// then a count line per finding kind present, in fixed kind order.
pub fn generate_danger_explanation(score: u8, findings: &Vec<Finding>) -> (r: Vec<String>)
    ensures
        r.deep_view() == explanation_spec(score as int, findings_view(findings@)),
{
    let ghost fv = findings_view(findings@);
    proof {
        assert(fv.len() == findings@.len());
    }
    let mut out: Vec<String> = Vec::new();
    if findings.len() == 0 {
        out.push(String::from_str("No suspicious elements detected."));
        proof {
            assert(out.deep_view() =~= explanation_spec(score as int, fv));
        }
        return out;
    }
    let (webhook, unicode, random, strings) = count_by_type(findings);
    out.push(verdict_line_exec(score));
    if webhook > 0 {
        out.push(type_line_exec(FindingType::DiscordWebhook, webhook));
    }
    if unicode > 0 {
        out.push(type_line_exec(FindingType::ObfuscationUnicode, unicode));
    }
    if random > 0 {
        out.push(type_line_exec(FindingType::ObfuscationRandomName, random));
    }
    if strings > 0 {
        out.push(type_line_exec(FindingType::ObfuscationString, strings));
    }
    proof {
        assert(out.deep_view() =~= explanation_spec(score as int, fv));
    }
    out
}

// ---------------------------------------------------------------------------
// Laws
// ---------------------------------------------------------------------------

pub proof fn lemma_type_count_le_len(fs: Seq<SpecFinding>, t: FindingType)
    ensures
        type_count(fs, t) <= fs.len(),
    decreases fs.len(),
{
    if fs.len() > 0 {
        lemma_type_count_le_len(fs.drop_last(), t);
    }
}

/// Law: the danger score is always within [1, 10], and an empty finding
/// set scores exactly 1.
pub proof fn lemma_score_bounds(fs: Seq<SpecFinding>)
    ensures
        1 <= score_spec(fs) <= 10,
        fs.len() == 0 ==> score_spec(fs) == 1,
{
}

/// Law: any finding set holding at least one webhook finding scores
/// exactly 10, regardless of its other contents.
pub proof fn lemma_webhook_dominance(fs: Seq<SpecFinding>)
    requires
        type_count(fs, FindingType::DiscordWebhook) > 0,
    ensures
        score_spec(fs) == 10,
{
    lemma_type_count_le_len(fs, FindingType::DiscordWebhook);
}

proof fn lemma_type_count_remove(fs: Seq<SpecFinding>, t: FindingType, j: int)
    requires
        0 <= j < fs.len(),
    ensures
        type_count(fs, t) == type_count(fs.remove(j), t) + (if fs[j].0 == t {
            1int
        } else {
            0int
        }),
    decreases fs.len(),
{
    if j == fs.len() - 1 {
        assert(fs.remove(j) =~= fs.drop_last());
    } else {
        assert(fs.remove(j).drop_last() =~= fs.drop_last().remove(j));
        assert(fs.remove(j).last() == fs.last());
        lemma_type_count_remove(fs.drop_last(), t, j);
    }
}

proof fn lemma_type_count_multiset(f1: Seq<SpecFinding>, f2: Seq<SpecFinding>, t: FindingType)
    requires
        f1.to_multiset() == f2.to_multiset(),
    ensures
        type_count(f1, t) == type_count(f2, t),
    decreases f1.len(),
{
    broadcast use vstd::seq_lib::group_to_multiset_ensures;

    assert(f1.to_multiset().len() == f1.len());
    assert(f2.to_multiset().len() == f2.len());
    if f1.len() == 0 {
        assert(f2.len() == 0);
    } else {
        let x = f1.last();
        assert(f1.contains(x));
        assert(f1.to_multiset().count(x) > 0);
        assert(f2.contains(x));
        let j = choose|j: int| 0 <= j < f2.len() && f2[j] == x;
        assert(f1.remove(f1.len() - 1) =~= f1.drop_last());
        assert(f1.drop_last().to_multiset() =~= f1.to_multiset().remove(x));
        assert(f2.remove(j).to_multiset() =~= f2.to_multiset().remove(x));
        lemma_type_count_multiset(f1.drop_last(), f2.remove(j), t);
        lemma_type_count_remove(f2, t, j);
    }
}

/// Law: the score and the explanation depend only on the finding
/// multiset, never on the order in which findings were discovered.
pub proof fn lemma_result_order_independent(f1: Seq<SpecFinding>, f2: Seq<SpecFinding>)
    requires
        f1.to_multiset() == f2.to_multiset(),
    ensures
        score_spec(f1) == score_spec(f2),
        explanation_spec(score_spec(f1), f1) == explanation_spec(score_spec(f2), f2),
{
    broadcast use vstd::seq_lib::group_to_multiset_ensures;

    assert(f1.to_multiset().len() == f1.len());
    assert(f2.to_multiset().len() == f2.len());
    assert(f1.len() == f2.len());
    lemma_type_count_multiset(f1, f2, FindingType::DiscordWebhook);
    lemma_type_count_multiset(f1, f2, FindingType::ObfuscationRandomName);
    lemma_type_count_multiset(f1, f2, FindingType::ObfuscationUnicode);
    lemma_type_count_multiset(f1, f2, FindingType::ObfuscationString);
}

} // verus!
