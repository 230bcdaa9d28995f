//! String heuristics: classify constant-pool text literals as
//! obfuscated or encrypted payloads.
//!
//! Candidates are filtered and capped before analysis to bound per-file
//! cost; the per-string test runs in a data-parallel loop. Strings that
//! produce no finding enter a process-wide safe-string memo so that
//! identical literals seen later in the same run skip re-analysis.

use rayon::iter::IntoParallelRefIterator;
use rayon::iter::ParallelIterator;

use vstd::prelude::*;
use vstd::string::StrSliceExecFns;
use vstd::string::StringExecFns;

use crate::text::{
    all_matching, count_string_junk, dec_digits, is_base64_char, lemma_count_matching_le_len,
};
use crate::types::{finding_view, findings_view, Finding, FindingType, SpecFinding};

verus! {

// ---------------------------------------------------------------------------
// Per-string test
// ---------------------------------------------------------------------------

pub open spec fn msg_junk_string(junk: nat, total: nat) -> Seq<char> {
    "High-density encrypted string ("@ + dec_digits(junk * 100 / total) + "% junk)"@
}

/// The finding (if any) for one string literal: strings of fewer than
/// 40 characters are skipped; longer ones are flagged when more than 30
/// characters, and more than 85% of the length, are junk.
pub open spec fn string_finding_spec(s: Seq<char>) -> Option<SpecFinding> {
    let total = s.len();
    if total < 40 {
        Option::None
    } else {
        let junk = count_string_junk(s);
        if junk > 30 && junk * 100 > 85 * total {
            Option::Some((FindingType::ObfuscationString, msg_junk_string(junk, total)))
        } else {
            Option::None
        }
    }
}

/// A string the per-string test has nothing to say about.
pub open spec fn string_is_clean(s: Seq<char>) -> bool {
    string_finding_spec(s) is None
}

/// Test one string literal for an encrypted-payload pattern.
pub fn check_obfuscated_string(s: &str) -> (r: Option<Finding>)
    ensures
        (match string_finding_spec(s@) {
            Option::Some(f) => r matches Some(g) && finding_view(g) == f,
            Option::None => r is None,
        }),
{
    let total = s.unicode_len();
    if total < 40 {
        return None;
    }
    let junk = crate::text::count_string_junk_str(s);
    if junk > 30 && (junk as u128) * 100 > 85 * (total as u128) {
        proof {
            lemma_count_matching_le_len(s@, |c: char| crate::text::is_string_junk_char(c));
            assert((junk as int) * 100 / (total as int) <= 100) by (nonlinear_arith)
                requires
                    0 < total,
                    junk <= total,
            ;
        }
        let pct: u64 = ((junk as u128) * 100 / (total as u128)) as u64;
        let digits = crate::text::num_to_string(pct);
        let mut msg = String::from_str("High-density encrypted string (");
        msg.append(digits.as_str());
        msg.append("% junk)");
        Some((FindingType::ObfuscationString, msg))
    } else {
        None
    }
}

// ---------------------------------------------------------------------------
// Safe-string memo
// ---------------------------------------------------------------------------

/// A concurrency-safe, monotonically growing memo of string literals
/// already certified clean. Entries are never removed within a run.
///
/// Relies on `std::sync::Mutex` and `std::collections::HashSet`:
/// `contains` returns true only for a string equal to one previously
/// passed to `insert`, and `insert` demands a clean string, so a memo
/// hit certifies that the string is clean.
#[verifier::external_body]
pub struct SafeStringMemo {
    set: std::sync::Mutex<std::collections::HashSet<String>>,
}

impl SafeStringMemo {
    /// A fresh, empty memo.
    #[verifier::external_body]
    pub fn new() -> SafeStringMemo {
        SafeStringMemo { set: std::sync::Mutex::new(std::collections::HashSet::new()) }
    }

    /// Record a string certified clean.
    ///
    /// Relies on `HashSet::insert` under the lock; nothing is promised
    /// of the memo's contents beyond what `contains` states.
    #[verifier::external_body]
    fn insert(&self, s: &str)
        requires
            string_is_clean(s@),
    {
        if let Ok(mut guard) = self.set.lock() {
            guard.insert(s.to_string());
        }
    }

    /// Whether `s` was previously certified clean.
    ///
    /// Relies on `HashSet::contains` under the lock: a hit means a
    /// string with exactly these characters was inserted, and every
    /// insertion required the string to be clean.
    #[verifier::external_body]
    fn contains(&self, s: &str) -> (r: bool)
        ensures
            r ==> string_is_clean(s@),
    {
        match self.set.lock() {
            Ok(guard) => guard.contains(s),
            Err(_) => false,
        }
    }
}

/// What the per-string scan promises: exactly the specified finding,
/// or nothing for a clean string.
pub open spec fn scan_one_post(r: Option<Finding>, s: Seq<char>) -> bool {
    match string_finding_spec(s) {
        Option::Some(f) => r matches Some(g) && finding_view(g) == f,
        Option::None => r is None,
    }
}

/// Test one string, consulting and feeding the safe-string memo.
pub fn scan_one_string(memo: &SafeStringMemo, s: &String) -> (r: Option<Finding>)
    ensures
        scan_one_post(r, s@),
{
    if memo.contains(s.as_str()) {
        return None;
    }
    let r = check_obfuscated_string(s.as_str());
    if r.is_none() {
        memo.insert(s.as_str());
    }
    r
}

// ---------------------------------------------------------------------------
// Candidate filter
// ---------------------------------------------------------------------------

/// A literal worth analyzing: at least six characters, and not a long
/// space-free base64 blob (legitimate encoded resources).
pub open spec fn is_candidate(s: Seq<char>) -> bool {
    s.len() >= 6 && (s.len() < 30 || s.contains(' ') || !all_matching(
        s,
        |c: char| is_base64_char(c),
    ))
}

pub open spec fn candidate_filter(strings: Seq<Seq<char>>) -> Seq<Seq<char>> {
    strings.filter(|s: Seq<char>| is_candidate(s))
}

pub proof fn lemma_candidate_filter_concat(a: Seq<Seq<char>>, b: Seq<Seq<char>>)
    ensures
        candidate_filter(a + b) == candidate_filter(a) + candidate_filter(b),
{
    broadcast use vstd::seq_lib::group_filter_ensures;

    assert(candidate_filter(a + b) =~= candidate_filter(a) + candidate_filter(b));
}

/// The candidate set: qualifying literals in order, capped at 500.
pub open spec fn candidate_strings(strings: Seq<Seq<char>>) -> Seq<Seq<char>> {
    let f = candidate_filter(strings);
    if f.len() <= 500 {
        f
    } else {
        f.take(500)
    }
}

fn is_candidate_exec(s: &String) -> (r: bool)
    ensures
        r == is_candidate(s@),
{
    let n = s.as_str().unicode_len();
    if n < 6 {
        return false;
    }
    if n < 30 {
        return true;
    }
    if crate::text::str_contains_char(s.as_str(), ' ') {
        return true;
    }
    let mut i: usize = 0;
    let mut all64 = true;
    while i < n
        invariant
            n == s@.len(),
            i <= n,
            all64 <==> (forall|j: int| 0 <= j < i ==> is_base64_char(#[trigger] s@[j])),
        decreases n - i,
    {
        if !crate::text::base64_char(s.as_str().get_char(i)) {
            all64 = false;
            proof {
                assert(!is_base64_char(s@[i as int]));
            }
            i = n;
        } else {
            i = i + 1;
        }
    }
    !all64
}

/// Select and cap the literals worth analyzing, in stable order.
///
/// The safe-string memo is deliberately not consulted here, but per
/// string after the cap (see [`scan_one_string`]): consulting it
/// before the cap would let run-dependent memo state decide which
/// literals occupy the 500 slots, and the finding set would no longer
/// be a pure function of the input bytes. With the memo applied after
/// the cap, a memoized (hence clean) literal still occupies its slot
/// but can never change the findings, so only work is saved. The two
/// orders are observably different only when a class has more than 500
/// qualifying literals.
#[verifier::loop_isolation(false)]
pub fn prepare_strings_for_scanning(strings: &Vec<String>) -> (r: Vec<String>)
    ensures
        r.deep_view() == candidate_strings(strings.deep_view()),
{
    let ghost sv = strings.deep_view();
    let mut out: Vec<String> = Vec::new();
    let mut i: usize = 0;
    proof {
        assert(sv.take(0) =~= Seq::<Seq<char>>::empty());
        assert(out.deep_view() =~= candidate_filter(sv.take(0)));
    }
    while i < strings.len() && out.len() < 500
        invariant
            i <= strings@.len(),
            out.deep_view() == candidate_filter(sv.take(i as int)),
            out@.len() <= 500,
        decreases strings@.len() - i,
    {
        let ghost pre = candidate_filter(sv.take(i as int));
        proof {
            assert(sv[i as int] == strings@[i as int]@);
            assert(sv.take(i + 1) =~= sv.take(i as int) + seq![sv[i as int]]);
            lemma_candidate_filter_concat(sv.take(i as int), seq![sv[i as int]]);
            assert(candidate_filter(seq![sv[i as int]]) =~= (if is_candidate(sv[i as int]) {
                seq![sv[i as int]]
            } else {
                Seq::<Seq<char>>::empty()
            })) by {
                reveal_with_fuel(Seq::<Seq<char>>::filter, 3);
                assert(seq![sv[i as int]].drop_last() =~= Seq::<Seq<char>>::empty());
            }
        }
        if is_candidate_exec(&strings[i]) {
            out.push(strings[i].clone());
            proof {
                assert(out.deep_view() =~= pre + seq![sv[i as int]]);
            }
        } else {
            proof {
                assert(candidate_filter(sv.take(i + 1)) =~= pre);
            }
        }
        i = i + 1;
    }
    proof {
        let f = candidate_filter(sv);
        if i == strings@.len() {
            assert(sv.take(i as int) =~= sv);
            assert(out.deep_view().len() <= 500);
            if f.len() <= 500 {
            } else {
                assert(false);
            }
            assert(out.deep_view() =~= candidate_strings(sv));
        } else {
            // stopped at the cap
            assert(out@.len() == 500);
            assert(sv =~= sv.take(i as int) + sv.skip(i as int));
            lemma_candidate_filter_concat(sv.take(i as int), sv.skip(i as int));
            assert(f =~= out.deep_view() + candidate_filter(sv.skip(i as int)));
            assert(f.len() >= 500);
            if f.len() <= 500 {
                assert(f =~= out.deep_view());
                assert(out.deep_view() =~= candidate_strings(sv));
            } else {
                assert(f.take(500) =~= out.deep_view());
                assert(out.deep_view() =~= candidate_strings(sv));
            }
        }
    }
    out
}

// ---------------------------------------------------------------------------
// Parallel scan
// ---------------------------------------------------------------------------

/// The findings for a candidate list, in candidate order.
pub open spec fn string_findings_of(cands: Seq<Seq<char>>) -> Seq<SpecFinding>
    decreases cands.len(),
{
    if cands.len() == 0 {
        Seq::empty()
    } else {
        string_findings_of(cands.drop_last()) + (match string_finding_spec(cands.last()) {
            Option::Some(f) => seq![f],
            Option::None => Seq::empty(),
        })
    }
}

/// The string-heuristic findings for a class's literal table.
pub open spec fn string_findings_spec(strings: Seq<Seq<char>>) -> Seq<SpecFinding> {
    string_findings_of(candidate_strings(strings))
}

/// Relies on rayon's `par_iter().map(..).collect::<Vec<_>>()`: the
/// result has one entry per input, in input order, each entry produced
/// by the closure, which only calls the verified per-string scan.
#[verifier::external_body]
fn par_scan_strings(memo: &SafeStringMemo, strings: &Vec<String>) -> (r: Vec<Option<Finding>>)
    ensures
        r@.len() == strings@.len(),
        forall|i: int| 0 <= i < r@.len() ==> scan_one_post(r@[i], strings@[i]@),
{
    strings.par_iter().map(|s| scan_one_string(memo, s)).collect()
}

/// Run the per-string test over the candidate list in parallel and
/// append the findings, in candidate order.
#[verifier::loop_isolation(false)]
pub fn scan_strings_for_webhooks_and_obfuscation(
    memo: &SafeStringMemo,
    candidates: &Vec<String>,
    findings: &mut Vec<Finding>,
)
    ensures
        findings_view(final(findings)@) == findings_view(old(findings)@) + string_findings_of(
            candidates.deep_view(),
        ),
{
    let ghost cv = candidates.deep_view();
    let results = par_scan_strings(memo, candidates);
    let mut out: Vec<Finding> = Vec::new();
    let mut i: usize = 0;
    proof {
        assert(cv.take(0) =~= Seq::<Seq<char>>::empty());
        assert(findings_view(out@) =~= string_findings_of(cv.take(0)));
    }
    while i < results.len()
        invariant
            i <= results@.len(),
            findings_view(out@) == string_findings_of(cv.take(i as int)),
        decreases results@.len() - i,
    {
        let ghost pre = out@;
        proof {
            assert(cv[i as int] == candidates@[i as int]@);
            assert(scan_one_post(results@[i as int], candidates@[i as int]@));
        }
        match &results[i] {
            Some(f) => {
                let copy: Finding = (f.0, f.1.clone());
                out.push(copy);
                proof {
                    crate::types::lemma_findings_view_push(pre, copy);
                }
            },
            None => {},
        }
        i = i + 1;
        proof {
            assert(cv.take(i as int).drop_last() =~= cv.take(i - 1));
            assert(cv.take(i as int).last() == cv[i - 1]);
            assert(findings_view(out@) =~= string_findings_of(cv.take(i as int)));
        }
    }
    proof {
        assert(cv.take(cv.len() as int) =~= cv);
    }
    let ghost before = findings@;
    let ghost outv = out@;
    findings.append(&mut out);
    proof {
        crate::types::lemma_findings_view_concat(before, outv);
    }
}

} // verus!
