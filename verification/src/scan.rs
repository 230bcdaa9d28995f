//! The scan orchestrator: content hash, cache probe, magic check,
//! parse, heuristics, scoring, and result assembly.

use vstd::prelude::*;
use vstd::string::StringExecFns;

use crate::hashing::{calculate_detection_hash, fnv1a_hash};
use crate::names::{check_name_obfuscation, name_findings_spec};
use crate::parser::{malformed_reason, parse_class_structure, spec_parse_class};
use crate::score::{
    calculate_danger_score, explanation_spec, generate_danger_explanation, score_spec,
};
use crate::strings::{
    prepare_strings_for_scanning, scan_strings_for_webhooks_and_obfuscation, string_findings_spec,
    SafeStringMemo,
};
use crate::types::{
    findings_view, ClassDetails, ClassDetailsSpec, Finding, ParseError, ResourceInfo, ScanError,
    ScanResult, ScannerOptions, SpecFinding,
};

verus! {

// ---------------------------------------------------------------------------
// Finding cache
// ---------------------------------------------------------------------------

/// The findings the whole pipeline assigns to one byte sequence, when
/// it assigns any: the empty set for a non-standard file, the heuristic
/// findings for a parseable standard file, nothing for a standard file
/// the parser rejects (those are never cached).
pub open spec fn scan_findings_for(bytes: Seq<u8>) -> Option<Seq<SpecFinding>> {
    if !standard_magic(bytes) {
        Option::Some(Seq::empty())
    } else {
        match spec_parse_class(bytes) {
            Result::Ok(d) => Option::Some(computed_findings_spec(d)),
            Result::Err(_) => Option::None,
        }
    }
}

/// A finding set that genuinely belongs under a cache key: it is what
/// the pipeline computes for some byte sequence with that content hash.
/// (Distinct byte sequences may share a hash; a collision only affects
/// detection quality, never safety.)
pub open spec fn valid_cache_entry(hash: u64, fs: Seq<SpecFinding>) -> bool {
    exists|bytes: Seq<u8>|
        #[trigger] fnv1a_hash(bytes) == hash && scan_findings_for(bytes) == Option::Some(fs)
}

/// The content-addressed cache from raw-byte hash to the shared finding
/// set, shared across a whole scan run and safe for concurrent use.
///
/// Relies on `moka::sync::Cache`: a bounded, concurrency-safe map with
/// approximately least-recently-used eviction. Entries may be evicted
/// at any time and other threads insert concurrently, so no contract
/// ties a lookup to an earlier call; but the cache never fabricates a
/// value and never returns one stored under a different key, so every
/// value it hands out was stored by `get_with`, whose caller had to
/// show it genuine.
#[verifier::external_body]
pub struct FindingCache {
    cache: moka::sync::Cache<u64, std::sync::Arc<Vec<Finding>>>,
}

impl FindingCache {
    /// A fresh cache bounded at `capacity` entries.
    ///
    /// Relies on `moka::sync::Cache::new`.
    #[verifier::external_body]
    fn new(capacity: u64) -> FindingCache {
        FindingCache { cache: moka::sync::Cache::new(capacity) }
    }

    /// A clone of the finding set cached under `hash`, if one is
    /// present right now.
    ///
    /// Relies on `moka::sync::Cache::get`: a hit is a value that was
    /// stored under this same key, and every store (through `get_with`
    /// below) required it to be a genuine finding set for the key.
    #[verifier::external_body]
    fn get(&self, hash: u64) -> (r: Option<std::sync::Arc<Vec<Finding>>>)
        ensures
            r matches Some(v) ==> valid_cache_entry(hash, findings_view(v@)),
    {
        self.cache.get(&hash)
    }

    /// The finding set cached under `hash`, inserting the given one if
    /// none is present; concurrent duplicate computation for the same
    /// key resolves to a single stored value.
    ///
    /// Relies on `moka::sync::Cache::get_with`; only genuine finding
    /// sets for the key may be stored.
    #[verifier::external_body]
    fn get_with(&self, hash: u64, value: &std::sync::Arc<Vec<Finding>>) -> std::sync::Arc<
        Vec<Finding>,
    >
        requires
            valid_cache_entry(hash, findings_view(value@)),
    {
        self.cache.get_with(hash, || value.clone())
    }
}

/// Relies on `Arc`'s `Deref`: a shared borrow of the owned vector.
#[verifier::external_body]
fn arc_findings(a: &std::sync::Arc<Vec<Finding>>) -> (r: &Vec<Finding>)
    ensures
        r@ == a@,
{
    &**a
}

// ---------------------------------------------------------------------------
// Pipeline specification
// ---------------------------------------------------------------------------

/// Whether the first two bytes are the standard class-file magic.
/// Anything else marks a non-standard (custom class loader) file, which
/// is handled without invoking the structural parser.
pub open spec fn standard_magic(data: Seq<u8>) -> bool {
    data.len() >= 2 && data[0] == 0xCA && data[1] == 0xFE
}

/// The findings the fresh-parse path computes for one parsed class:
/// the naming heuristics, then the string heuristics.
pub open spec fn computed_findings_spec(d: ClassDetailsSpec) -> Seq<SpecFinding> {
    name_findings_spec(d) + string_findings_spec(d.strings)
}

/// What every produced `ScanResult` satisfies: the requested path and
/// resource metadata are carried through, the score and explanation are
/// the pure functions of the finding set, and a result with no findings
/// is only produced in verbose mode.
pub open spec fn result_shape(
    res: ScanResult,
    path: Seq<char>,
    ri: Option<ResourceInfo>,
    verbose: bool,
) -> bool {
    &&& res.file_path@ == path
    &&& res.resource_info == ri
    &&& res.danger_score as int == score_spec(findings_view(res.matches@))
    &&& 1 <= res.danger_score <= 10
    &&& res.danger_explanation.deep_view() == explanation_spec(
        res.danger_score as int,
        findings_view(res.matches@),
    )
    &&& verbose || res.matches@.len() > 0
}

// ---------------------------------------------------------------------------
// Scanner
// ---------------------------------------------------------------------------

/// The scan orchestrator: owns the finding cache, the safe-string memo
/// and the process-wide custom-loader indicator.
pub struct CollapseFindOBFScanner {
    pub options: ScannerOptions,
    pub found_custom_jvm_indicator: std::sync::atomic::AtomicBool,
    pub result_cache: FindingCache,
    pub safe_memo: SafeStringMemo,
}

impl CollapseFindOBFScanner {
    /// A scanner with the given options, a fresh bounded cache, an
    /// empty safe-string memo and a cleared custom-loader indicator.
    pub fn new(options: ScannerOptions) -> (r: Result<CollapseFindOBFScanner, ScanError>)
        ensures
            r matches Ok(s) && s.options == options,
    {
        let capacity = options.cache_capacity;
        Ok(
            CollapseFindOBFScanner {
                options,
                found_custom_jvm_indicator: std::sync::atomic::AtomicBool::new(false),
                result_cache: FindingCache::new(capacity),
                safe_memo: SafeStringMemo::new(),
            },
        )
    }

    /// Whether any input scanned so far was a non-standard class file.
    /// The indicator is set-only for the scanner's lifetime.
    pub fn custom_jvm_indicator_found(&self) -> bool {
        self.found_custom_jvm_indicator.load(std::sync::atomic::Ordering::SeqCst)
    }

    fn get_cached_findings(&self, hash: u64) -> (r: Option<std::sync::Arc<Vec<Finding>>>)
        ensures
            r matches Some(v) ==> valid_cache_entry(hash, findings_view(v@)),
    {
        self.result_cache.get(hash)
    }

    /// Scan one class file: hash, cache probe, magic check, parse,
    /// heuristics, score. A suppressed (`Ok(None)`) outcome only
    /// happens outside verbose mode and certifies an empty finding set
    /// under this input's content hash; an error only for a
    /// standard-magic file the parser rejects; and whenever the
    /// structural summary is part of the result, the findings are
    /// exactly the pure function of the input bytes.
    pub fn scan_class_data(
        &self,
        data: &[u8],
        original_path_str: &str,
        resource_info: Option<ResourceInfo>,
    ) -> (r: Result<Option<ScanResult>, ScanError>)
        ensures
            !standard_magic(data@) ==> r is Ok,
            r is Err ==> standard_magic(data@) && spec_parse_class(data@) is Err && (
            r->Err_0 matches ScanError::Parse(ParseError::Malformed { reason }) && reason@
                == malformed_reason(spec_parse_class(data@)->Err_0)),
            r matches Ok(o) ==> (o is None ==> !self.options.verbose),
            r matches Ok(Some(res)) ==> result_shape(
                res,
                original_path_str@,
                resource_info,
                self.options.verbose,
            ),
            r matches Ok(Some(res)) ==> (res.class_details is Some ==> {
                &&& standard_magic(data@)
                &&& spec_parse_class(data@) is Ok
                &&& res.class_details->Some_0@ == spec_parse_class(data@)->Ok_0
                &&& findings_view(res.matches@) == computed_findings_spec(
                    spec_parse_class(data@)->Ok_0,
                )
            }),
            r matches Ok(Some(res)) ==> valid_cache_entry(
                fnv1a_hash(data@),
                findings_view(res.matches@),
            ),
            r matches Ok(o) ==> (o is None ==> valid_cache_entry(
                fnv1a_hash(data@),
                Seq::<SpecFinding>::empty(),
            )),
    {
        let data_hash = calculate_detection_hash(data);

        if let Some(cached) = self.get_cached_findings(data_hash) {
            let ghost cached_view = cached@;
            let r = self.handle_cached_findings(cached, original_path_str, resource_info);
            proof {
                assert(findings_view(cached_view).len() == cached_view.len());
                if cached_view.len() == 0 {
                    assert(findings_view(cached_view) =~= Seq::<SpecFinding>::empty());
                }
            }
            return r;
        }
        let non_standard = data.len() < 2 || {
            let b0 = data[0];
            let b1 = data[1];
            !(b0 == 0xCA && b1 == 0xFE)
        };
        if non_standard {
            proof {
                assert(!standard_magic(data@));
                assert(fnv1a_hash(data@) == data_hash && scan_findings_for(data@)
                    == Option::Some(Seq::<SpecFinding>::empty()));
            }
            let r = self.handle_non_standard_class(data_hash, original_path_str, resource_info);
            proof {
                assert(r matches Ok(Some(res)) ==> findings_view(res.matches@)
                    =~= Seq::<SpecFinding>::empty());
            }
            return r;
        }
        proof {
            assert(standard_magic(data@));
        }
        let class_details = match parse_class_structure(data) {
            Ok(d) => d,
            Err(e) => {
                return Err(ScanError::Parse(e));
            },
        };
        let mut findings: Vec<Finding> = Vec::new();
        proof {
            assert(findings_view(findings@) =~= Seq::<SpecFinding>::empty());
        }
        check_name_obfuscation(&class_details, &mut findings);
        proof {
            assert(findings_view(findings@) =~= name_findings_spec(class_details@));
        }
        let strings_to_scan = prepare_strings_for_scanning(&class_details.strings);
        scan_strings_for_webhooks_and_obfuscation(&self.safe_memo, &strings_to_scan, &mut findings);
        proof {
            assert(findings_view(findings@) =~= computed_findings_spec(class_details@));
        }
        let shared: std::sync::Arc<Vec<Finding>> = std::sync::Arc::new(findings);
        let ghost shared_view = shared@;
        proof {
            assert(fnv1a_hash(data@) == data_hash && scan_findings_for(data@) == Option::Some(
                findings_view(shared@),
            ));
        }
        let _cached = self.result_cache.get_with(data_hash, &shared);
        let r = self.create_scan_result(shared, class_details, original_path_str, resource_info);
        proof {
            assert(findings_view(shared_view).len() == shared_view.len());
            if shared_view.len() == 0 {
                assert(findings_view(shared_view) =~= Seq::<SpecFinding>::empty());
            }
        }
        r
    }

    /// Scan one class file and always produce a report: a suppressed
    /// clean outcome becomes the default "no suspicious elements"
    /// report. The reported path is the resource metadata's recorded
    /// path when metadata is present, else the one given. Every report
    /// carries a genuine finding set for the input's content hash, and
    /// one with the structural summary carries exactly the findings the
    /// pipeline computes for these bytes.
    pub fn scan_class_file_data(
        &self,
        original_path_str: &str,
        data: &[u8],
        resource_info: Option<ResourceInfo>,
    ) -> (r: Result<ScanResult, ScanError>)
        ensures
            !standard_magic(data@) ==> r is Ok,
            r is Err ==> standard_magic(data@) && spec_parse_class(data@) is Err && (
            r->Err_0 matches ScanError::Parse(ParseError::Malformed { reason }) && reason@
                == malformed_reason(spec_parse_class(data@)->Err_0)),
            r matches Ok(res) ==> {
                &&& res.file_path@ == (match resource_info {
                    Some(ri) => ri.path@,
                    None => original_path_str@,
                })
                &&& res.danger_score as int == score_spec(findings_view(res.matches@))
                &&& 1 <= res.danger_score <= 10
                &&& res.danger_explanation.deep_view() == explanation_spec(
                    res.danger_score as int,
                    findings_view(res.matches@),
                )
            },
            r matches Ok(res) ==> valid_cache_entry(
                fnv1a_hash(data@),
                findings_view(res.matches@),
            ),
            r matches Ok(res) ==> (res.class_details matches Some(cd) ==> {
                &&& standard_magic(data@)
                &&& spec_parse_class(data@) is Ok
                &&& cd@ == spec_parse_class(data@)->Ok_0
                &&& findings_view(res.matches@) == computed_findings_spec(
                    spec_parse_class(data@)->Ok_0,
                )
            }),
    {
        let path: String = match &resource_info {
            Some(ri) => ri.path.clone(),
            None => String::from_str(original_path_str),
        };
        let inner = self.scan_class_data(data, path.as_str(), resource_info.clone());
        match inner {
            Err(e) => Err(e),
            Ok(Some(res)) => Ok(res),
            Ok(None) => {
                let matches: std::sync::Arc<Vec<Finding>> = std::sync::Arc::new(Vec::new());
                let ghost matches_view = matches@;
                let findings_ref = arc_findings(&matches);
                let danger_score = calculate_danger_score(findings_ref);
                let danger_explanation = generate_danger_explanation(danger_score, findings_ref);
                proof {
                    assert(findings_view(matches_view) =~= Seq::<SpecFinding>::empty());
                }
                Ok(
                    ScanResult {
                        file_path: path,
                        matches,
                        class_details: None,
                        resource_info,
                        danger_score,
                        danger_explanation,
                    },
                )
            },
        }
    }

    /// Build a result from a cached finding set; the structural summary
    /// is not recomputed on this path. A non-empty cached set is always
    /// reported, never suppressed.
    fn handle_cached_findings(
        &self,
        cached: std::sync::Arc<Vec<Finding>>,
        original_path_str: &str,
        resource_info: Option<ResourceInfo>,
    ) -> (r: Result<Option<ScanResult>, ScanError>)
        ensures
            r is Ok,
            r matches Ok(o) ==> (o is None ==> !self.options.verbose),
            cached@.len() > 0 ==> (r matches Ok(o) && o is Some),
            r matches Ok(Some(res)) ==> (result_shape(
                res,
                original_path_str@,
                resource_info,
                self.options.verbose,
            ) && res.class_details is None && res.matches@ == cached@),
    {
        let findings_ref = arc_findings(&cached);
        if findings_ref.len() > 0 || self.options.verbose {
            let danger_score = calculate_danger_score(findings_ref);
            let danger_explanation = generate_danger_explanation(danger_score, findings_ref);
            Ok(
                Some(
                    ScanResult {
                        file_path: String::from_str(original_path_str),
                        matches: cached,
                        class_details: None,
                        resource_info,
                        danger_score,
                        danger_explanation,
                    },
                ),
            )
        } else {
            Ok(None)
        }
    }

    /// Handle an input without the standard magic: set the process-wide
    /// custom-loader indicator, cache an empty finding set under the
    /// hash, and build a (possibly suppressed) result from it. The
    /// structural parser is never invoked on this path.
    fn handle_non_standard_class(
        &self,
        data_hash: u64,
        original_path_str: &str,
        resource_info: Option<ResourceInfo>,
    ) -> (r: Result<Option<ScanResult>, ScanError>)
        requires
            valid_cache_entry(data_hash, Seq::<SpecFinding>::empty()),
        ensures
            r is Ok,
            r matches Ok(o) ==> (o is None ==> !self.options.verbose),
            r matches Ok(Some(res)) ==> (result_shape(
                res,
                original_path_str@,
                resource_info,
                self.options.verbose,
            ) && res.class_details is None && res.matches@.len() == 0),
    {
        self.found_custom_jvm_indicator.store(true, std::sync::atomic::Ordering::SeqCst);
        let empty_vec: Vec<Finding> = Vec::new();
        let empty: std::sync::Arc<Vec<Finding>> = std::sync::Arc::new(empty_vec);
        proof {
            assert(findings_view(empty@) =~= Seq::<SpecFinding>::empty());
        }
        let _cached = self.result_cache.get_with(data_hash, &empty);
        if self.options.verbose {
            let findings_ref = arc_findings(&empty);
            let danger_score = calculate_danger_score(findings_ref);
            let danger_explanation = generate_danger_explanation(danger_score, findings_ref);
            Ok(
                Some(
                    ScanResult {
                        file_path: String::from_str(original_path_str),
                        matches: empty,
                        class_details: None,
                        resource_info,
                        danger_score,
                        danger_explanation,
                    },
                ),
            )
        } else {
            Ok(None)
        }
    }

    /// Assemble the result of a fresh parse, suppressing it only when
    /// there are no findings and verbose mode is off: non-empty
    /// findings always yield a result.
    fn create_scan_result(
        &self,
        findings: std::sync::Arc<Vec<Finding>>,
        class_details: ClassDetails,
        original_path_str: &str,
        resource_info: Option<ResourceInfo>,
    ) -> (r: Result<Option<ScanResult>, ScanError>)
        ensures
            r is Ok,
            r matches Ok(o) ==> (o is None ==> !self.options.verbose),
            findings@.len() > 0 ==> (r matches Ok(o) && o is Some),
            r matches Ok(Some(res)) ==> (result_shape(
                res,
                original_path_str@,
                resource_info,
                self.options.verbose,
            ) && res.matches@ == findings@ && (res.class_details matches Some(cd) && cd@
                == class_details@)),
    {
        let findings_ref = arc_findings(&findings);
        if findings_ref.len() > 0 || self.options.verbose {
            let danger_score = calculate_danger_score(findings_ref);
            let danger_explanation = generate_danger_explanation(danger_score, findings_ref);
            Ok(
                Some(
                    ScanResult {
                        file_path: String::from_str(original_path_str),
                        matches: findings,
                        class_details: Some(class_details),
                        resource_info,
                        danger_score,
                        danger_explanation,
                    },
                ),
            )
        } else {
            Ok(None)
        }
    }
}

// ---------------------------------------------------------------------------
// Laws
// ---------------------------------------------------------------------------

/// Law: determinism. Any two scans of the same bytes that both took the
/// fresh-parse path (their results carry the structural summary) agree
/// on the finding sequence, the danger score and the explanation.
pub proof fn lemma_scan_deterministic(data: Seq<u8>, r1: ScanResult, r2: ScanResult)
    requires
        spec_parse_class(data) is Ok,
        findings_view(r1.matches@) == computed_findings_spec(spec_parse_class(data)->Ok_0),
        findings_view(r2.matches@) == computed_findings_spec(spec_parse_class(data)->Ok_0),
        r1.danger_score as int == score_spec(findings_view(r1.matches@)),
        r2.danger_score as int == score_spec(findings_view(r2.matches@)),
        r1.danger_explanation.deep_view() == explanation_spec(
            r1.danger_score as int,
            findings_view(r1.matches@),
        ),
        r2.danger_explanation.deep_view() == explanation_spec(
            r2.danger_score as int,
            findings_view(r2.matches@),
        ),
    ensures
        findings_view(r1.matches@) == findings_view(r2.matches@),
        r1.danger_score == r2.danger_score,
        r1.danger_explanation.deep_view() == r2.danger_explanation.deep_view(),
{
}

/// Law: cache correctness up to content-hash collisions. Whenever no
/// other byte sequence shares this input's hash, a finding set the
/// cache certifies for that hash is exactly what the pipeline computes
/// for the input itself.
pub proof fn lemma_cache_hit_findings(data: Seq<u8>, fs: Seq<SpecFinding>)
    requires
        valid_cache_entry(fnv1a_hash(data), fs),
        forall|b: Seq<u8>| #[trigger] fnv1a_hash(b) == fnv1a_hash(data) ==> b == data,
    ensures
        scan_findings_for(data) == Option::Some(fs),
{
    let b = choose|b: Seq<u8>|
        #[trigger] fnv1a_hash(b) == fnv1a_hash(data) && scan_findings_for(b) == Option::Some(fs);
    assert(b == data);
}

/// Law: cache correctness, the reusable half. A result built from a
/// cached finding set equal to what a fresh scan computed carries the
/// same score and explanation as the fresh result.
pub proof fn lemma_cached_scan_equivalent(r1: ScanResult, r2: ScanResult)
    requires
        findings_view(r1.matches@) == findings_view(r2.matches@),
        r1.danger_score as int == score_spec(findings_view(r1.matches@)),
        r2.danger_score as int == score_spec(findings_view(r2.matches@)),
        r1.danger_explanation.deep_view() == explanation_spec(
            r1.danger_score as int,
            findings_view(r1.matches@),
        ),
        r2.danger_explanation.deep_view() == explanation_spec(
            r2.danger_score as int,
            findings_view(r2.matches@),
        ),
    ensures
        r1.danger_score == r2.danger_score,
        r1.danger_explanation.deep_view() == r2.danger_explanation.deep_view(),
{
}

} // verus!
