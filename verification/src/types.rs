//! Core data model: findings, parsed class structure, scan results,
//! scanner configuration and error taxonomy.

use vstd::prelude::*;

verus! {

/// The closed set of indicator kinds a scan can report.
#[derive(Clone, Copy, PartialEq, Eq, Structural, Debug)]
pub enum FindingType {
    DiscordWebhook,
    ObfuscationRandomName,
    ObfuscationUnicode,
    ObfuscationString,
}

/// Per-occurrence weight of a finding kind in the danger score.
pub open spec fn base_score_spec(t: FindingType) -> int {
    match t {
        FindingType::DiscordWebhook => 10,
        FindingType::ObfuscationRandomName => 2,
        FindingType::ObfuscationUnicode => 3,
        FindingType::ObfuscationString => 3,
    }
}

/// Cap on the total contribution of one finding kind to the danger score.
pub open spec fn max_contribution_spec(t: FindingType) -> int {
    match t {
        FindingType::DiscordWebhook => 10,
        FindingType::ObfuscationRandomName => 6,
        FindingType::ObfuscationUnicode => 6,
        FindingType::ObfuscationString => 9,
    }
}

impl FindingType {
    /// Per-occurrence weight of this finding kind.
    pub fn base_score(&self) -> (r: u8)
        ensures
            r as int == base_score_spec(*self),
    {
        match self {
            FindingType::DiscordWebhook => 10,
            FindingType::ObfuscationRandomName => 2,
            FindingType::ObfuscationUnicode => 3,
            FindingType::ObfuscationString => 3,
        }
    }

    /// Cap on the total score contribution of this finding kind.
    pub fn max_contribution(&self) -> (r: u8)
        ensures
            r as int == max_contribution_spec(*self),
    {
        match self {
            FindingType::DiscordWebhook => 10,
            FindingType::ObfuscationRandomName => 6,
            FindingType::ObfuscationUnicode => 6,
            FindingType::ObfuscationString => 9,
        }
    }
}

/// One detected indicator: its kind and a short human-readable message.
pub type Finding = (FindingType, String);

/// The mathematical model of a finding: kind plus message characters.
pub type SpecFinding = (FindingType, Seq<char>);

/// The model of one finding value.
pub open spec fn finding_view(f: Finding) -> SpecFinding {
    (f.0, f.1@)
}

/// The model of a sequence of findings.
pub open spec fn findings_view(fs: Seq<Finding>) -> Seq<SpecFinding> {
    fs.map_values(|f: Finding| finding_view(f))
}

pub proof fn lemma_findings_view_concat(a: Seq<Finding>, b: Seq<Finding>)
    ensures
        findings_view(a + b) == findings_view(a) + findings_view(b),
{
    assert(findings_view(a + b) =~= findings_view(a) + findings_view(b));
}

pub proof fn lemma_findings_view_push(a: Seq<Finding>, f: Finding)
    ensures
        findings_view(a.push(f)) == findings_view(a).push(finding_view(f)),
{
    assert(findings_view(a.push(f)) =~= findings_view(a).push(finding_view(f)));
}

/// The structural summary of one class file: names in internal
/// slash-separated form, member names, and the deduplicated UTF-8
/// constant-pool literals in pool order.
#[derive(Debug)]
pub struct ClassDetails {
    pub class_name: String,
    pub superclass_name: String,
    pub interfaces: Vec<String>,
    pub fields: Vec<String>,
    pub methods: Vec<String>,
    pub strings: Vec<String>,
}

/// The mathematical model of a parsed class.
pub struct ClassDetailsSpec {
    pub class_name: Seq<char>,
    pub superclass_name: Seq<char>,
    pub interfaces: Seq<Seq<char>>,
    pub fields: Seq<Seq<char>>,
    pub methods: Seq<Seq<char>>,
    pub strings: Seq<Seq<char>>,
}

impl View for ClassDetails {
    type V = ClassDetailsSpec;

    open spec fn view(&self) -> ClassDetailsSpec {
        ClassDetailsSpec {
            class_name: self.class_name@,
            superclass_name: self.superclass_name@,
            interfaces: self.interfaces.deep_view(),
            fields: self.fields.deep_view(),
            methods: self.methods.deep_view(),
            strings: self.strings.deep_view(),
        }
    }
}

/// Opaque per-entry metadata supplied by the archive-traversal layer;
/// the scanner only carries it through into the result.
#[derive(Clone, Debug)]
pub struct ResourceInfo {
    pub path: String,
}

/// The outcome of scanning one class file.
#[derive(Debug)]
pub struct ScanResult {
    pub file_path: String,
    pub matches: std::sync::Arc<Vec<Finding>>,
    pub class_details: Option<ClassDetails>,
    pub resource_info: Option<ResourceInfo>,
    pub danger_score: u8,
    pub danger_explanation: Vec<String>,
}

/// Which indicator families a scan run looks for.
#[derive(Clone, Copy, PartialEq, Eq, Structural, Debug)]
pub enum DetectionMode {
    Obfuscation,
    All,
}

impl Default for DetectionMode {
    fn default() -> (r: DetectionMode)
        ensures
            r == DetectionMode::Obfuscation,
    {
        DetectionMode::Obfuscation
    }
}

/// Read-only scanner configuration.
#[derive(Clone, Debug)]
pub struct ScannerOptions {
    pub verbose: bool,
    pub cache_capacity: u64,
    pub threads: usize,
}

/// The reason a structurally invalid class file was rejected.
#[derive(Clone, Copy, PartialEq, Eq, Structural, Debug)]
pub enum MalformedKind {
    /// A length-prefixed or fixed-size field runs past the end of the input.
    Truncated,
    /// A constant-pool entry carries an unknown tag.
    UnknownTag,
    /// A constant-pool index is out of range or refers to the wrong
    /// kind of entry.
    BadIndex,
    /// A constant-pool text entry is not valid UTF-8.
    BadUtf8,
    /// The constant-pool entry count is inconsistent with the entries.
    BadCount,
}

/// Structural violation in an otherwise magic-valid class file.
#[derive(Clone, Debug)]
pub enum ParseError {
    Malformed { reason: String },
}

/// Per-file scan failure.
#[derive(Clone, Debug)]
pub enum ScanError {
    Parse(ParseError),
    Io(String),
}

} // verus!
