//! Naming heuristics: classify identifiers from a parsed class as
//! obfuscated.
//!
//! The classifier knows a fixed allowlist of well-known library package
//! prefixes (names under them skip only the random-name check, never
//! the suspicious-keyword check) and a fixed allowlist of legitimate
//! short tokens.

use vstd::prelude::*;
use vstd::string::StrSliceExecFns;
use vstd::string::StringExecFns;

use crate::text::{
    all_matching, ascii_lower, contains_sub, count_char, count_digits, count_distinct, count_lower,
    count_matching, count_name_junk, count_upper, count_vowels, dec_digits, has_prefix,
    is_ascii_alphanumeric_char, last_segment, lemma_count_matching_le_len, split_on,
    truncated_chars,
};
use crate::types::{findings_view, ClassDetailsSpec, Finding, FindingType, SpecFinding};

verus! {

// ---------------------------------------------------------------------------
// Fixed allowlists and keyword list
// ---------------------------------------------------------------------------

/// Package prefixes of well-known libraries and platforms.
pub open spec fn library_prefixes() -> Seq<Seq<char>> {
    seq![
        "net/minecraft"@,
        "java/"@,
        "javax/"@,
        "com/mojang"@,
        "sun/"@,
        "com/sun/"@,
        "kotlin/"@,
        "kotlinx/"@,
        "org/apache"@,
        "com/google"@,
        "org/lwjgl"@,
        "io/netty"@,
        "io/github"@,
        "com/ibm/icu"@,
        "org/jctools"@,
        "org/openjdk"@,
        "oshi/"@,
        "com/github/oshi"@,
        "com/sun/jna"@,
        "joptsimple"@,
        "javazoom"@,
        "com/gson"@,
        "it/unimi/dsi/fastutil"@,
        "io/jsonwebtoken"@,
        "org/yaml/snakeyaml"@,
    ]
}

/// Short path tokens that are legitimate despite their length.
pub open spec fn short_token_allowlist() -> Seq<Seq<char>> {
    seq![
        "io"@,
        "api"@,
        "sdk"@,
        "ui"@,
        "db"@,
        "os"@,
        "vm"@,
        "gui"@,
        "net"@,
        "org"@,
        "com"@,
        "dev"@,
        "de"@,
        "en"@,
        "ru"@,
        "fr"@,
        "es"@,
        "uk"@,
        "us"@,
    ]
}

/// Path tokens that are strong indicators of malicious intent on their
/// own.
pub open spec fn sussy_keywords() -> Seq<Seq<char>> {
    seq![
        "webhook"@,
        "stealer"@,
        "grabber"@,
        "keylogger"@,
        "backdoor"@,
        "injector"@,
        "dropper"@,
        "ratter"@,
    ]
}

/// A lower-cased class name that belongs to a known library ecosystem.
pub open spec fn is_library_name(lower: Seq<char>) -> bool {
    (exists|i: int|
        0 <= i < library_prefixes().len() && has_prefix(lower, #[trigger] library_prefixes()[i]))
        || contains_sub(lower, "mixins"@) || contains_sub(lower, "libraries"@)
}

pub open spec fn is_allowed_short_token(t: Seq<char>) -> bool {
    exists|i: int|
        0 <= i < short_token_allowlist().len() && t == #[trigger] short_token_allowlist()[i]
}

fn library_prefixes_vec() -> (r: Vec<&'static str>)
    ensures
        r.deep_view() == library_prefixes(),
{
    let mut v: Vec<&'static str> = Vec::new();
    v.push("net/minecraft");
    v.push("java/");
    v.push("javax/");
    v.push("com/mojang");
    v.push("sun/");
    v.push("com/sun/");
    v.push("kotlin/");
    v.push("kotlinx/");
    v.push("org/apache");
    v.push("com/google");
    v.push("org/lwjgl");
    v.push("io/netty");
    v.push("io/github");
    v.push("com/ibm/icu");
    v.push("org/jctools");
    v.push("org/openjdk");
    v.push("oshi/");
    v.push("com/github/oshi");
    v.push("com/sun/jna");
    v.push("joptsimple");
    v.push("javazoom");
    v.push("com/gson");
    v.push("it/unimi/dsi/fastutil");
    v.push("io/jsonwebtoken");
    v.push("org/yaml/snakeyaml");
    proof {
        assert(v.deep_view() =~= library_prefixes());
    }
    v
}

fn short_token_allowlist_vec() -> (r: Vec<&'static str>)
    ensures
        r.deep_view() == short_token_allowlist(),
{
    let mut v: Vec<&'static str> = Vec::new();
    v.push("io");
    v.push("api");
    v.push("sdk");
    v.push("ui");
    v.push("db");
    v.push("os");
    v.push("vm");
    v.push("gui");
    v.push("net");
    v.push("org");
    v.push("com");
    v.push("dev");
    v.push("de");
    v.push("en");
    v.push("ru");
    v.push("fr");
    v.push("es");
    v.push("uk");
    v.push("us");
    proof {
        assert(v.deep_view() =~= short_token_allowlist());
    }
    v
}

fn sussy_keywords_vec() -> (r: Vec<&'static str>)
    ensures
        r.deep_view() == sussy_keywords(),
{
    let mut v: Vec<&'static str> = Vec::new();
    v.push("webhook");
    v.push("stealer");
    v.push("grabber");
    v.push("keylogger");
    v.push("backdoor");
    v.push("injector");
    v.push("dropper");
    v.push("ratter");
    proof {
        assert(v.deep_view() =~= sussy_keywords());
    }
    v
}

/// Whether the (already lower-cased) class name falls under a known
/// library prefix or marker.
pub fn library_name(lower: &str) -> (r: bool)
    ensures
        r == is_library_name(lower@),
{
    let prefixes = library_prefixes_vec();
    let mut i: usize = 0;
    while i < prefixes.len()
        invariant
            prefixes.deep_view() == library_prefixes(),
            i <= prefixes@.len(),
            forall|j: int| 0 <= j < i ==> !has_prefix(lower@, #[trigger] library_prefixes()[j]),
        decreases prefixes@.len() - i,
    {
        proof {
            assert(prefixes.deep_view()[i as int] == prefixes@[i as int]@);
        }
        if crate::text::str_has_prefix(lower, prefixes[i]) {
            return true;
        }
        i = i + 1;
    }
    crate::text::str_contains_sub(lower, "mixins") || crate::text::str_contains_sub(
        lower,
        "libraries",
    )
}

fn allowed_short_token(t: &str) -> (r: bool)
    ensures
        r == is_allowed_short_token(t@),
{
    let tokens = short_token_allowlist_vec();
    let mut i: usize = 0;
    while i < tokens.len()
        invariant
            tokens.deep_view() == short_token_allowlist(),
            i <= tokens@.len(),
            forall|j: int| 0 <= j < i ==> t@ != #[trigger] short_token_allowlist()[j],
        decreases tokens@.len() - i,
    {
        proof {
            assert(tokens.deep_view()[i as int] == tokens@[i as int]@);
        }
        if crate::text::str_eq(t, tokens[i]) {
            return true;
        }
        i = i + 1;
    }
    false
}

// ---------------------------------------------------------------------------
// Random-name classification
// ---------------------------------------------------------------------------

/// A token reads as machine-generated if any of these hold; a token
/// containing `$` (a synthetic or inner-class name) is never random.
pub open spec fn is_random_name_spec(s: Seq<char>) -> bool {
    let len = s.len() as int;
    if len == 0 || s.contains('$') {
        false
    } else {
        // one character dominates a token of length >= 5
        (len >= 5 && (exists|c: char| #[trigger] count_char(s, c) * 100 > 70 * len))
        // very few distinct characters in a long token
        || (len >= 10 && count_distinct(s) <= 3)
        // an underscore-prefixed stub
        || (s[0] == '_' && len <= 3)
        // one or two alphanumeric characters
        || (len <= 2 && all_matching(s, |c: char| is_ascii_alphanumeric_char(c)))
        // long case-mixed soup without vowels
        || (len >= 10 && count_upper(s) > 4 && count_lower(s) > 4 && count_vowels(s) * 100 < 15
            * len)
        // mostly digits
        || (10 <= len < 20 && count_digits(s) * 2 > len)
    }
}

fn count_char_str(s: &str, c: char) -> (r: usize)
    ensures
        r == count_char(s@, c),
{
    let n = s.unicode_len();
    let mut r: usize = 0;
    let mut i: usize = 0;
    proof {
        assert(s@.take(0) =~= Seq::<char>::empty());
    }
    while i < n
        invariant
            n == s@.len(),
            i <= n,
            r == count_char(s@.take(i as int), c),
            r <= i,
        decreases n - i,
    {
        proof {
            lemma_count_matching_le_len(s@.take(i as int), |x: char| x == c);
        }
        if s.get_char(i) == c {
            r = r + 1;
        }
        i = i + 1;
        proof {
            assert(s@.take(i as int).drop_last() =~= s@.take(i - 1));
            assert(s@.take(i as int).last() == s@[i - 1]);
        }
    }
    proof {
        assert(s@.take(n as int) =~= s@);
    }
    r
}

fn count_distinct_str(s: &str) -> (r: usize)
    ensures
        r == count_distinct(s@),
{
    let n = s.unicode_len();
    let mut r: usize = 0;
    let mut i: usize = 0;
    while i < n
        invariant
            n == s@.len(),
            i <= n,
            r == count_distinct(s@.take(i as int)),
            r <= i,
        decreases n - i,
    {
        let c = s.get_char(i);
        // is c already in s[0..i]?
        let mut seen = false;
        let mut j: usize = 0;
        while j < i
            invariant
                n == s@.len(),
                i < n,
                j <= i,
                c == s@[i as int],
                seen <==> (exists|k: int| 0 <= k < j && s@[k] == c),
            decreases i - j,
        {
            if s.get_char(j) == c {
                seen = true;
                proof {
                    assert(s@[j as int] == c);
                }
                j = i;
            } else {
                j = j + 1;
            }
        }
        proof {
            assert(seen <==> s@.take(i as int).contains(c)) by {
                if seen {
                    let k = choose|k: int| 0 <= k < i && s@[k] == c;
                    assert(s@.take(i as int)[k] == c);
                } else {
                    if s@.take(i as int).contains(c) {
                        let k = choose|k: int|
                            0 <= k < s@.take(i as int).len() && s@.take(i as int)[k] == c;
                        assert(s@[k] == c);
                        assert(false);
                    }
                }
            }
        }
        if !seen {
            r = r + 1;
        }
        i = i + 1;
        proof {
            assert(s@.take(i as int).drop_last() =~= s@.take(i - 1));
            assert(s@.take(i as int).last() == s@[i - 1]);
        }
    }
    proof {
        assert(s@.take(n as int) =~= s@);
    }
    r
}

/// Whether an identifier reads as machine-generated.
#[verifier::loop_isolation(false)]
pub fn is_random_name(name: &str) -> (r: bool)
    ensures
        r == is_random_name_spec(name@),
{
    let n = name.unicode_len();
    if n == 0 {
        return false;
    }
    if crate::text::str_contains_char(name, '$') {
        return false;
    }
    if n >= 5 {
        // does any character account for more than 70% of the token?
        let mut i: usize = 0;
        while i < n
            invariant
                n == name@.len(),
                i <= n,
                forall|j: int|
                    0 <= j < i ==> count_char(name@, #[trigger] name@[j]) * 100 <= 70 * n,
            decreases n - i,
        {
            let c = name.get_char(i);
            let cnt = count_char_str(name, c);
            if (cnt as u128) * 100 > 70 * (n as u128) {
                return true;
            }
            i = i + 1;
        }
        proof {
            if exists|c: char| #[trigger] count_char(name@, c) * 100 > 70 * name@.len() {
                let c = choose|c: char| #[trigger] count_char(name@, c) * 100 > 70 * name@.len();
                crate::text::lemma_count_char_pos(name@, c);
                let j = choose|j: int| 0 <= j < name@.len() && name@[j] == c;
                assert(count_char(name@, name@[j]) * 100 <= 70 * n);
                assert(false);
            }
        }
    }
    if n >= 10 {
        let d = count_distinct_str(name);
        if d <= 3 {
            return true;
        }
    }
    if name.get_char(0) == '_' && n <= 3 {
        return true;
    }
    if n <= 2 {
        let mut all_alnum = true;
        let mut i: usize = 0;
        while i < n
            invariant
                n == name@.len(),
                i <= n,
                all_alnum <==> (forall|j: int|
                    0 <= j < i ==> is_ascii_alphanumeric_char(#[trigger] name@[j])),
            decreases n - i,
        {
            if !crate::text::alphanumeric_char(name.get_char(i)) {
                all_alnum = false;
                proof {
                    assert(!is_ascii_alphanumeric_char(name@[i as int]));
                }
                i = n;
            } else {
                i = i + 1;
            }
        }
        if all_alnum {
            return true;
        }
    }
    if n >= 10 {
        // one pass: upper, lower, digit and vowel counts
        let mut upper: usize = 0;
        let mut lower: usize = 0;
        let mut digits: usize = 0;
        let mut vowels: usize = 0;
        let mut i: usize = 0;
        while i < n
            invariant
                n == name@.len(),
                i <= n,
                upper == count_upper(name@.take(i as int)),
                lower == count_lower(name@.take(i as int)),
                digits == count_digits(name@.take(i as int)),
                vowels == count_vowels(name@.take(i as int)),
                upper <= i && lower <= i && digits <= i && vowels <= i,
            decreases n - i,
        {
            proof {
                lemma_count_matching_le_len(
                    name@.take(i as int),
                    |c: char| crate::text::is_ascii_upper_char(c),
                );
                lemma_count_matching_le_len(
                    name@.take(i as int),
                    |c: char| crate::text::is_ascii_lower_char(c),
                );
                lemma_count_matching_le_len(
                    name@.take(i as int),
                    |c: char| crate::text::is_ascii_digit_char(c),
                );
                lemma_count_matching_le_len(
                    name@.take(i as int),
                    |c: char| crate::text::is_vowel_char(c),
                );
            }
            let c = name.get_char(i);
            let u = c as u32;
            if 65 <= u && u <= 90 {
                upper = upper + 1;
            }
            if 97 <= u && u <= 122 {
                lower = lower + 1;
            }
            if 48 <= u && u <= 57 {
                digits = digits + 1;
            }
            if crate::text::vowel_char(c) {
                vowels = vowels + 1;
            }
            i = i + 1;
            proof {
                assert(name@.take(i as int).drop_last() =~= name@.take(i - 1));
                assert(name@.take(i as int).last() == name@[i - 1]);
            }
        }
        proof {
            assert(name@.take(n as int) =~= name@);
        }
        if upper > 4 && lower > 4 && (vowels as u128) * 100 < 15 * (n as u128) {
            return true;
        }
        if n < 20 && (digits as u128) * 2 > (n as u128) {
            return true;
        }
    }
    false
}

// ---------------------------------------------------------------------------
// Finding messages
// ---------------------------------------------------------------------------

pub open spec fn msg_random_path(part: Seq<char>) -> Seq<char> {
    "Random name pattern found in path part: '"@ + truncated_chars(part, 20) + "'"@
}

pub open spec fn msg_random_super(sup_simple: Seq<char>) -> Seq<char> {
    "Superclass Name '"@ + truncated_chars(sup_simple, 20) + "' (random naming pattern)"@
}

pub open spec fn msg_random_interface(name: Seq<char>) -> Seq<char> {
    "Interface Name '"@ + truncated_chars(name, 30) + "' (fully random name)"@
}

pub open spec fn msg_unicode(ctx: Seq<char>, name: Seq<char>) -> Seq<char> {
    ctx + " '"@ + truncated_chars(name, 30) + "' (extreme unicode junk)"@
}

pub open spec fn msg_massive(count: nat) -> Seq<char> {
    "Massive member obfuscation: "@ + dec_digits(count) + " short member names"@
}

pub open spec fn msg_combined(count: nat) -> Seq<char> {
    "Combined obfuscation pattern: short class name with "@ + dec_digits(count)
        + " short member names"@
}

pub open spec fn msg_keyword(kw: Seq<char>) -> Seq<char> {
    "Highly suspicious keyword '"@ + kw + "' found in package path"@
}

// ---------------------------------------------------------------------------
// Finding components
// ---------------------------------------------------------------------------

/// A name made almost entirely of characters that are neither ASCII nor
/// Cyrillic.
pub open spec fn unicode_junk_name(s: Seq<char>) -> bool {
    s.len() > 5 && count_name_junk(s) > 10 && count_name_junk(s) * 100 > 95 * s.len()
}

/// A path segment that trips the random-name check and is not an
/// allowlisted short token.
pub open spec fn is_random_segment(t: Seq<char>) -> bool {
    !is_allowed_short_token(t) && is_random_name_spec(t)
}

pub open spec fn first_random_segment(parts: Seq<Seq<char>>) -> Option<Seq<char>>
    decreases parts.len(),
{
    if parts.len() == 0 {
        Option::None
    } else if is_random_segment(parts[0]) {
        Option::Some(parts[0])
    } else {
        first_random_segment(parts.drop_first())
    }
}

/// At most one finding: the first random-looking segment of the class
/// name's path.
pub open spec fn path_random_findings(class_name: Seq<char>) -> Seq<SpecFinding> {
    match first_random_segment(split_on(class_name, '/')) {
        Option::None => Seq::empty(),
        Option::Some(p) => seq![
            (FindingType::ObfuscationRandomName, msg_random_path(p)),
        ],
    }
}

/// At most one finding: a random-looking simple superclass name.
pub open spec fn superclass_random_findings(sup: Seq<char>) -> Seq<SpecFinding> {
    if sup.len() > 0 && sup != "java/lang/Object"@ && is_random_name_spec(
        last_segment(sup, '/'),
    ) {
        seq![(FindingType::ObfuscationRandomName, msg_random_super(last_segment(sup, '/')))]
    } else {
        Seq::empty()
    }
}

/// At most one finding: a name that is almost entirely unicode junk.
/// Empty names and `java/lang/Object` are skipped.
pub open spec fn name_unicode_findings(name: Seq<char>, ctx: Seq<char>) -> Seq<SpecFinding> {
    if name.len() == 0 || name == "java/lang/Object"@ {
        Seq::empty()
    } else if unicode_junk_name(name) {
        seq![(FindingType::ObfuscationUnicode, msg_unicode(ctx, name))]
    } else {
        Seq::empty()
    }
}

/// The findings for one interface name: the unicode check always, the
/// random-name check only outside the library allowlist.
pub open spec fn interface_findings_one(name: Seq<char>, lib: bool) -> Seq<SpecFinding> {
    name_unicode_findings(name, "Interface Name"@) + (if !lib && name.len() > 0 && name
        != "java/lang/Object"@ && is_random_name_spec(name) {
        seq![(FindingType::ObfuscationRandomName, msg_random_interface(name))]
    } else {
        Seq::empty()
    })
}

pub open spec fn interfaces_findings(ifaces: Seq<Seq<char>>, lib: bool) -> Seq<SpecFinding>
    decreases ifaces.len(),
{
    if ifaces.len() == 0 {
        Seq::empty()
    } else {
        interfaces_findings(ifaces.drop_last(), lib) + interface_findings_one(ifaces.last(), lib)
    }
}

/// Only the first five interfaces are examined.
pub open spec fn considered_interfaces(ifaces: Seq<Seq<char>>) -> Seq<Seq<char>> {
    if ifaces.len() <= 5 {
        ifaces
    } else {
        ifaces.take(5)
    }
}

/// How many field and method names have at most two characters.
/// (Synthetic initializer names are longer than two characters, so they
/// can never be counted here.)
pub open spec fn count_short_members(d: ClassDetailsSpec) -> nat {
    count_matching(d.fields, |n: Seq<char>| n.len() <= 2) + count_matching(
        d.methods,
        |n: Seq<char>| n.len() <= 2,
    )
}

/// At most one finding: ten or more short member names, or at least
/// three of them on a class whose own simple name is short.
pub open spec fn bulk_findings(d: ClassDetailsSpec) -> Seq<SpecFinding> {
    let c = count_short_members(d);
    if c >= 10 {
        seq![(FindingType::ObfuscationRandomName, msg_massive(c))]
    } else if c >= 3 && last_segment(d.class_name, '/').len() <= 2 {
        seq![(FindingType::ObfuscationRandomName, msg_combined(c))]
    } else {
        Seq::empty()
    }
}

pub open spec fn first_keyword_match(kws: Seq<Seq<char>>, segs: Seq<Seq<char>>) -> Option<
    Seq<char>,
>
    decreases kws.len(),
{
    if kws.len() == 0 {
        Option::None
    } else if segs.contains(kws[0]) {
        Option::Some(kws[0])
    } else {
        first_keyword_match(kws.drop_first(), segs)
    }
}

/// At most one finding: the first suspicious keyword that appears as a
/// whole segment of the lower-cased class name. This check runs for
/// allowlisted library names too.
pub open spec fn keyword_findings(lower: Seq<char>) -> Seq<SpecFinding> {
    match first_keyword_match(sussy_keywords(), split_on(lower, '/')) {
        Option::None => Seq::empty(),
        Option::Some(k) => seq![(FindingType::ObfuscationString, msg_keyword(k))],
    }
}

/// Everything the naming analyzer reports for one parsed class, in a
/// fixed order: path-segment and superclass random-name findings (only
/// outside the library allowlist), unicode-junk findings for the class,
/// superclass and first five interfaces, interface random-name
/// findings, the bulk short-member findings, and the keyword finding.
pub open spec fn name_findings_spec(d: ClassDetailsSpec) -> Seq<SpecFinding> {
    let lower = ascii_lower(d.class_name);
    let lib = is_library_name(lower);
    (if !lib {
        path_random_findings(d.class_name) + superclass_random_findings(d.superclass_name)
    } else {
        Seq::empty()
    }) + name_unicode_findings(d.class_name, "Class Name"@) + name_unicode_findings(
        d.superclass_name,
        "Superclass Name"@,
    ) + interfaces_findings(considered_interfaces(d.interfaces), lib) + bulk_findings(d)
        + keyword_findings(lower)
}

// ---------------------------------------------------------------------------
// Laws
// ---------------------------------------------------------------------------

proof fn lemma_interfaces_findings_unicode_only(ifaces: Seq<Seq<char>>)
    ensures
        forall|i: int|
            0 <= i < interfaces_findings(ifaces, true).len() ==> (#[trigger] interfaces_findings(
                ifaces,
                true,
            )[i]).0 == FindingType::ObfuscationUnicode,
    decreases ifaces.len(),
{
    if ifaces.len() > 0 {
        lemma_interfaces_findings_unicode_only(ifaces.drop_last());
        let pre = interfaces_findings(ifaces.drop_last(), true);
        let one = interface_findings_one(ifaces.last(), true);
        assert(forall|i: int|
            0 <= i < one.len() ==> (#[trigger] one[i]).0 == FindingType::ObfuscationUnicode);
        assert(forall|i: int|
            0 <= i < interfaces_findings(ifaces, true).len() ==> interfaces_findings(ifaces, true)[i]
                == if i < pre.len() {
                pre[i]
            } else {
                one[i - pre.len()]
            });
    }
}

/// Law: a class whose name falls under the library allowlist yields no
/// random-name finding from the name scan — the path-segment,
/// superclass and interface randomness checks are all exempted. (The
/// bulk short-member pattern is not exempted; the premise rules it
/// out.)
pub proof fn lemma_allowlist_exemption(d: ClassDetailsSpec)
    requires
        is_library_name(ascii_lower(d.class_name)),
        bulk_findings(d) == Seq::<SpecFinding>::empty(),
    ensures
        forall|i: int|
            0 <= i < name_findings_spec(d).len() ==> (#[trigger] name_findings_spec(d)[i]).0
                != FindingType::ObfuscationRandomName,
{
    let lower = ascii_lower(d.class_name);
    let fs = name_findings_spec(d);
    let cu = name_unicode_findings(d.class_name, "Class Name"@);
    let su = name_unicode_findings(d.superclass_name, "Superclass Name"@);
    let ifs = interfaces_findings(considered_interfaces(d.interfaces), true);
    let kw = keyword_findings(lower);
    assert(fs =~= cu + su + ifs + kw);
    lemma_interfaces_findings_unicode_only(considered_interfaces(d.interfaces));
    assert(forall|i: int|
        0 <= i < cu.len() ==> (#[trigger] cu[i]).0 == FindingType::ObfuscationUnicode);
    assert(forall|i: int|
        0 <= i < su.len() ==> (#[trigger] su[i]).0 == FindingType::ObfuscationUnicode);
    assert(forall|i: int|
        0 <= i < kw.len() ==> (#[trigger] kw[i]).0 == FindingType::ObfuscationString);
    assert forall|i: int| 0 <= i < fs.len() implies (#[trigger] fs[i]).0
        != FindingType::ObfuscationRandomName by {
        if i < cu.len() {
            assert(fs[i] == cu[i]);
        } else if i < cu.len() + su.len() {
            assert(fs[i] == su[i - cu.len()]);
        } else if i < cu.len() + su.len() + ifs.len() {
            assert(fs[i] == ifs[i - cu.len() - su.len()]);
        } else {
            assert(fs[i] == kw[i - cu.len() - su.len() - ifs.len()]);
        }
    }
}

// ---------------------------------------------------------------------------
// Exec analyzer
// ---------------------------------------------------------------------------

fn unicode_junk(name: &str) -> (r: bool)
    ensures
        r == unicode_junk_name(name@),
{
    let n = name.unicode_len();
    if n <= 5 {
        return false;
    }
    let j = crate::text::count_name_junk_str(name);
    j > 10 && (j as u128) * 100 > 95 * (n as u128)
}

#[verifier::loop_isolation(false)]
fn path_random(class_name: &str) -> (r: Vec<Finding>)
    ensures
        findings_view(r@) == path_random_findings(class_name@),
{
    let parts = crate::text::split_slash(class_name);
    let ghost segs = split_on(class_name@, '/');
    let mut out: Vec<Finding> = Vec::new();
    let mut i: usize = 0;
    proof {
        assert(segs.skip(0) =~= segs);
    }
    while i < parts.len()
        invariant
            i <= parts@.len(),
            out@.len() == 0,
            first_random_segment(segs) == first_random_segment(segs.skip(i as int)),
        decreases parts@.len() - i,
    {
        proof {
            assert(parts.deep_view()[i as int] == parts@[i as int]@);
            assert(segs.skip(i as int)[0] == segs[i as int]);
        }
        let seg = &parts[i];
        if !allowed_short_token(seg.as_str()) && is_random_name(seg.as_str()) {
            let mut msg = String::from_str("Random name pattern found in path part: '");
            let t = crate::text::truncate_string(seg.as_str(), 20);
            msg.append(t.as_str());
            msg.append("'");
            out.push((FindingType::ObfuscationRandomName, msg));
            proof {
                assert(first_random_segment(segs.skip(i as int)) == Option::Some(segs[i as int]));
                assert(findings_view(out@) =~= path_random_findings(class_name@));
            }
            return out;
        }
        proof {
            assert(segs.skip(i as int).drop_first() =~= segs.skip(i + 1));
        }
        i = i + 1;
    }
    proof {
        assert(segs.skip(parts@.len() as int) =~= Seq::<Seq<char>>::empty());
        assert(findings_view(out@) =~= Seq::<SpecFinding>::empty());
    }
    out
}

fn super_random(sup: &str) -> (r: Vec<Finding>)
    ensures
        findings_view(r@) == superclass_random_findings(sup@),
{
    let mut out: Vec<Finding> = Vec::new();
    if sup.unicode_len() == 0 || crate::text::str_eq(sup, "java/lang/Object") {
        proof {
            assert(findings_view(out@) =~= Seq::<SpecFinding>::empty());
        }
        return out;
    }
    let simple = crate::text::simple_name(sup);
    if is_random_name(simple.as_str()) {
        let mut msg = String::from_str("Superclass Name '");
        let t = crate::text::truncate_string(simple.as_str(), 20);
        msg.append(t.as_str());
        msg.append("' (random naming pattern)");
        out.push((FindingType::ObfuscationRandomName, msg));
        proof {
            assert(findings_view(out@) =~= superclass_random_findings(sup@));
        }
    } else {
        proof {
            assert(findings_view(out@) =~= Seq::<SpecFinding>::empty());
        }
    }
    out
}

fn name_unicode(name: &str, ctx: &'static str) -> (r: Vec<Finding>)
    ensures
        findings_view(r@) == name_unicode_findings(name@, ctx@),
{
    let mut out: Vec<Finding> = Vec::new();
    if name.unicode_len() == 0 || crate::text::str_eq(name, "java/lang/Object") {
        proof {
            assert(findings_view(out@) =~= Seq::<SpecFinding>::empty());
        }
        return out;
    }
    if unicode_junk(name) {
        let mut msg = String::from_str(ctx);
        msg.append(" '");
        let t = crate::text::truncate_string(name, 30);
        msg.append(t.as_str());
        msg.append("' (extreme unicode junk)");
        out.push((FindingType::ObfuscationUnicode, msg));
        proof {
            assert(msg_unicode(ctx@, name@) =~= ctx@ + " '"@ + truncated_chars(name@, 30)
                + "' (extreme unicode junk)"@);
            assert(findings_view(out@) =~= name_unicode_findings(name@, ctx@));
        }
    } else {
        proof {
            assert(findings_view(out@) =~= Seq::<SpecFinding>::empty());
        }
    }
    out
}

#[verifier::loop_isolation(false)]
fn interfaces_scan(ifaces: &Vec<String>, lib: bool) -> (r: Vec<Finding>)
    ensures
        findings_view(r@) == interfaces_findings(considered_interfaces(ifaces.deep_view()), lib),
{
    let ghost considered = considered_interfaces(ifaces.deep_view());
    let m: usize = if ifaces.len() <= 5 {
        ifaces.len()
    } else {
        5
    };
    proof {
        assert(considered.len() == m);
        assert(considered.take(0) =~= Seq::<Seq<char>>::empty());
    }
    let mut out: Vec<Finding> = Vec::new();
    let mut i: usize = 0;
    while i < m
        invariant
            i <= m,
            findings_view(out@) == interfaces_findings(considered.take(i as int), lib),
        decreases m - i,
    {
        proof {
            assert(considered[i as int] == ifaces.deep_view()[i as int]);
            assert(ifaces.deep_view()[i as int] == ifaces@[i as int]@);
        }
        let name = &ifaces[i];
        let ghost before = out@;
        let mut uni = name_unicode(name.as_str(), "Interface Name");
        let ghost uni_v = uni@;
        out.append(&mut uni);
        proof {
            crate::types::lemma_findings_view_concat(before, uni_v);
        }
        if !lib && name.unicode_len() > 0 && !crate::text::str_eq(name.as_str(), "java/lang/Object")
            && is_random_name(name.as_str()) {
            let mut msg = String::from_str("Interface Name '");
            let t = crate::text::truncate_string(name.as_str(), 30);
            msg.append(t.as_str());
            msg.append("' (fully random name)");
            let ghost before2 = out@;
            out.push((FindingType::ObfuscationRandomName, msg));
            proof {
                crate::types::lemma_findings_view_push(
                    before2,
                    (FindingType::ObfuscationRandomName, msg),
                );
            }
        }
        i = i + 1;
        proof {
            assert(considered.take(i as int).drop_last() =~= considered.take(i - 1));
            assert(considered.take(i as int).last() == considered[i - 1]);
            assert(findings_view(out@) =~= interfaces_findings(considered.take(i as int), lib));
        }
    }
    proof {
        assert(considered.take(m as int) =~= considered);
    }
    out
}

#[verifier::loop_isolation(false)]
fn count_short_names(names: &Vec<String>) -> (r: usize)
    ensures
        r == count_matching(names.deep_view(), |n: Seq<char>| n.len() <= 2),
{
    let ghost nv = names.deep_view();
    let ghost p = |n: Seq<char>| n.len() <= 2;
    let mut r: usize = 0;
    let mut i: usize = 0;
    proof {
        assert(nv.take(0) =~= Seq::<Seq<char>>::empty());
    }
    while i < names.len()
        invariant
            i <= names@.len(),
            r == count_matching(nv.take(i as int), p),
            r <= i,
        decreases names@.len() - i,
    {
        proof {
            assert(nv[i as int] == names@[i as int]@);
        }
        if names[i].as_str().unicode_len() <= 2 {
            r = r + 1;
        }
        i = i + 1;
        proof {
            assert(nv.take(i as int).drop_last() =~= nv.take(i - 1));
            assert(nv.take(i as int).last() == nv[i - 1]);
        }
    }
    proof {
        assert(nv.take(names@.len() as int) =~= nv);
    }
    r
}

fn bulk_scan(details: &crate::types::ClassDetails) -> (r: Vec<Finding>)
    ensures
        findings_view(r@) == bulk_findings(details@),
{
    let cf = count_short_names(&details.fields);
    let cm = count_short_names(&details.methods);
    let total: u128 = cf as u128 + cm as u128;
    let ghost c = count_short_members(details@);
    proof {
        assert(total as nat == c);
    }
    let mut out: Vec<Finding> = Vec::new();
    if total >= 10 {
        let mut msg = String::from_str("Massive member obfuscation: ");
        let digits = crate::text::num128_to_string(total);
        msg.append(digits.as_str());
        msg.append(" short member names");
        out.push((FindingType::ObfuscationRandomName, msg));
        proof {
            assert(findings_view(out@) =~= bulk_findings(details@));
        }
        return out;
    }
    if total >= 3 {
        let simple = crate::text::simple_name(details.class_name.as_str());
        if simple.as_str().unicode_len() <= 2 {
            let mut msg = String::from_str("Combined obfuscation pattern: short class name with ");
            let digits = crate::text::num128_to_string(total);
            msg.append(digits.as_str());
            msg.append(" short member names");
            out.push((FindingType::ObfuscationRandomName, msg));
            proof {
                assert(findings_view(out@) =~= bulk_findings(details@));
            }
            return out;
        }
    }
    proof {
        assert(findings_view(out@) =~= Seq::<SpecFinding>::empty());
    }
    out
}

#[verifier::loop_isolation(false)]
fn keyword_scan(lower: &str) -> (r: Vec<Finding>)
    ensures
        findings_view(r@) == keyword_findings(lower@),
{
    let segs = crate::text::split_slash(lower);
    let kws = sussy_keywords_vec();
    let ghost kseq = sussy_keywords();
    let ghost sseq = split_on(lower@, '/');
    let mut out: Vec<Finding> = Vec::new();
    let mut k: usize = 0;
    proof {
        assert(kseq.skip(0) =~= kseq);
    }
    while k < kws.len()
        invariant
            k <= kws@.len(),
            out@.len() == 0,
            first_keyword_match(kseq, sseq) == first_keyword_match(kseq.skip(k as int), sseq),
        decreases kws@.len() - k,
    {
        proof {
            assert(kws.deep_view()[k as int] == kws@[k as int]@);
            assert(kseq.skip(k as int)[0] == kseq[k as int]);
        }
        if crate::text::vec_contains_string(&segs, kws[k]) {
            let mut msg = String::from_str("Highly suspicious keyword '");
            msg.append(kws[k]);
            msg.append("' found in package path");
            out.push((FindingType::ObfuscationString, msg));
            proof {
                assert(first_keyword_match(kseq.skip(k as int), sseq) == Option::Some(
                    kseq[k as int],
                ));
                assert(findings_view(out@) =~= keyword_findings(lower@));
            }
            return out;
        }
        proof {
            assert(kseq.skip(k as int).drop_first() =~= kseq.skip(k + 1));
        }
        k = k + 1;
    }
    proof {
        assert(kseq.skip(kws@.len() as int) =~= Seq::<Seq<char>>::empty());
        assert(findings_view(out@) =~= Seq::<SpecFinding>::empty());
    }
    out
}

/// Run all naming heuristics for one parsed class and append the
/// findings, in the fixed order of [`name_findings_spec`].
pub fn check_name_obfuscation(details: &crate::types::ClassDetails, findings: &mut Vec<Finding>)
    ensures
        findings_view(final(findings)@) == findings_view(old(findings)@) + name_findings_spec(
            details@,
        ),
{
    let lower = crate::text::to_ascii_lower(details.class_name.as_str());
    let lib = library_name(lower.as_str());

    let mut out: Vec<Finding> = Vec::new();
    proof {
        assert(findings_view(out@) =~= Seq::<SpecFinding>::empty());
    }
    if !lib {
        let ghost b0 = out@;
        let mut pr = path_random(details.class_name.as_str());
        let ghost prv = pr@;
        out.append(&mut pr);
        proof {
            crate::types::lemma_findings_view_concat(b0, prv);
        }
        let ghost b1 = out@;
        let mut sr = super_random(details.superclass_name.as_str());
        let ghost srv = sr@;
        out.append(&mut sr);
        proof {
            crate::types::lemma_findings_view_concat(b1, srv);
        }
    }
    let ghost part1 = findings_view(out@);
    proof {
        let lib_g = is_library_name(ascii_lower(details.class_name@));
        assert(part1 =~= if !lib_g {
            path_random_findings(details.class_name@) + superclass_random_findings(
                details.superclass_name@,
            )
        } else {
            Seq::<SpecFinding>::empty()
        });
    }
    let ghost b2 = out@;
    let mut cu = name_unicode(details.class_name.as_str(), "Class Name");
    let ghost cuv = cu@;
    out.append(&mut cu);
    proof {
        crate::types::lemma_findings_view_concat(b2, cuv);
    }
    let ghost b3 = out@;
    let mut su = name_unicode(details.superclass_name.as_str(), "Superclass Name");
    let ghost suv = su@;
    out.append(&mut su);
    proof {
        crate::types::lemma_findings_view_concat(b3, suv);
    }
    let ghost b4 = out@;
    let mut ifs = interfaces_scan(&details.interfaces, lib);
    let ghost ifsv = ifs@;
    out.append(&mut ifs);
    proof {
        crate::types::lemma_findings_view_concat(b4, ifsv);
    }
    let ghost b5 = out@;
    let mut bk = bulk_scan(details);
    let ghost bkv = bk@;
    out.append(&mut bk);
    proof {
        crate::types::lemma_findings_view_concat(b5, bkv);
    }
    let ghost b6 = out@;
    let mut kw = keyword_scan(lower.as_str());
    let ghost kwv = kw@;
    out.append(&mut kw);
    proof {
        crate::types::lemma_findings_view_concat(b6, kwv);
        assert(findings_view(out@) =~= name_findings_spec(details@));
    }
    let ghost before = findings@;
    let ghost outv = out@;
    findings.append(&mut out);
    proof {
        crate::types::lemma_findings_view_concat(before, outv);
    }
}

} // verus!
