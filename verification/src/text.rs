//! Character classification and string utilities shared by the parser
//! and the heuristics: counting, prefix/substring tests, splitting,
//! lower-casing, truncation and decimal rendering.

use vstd::prelude::*;
use vstd::string::StrSliceExecFns;
use vstd::string::StringExecFns;

verus! {

// ---------------------------------------------------------------------------
// Generic counting over sequences
// ---------------------------------------------------------------------------

/// How many elements of `s` satisfy `p`.
pub open spec fn count_matching<A>(s: Seq<A>, p: spec_fn(A) -> bool) -> nat
    decreases s.len(),
{
    if s.len() == 0 {
        0
    } else {
        count_matching(s.drop_last(), p) + (if p(s.last()) {
            1nat
        } else {
            0nat
        })
    }
}

pub proof fn lemma_count_matching_le_len<A>(s: Seq<A>, p: spec_fn(A) -> bool)
    ensures
        count_matching(s, p) <= s.len(),
    decreases s.len(),
{
    if s.len() > 0 {
        lemma_count_matching_le_len(s.drop_last(), p);
    }
}

// ---------------------------------------------------------------------------
// Character classes
// ---------------------------------------------------------------------------

pub open spec fn is_ascii_char(c: char) -> bool {
    (c as u32) < 128
}

pub open spec fn is_ascii_control_char(c: char) -> bool {
    (c as u32) < 32 || (c as u32) == 127
}

/// The Cyrillic block U+0400..U+04FF.
pub open spec fn is_cyrillic_char(c: char) -> bool {
    0x400 <= (c as u32) <= 0x4FF
}

pub open spec fn is_ascii_upper_char(c: char) -> bool {
    65 <= (c as u32) <= 90
}

pub open spec fn is_ascii_lower_char(c: char) -> bool {
    97 <= (c as u32) <= 122
}

pub open spec fn is_ascii_digit_char(c: char) -> bool {
    48 <= (c as u32) <= 57
}

pub open spec fn is_ascii_alphanumeric_char(c: char) -> bool {
    is_ascii_upper_char(c) || is_ascii_lower_char(c) || is_ascii_digit_char(c)
}

/// Vowels (including `y`) in either case.
pub open spec fn is_vowel_char(c: char) -> bool {
    c == 'a' || c == 'e' || c == 'i' || c == 'o' || c == 'u' || c == 'y' || c == 'A' || c == 'E'
        || c == 'I' || c == 'O' || c == 'U' || c == 'Y'
}

/// A character that counts as junk in an identifier: neither ASCII nor
/// Cyrillic.
pub open spec fn is_name_junk_char(c: char) -> bool {
    !is_ascii_char(c) && !is_cyrillic_char(c)
}

/// A character that counts as junk in a string literal: an ASCII control
/// character other than newline, carriage return and tab, or any
/// non-ASCII character outside the Cyrillic block.
pub open spec fn is_string_junk_char(c: char) -> bool {
    (is_ascii_char(c) && is_ascii_control_char(c) && c != '\n' && c != '\r' && c != '\t')
        || (!is_ascii_char(c) && !is_cyrillic_char(c))
}

/// The base64 alphabet (with padding).
pub open spec fn is_base64_char(c: char) -> bool {
    is_ascii_alphanumeric_char(c) || c == '+' || c == '/' || c == '='
}

// ---------------------------------------------------------------------------
// Named counts used by the heuristics
// ---------------------------------------------------------------------------

pub open spec fn count_char(s: Seq<char>, c: char) -> nat {
    count_matching(s, |x: char| x == c)
}

pub proof fn lemma_count_char_pos(s: Seq<char>, c: char)
    requires
        count_char(s, c) > 0,
    ensures
        s.contains(c),
    decreases s.len(),
{
    if s.len() > 0 {
        if s.last() == c {
            assert(s[s.len() - 1] == c);
        } else {
            lemma_count_char_pos(s.drop_last(), c);
            let i = choose|i: int| 0 <= i < s.drop_last().len() && s.drop_last()[i] == c;
            assert(s[i] == c);
        }
    }
}

/// How many distinct characters occur in `s`.
pub open spec fn count_distinct(s: Seq<char>) -> nat
    decreases s.len(),
{
    if s.len() == 0 {
        0
    } else {
        count_distinct(s.drop_last()) + (if s.drop_last().contains(s.last()) {
            0nat
        } else {
            1nat
        })
    }
}

pub open spec fn count_vowels(s: Seq<char>) -> nat {
    count_matching(s, |c: char| is_vowel_char(c))
}

pub open spec fn count_upper(s: Seq<char>) -> nat {
    count_matching(s, |c: char| is_ascii_upper_char(c))
}

pub open spec fn count_lower(s: Seq<char>) -> nat {
    count_matching(s, |c: char| is_ascii_lower_char(c))
}

pub open spec fn count_digits(s: Seq<char>) -> nat {
    count_matching(s, |c: char| is_ascii_digit_char(c))
}

pub open spec fn count_name_junk(s: Seq<char>) -> nat {
    count_matching(s, |c: char| is_name_junk_char(c))
}

pub open spec fn count_string_junk(s: Seq<char>) -> nat {
    count_matching(s, |c: char| is_string_junk_char(c))
}

pub open spec fn all_matching(s: Seq<char>, p: spec_fn(char) -> bool) -> bool {
    forall|i: int| 0 <= i < s.len() ==> p(s[i])
}

// ---------------------------------------------------------------------------
// Exec character tests
// ---------------------------------------------------------------------------

pub fn name_junk_char(c: char) -> (r: bool)
    ensures
        r == is_name_junk_char(c),
{
    let u = c as u32;
    !(u < 128) && !(0x400 <= u && u <= 0x4FF)
}

pub fn string_junk_char(c: char) -> (r: bool)
    ensures
        r == is_string_junk_char(c),
{
    let u = c as u32;
    if u < 128 {
        (u < 32 || u == 127) && c != '\n' && c != '\r' && c != '\t'
    } else {
        !(0x400 <= u && u <= 0x4FF)
    }
}

pub fn vowel_char(c: char) -> (r: bool)
    ensures
        r == is_vowel_char(c),
{
    c == 'a' || c == 'e' || c == 'i' || c == 'o' || c == 'u' || c == 'y' || c == 'A' || c == 'E'
        || c == 'I' || c == 'O' || c == 'U' || c == 'Y'
}

pub fn alphanumeric_char(c: char) -> (r: bool)
    ensures
        r == is_ascii_alphanumeric_char(c),
{
    let u = c as u32;
    (65 <= u && u <= 90) || (97 <= u && u <= 122) || (48 <= u && u <= 57)
}

pub fn base64_char(c: char) -> (r: bool)
    ensures
        r == is_base64_char(c),
{
    alphanumeric_char(c) || c == '+' || c == '/' || c == '='
}

// ---------------------------------------------------------------------------
// Exec counting over a &str
// ---------------------------------------------------------------------------

pub fn count_string_junk_str(s: &str) -> (r: usize)
    ensures
        r == count_string_junk(s@),
{
    let n = s.unicode_len();
    let mut r: usize = 0;
    let mut i: usize = 0;
    while i < n
        invariant
            n == s@.len(),
            i <= n,
            r == count_string_junk(s@.take(i as int)),
            r <= i,
        decreases n - i,
    {
        let c = s.get_char(i);
        if string_junk_char(c) {
            r = r + 1;
        }
        i = i + 1;
        proof {
            assert(s@.take(i as int).drop_last() =~= s@.take(i - 1));
            assert(s@.take(i as int).last() == s@[i - 1]);
        }
    }
    proof {
        assert(s@.take(n as int) =~= s@);
    }
    r
}

pub fn count_name_junk_str(s: &str) -> (r: usize)
    ensures
        r == count_name_junk(s@),
{
    let n = s.unicode_len();
    let mut r: usize = 0;
    let mut i: usize = 0;
    while i < n
        invariant
            n == s@.len(),
            i <= n,
            r == count_name_junk(s@.take(i as int)),
            r <= i,
        decreases n - i,
    {
        let c = s.get_char(i);
        if name_junk_char(c) {
            r = r + 1;
        }
        i = i + 1;
        proof {
            assert(s@.take(i as int).drop_last() =~= s@.take(i - 1));
            assert(s@.take(i as int).last() == s@[i - 1]);
        }
    }
    proof {
        assert(s@.take(n as int) =~= s@);
    }
    r
}

// ---------------------------------------------------------------------------
// Prefix, substring and equality tests
// ---------------------------------------------------------------------------

pub open spec fn has_prefix(s: Seq<char>, p: Seq<char>) -> bool {
    p.len() <= s.len() && s.subrange(0, p.len() as int) == p
}

pub open spec fn contains_sub(s: Seq<char>, sub: Seq<char>) -> bool {
    exists|i: int|
        0 <= i <= s.len() - sub.len() && #[trigger] s.subrange(i, i + sub.len() as int) == sub
}

pub fn str_contains_char(s: &str, c: char) -> (r: bool)
    ensures
        r == s@.contains(c),
{
    let n = s.unicode_len();
    let mut i: usize = 0;
    while i < n
        invariant
            n == s@.len(),
            i <= n,
            forall|j: int| 0 <= j < i ==> s@[j] != c,
        decreases n - i,
    {
        if s.get_char(i) == c {
            return true;
        }
        i = i + 1;
    }
    proof {
        if s@.contains(c) {
            let j = choose|j: int| 0 <= j < s@.len() && s@[j] == c;
            assert(false);
        }
    }
    false
}

pub fn str_eq(a: &str, b: &str) -> (r: bool)
    ensures
        r == (a@ == b@),
{
    let sa = String::from_str(a);
    let sb = String::from_str(b);
    sa == sb
}

pub fn str_has_prefix(s: &str, p: &str) -> (r: bool)
    ensures
        r == has_prefix(s@, p@),
{
    let sn = s.unicode_len();
    let pn = p.unicode_len();
    if pn > sn {
        return false;
    }
    let mut i: usize = 0;
    while i < pn
        invariant
            sn == s@.len(),
            pn == p@.len(),
            pn <= sn,
            i <= pn,
            forall|j: int| 0 <= j < i ==> s@[j] == p@[j],
        decreases pn - i,
    {
        if s.get_char(i) != p.get_char(i) {
            assert(s@.subrange(0, pn as int)[i as int] != p@[i as int]);
            return false;
        }
        i = i + 1;
    }
    proof {
        assert(s@.subrange(0, pn as int) =~= p@);
    }
    true
}

/// Whether `sub` occurs contiguously in `s`.
pub fn str_contains_sub(s: &str, sub: &str) -> (r: bool)
    ensures
        r == contains_sub(s@, sub@),
{
    let sn = s.unicode_len();
    let bn = sub.unicode_len();
    if bn > sn {
        proof {
            if contains_sub(s@, sub@) {
                let i = choose|i: int|
                    0 <= i <= s@.len() - sub@.len() && #[trigger] s@.subrange(
                        i,
                        i + sub@.len() as int,
                    ) == sub@;
                assert(false);
            }
        }
        return false;
    }
    if bn == 0 {
        proof {
            assert(s@.subrange(0, 0 + sub@.len() as int) =~= sub@);
        }
        return true;
    }
    let bound: usize = sn - bn + 1;
    let mut start: usize = 0;
    while start < bound
        invariant
            sn == s@.len(),
            bn == sub@.len(),
            bn <= sn,
            bound == sn - bn + 1,
            start <= bound,
            forall|i: int|
                0 <= i < start ==> #[trigger] s@.subrange(i, i + sub@.len() as int) != sub@,
        decreases bound - start,
    {
        let mut j: usize = 0;
        let mut all_eq = true;
        while j < bn
            invariant
                sn == s@.len(),
                bn == sub@.len(),
                start + bn <= sn,
                j <= bn,
                all_eq <==> (forall|k: int| 0 <= k < j ==> s@[start + k] == sub@[k]),
            decreases bn - j,
        {
            if s.get_char(start + j) != sub.get_char(j) {
                all_eq = false;
                proof {
                    assert(s@[start + j] != sub@[j as int]);
                }
                j = bn;
            } else {
                j = j + 1;
            }
        }
        if all_eq {
            proof {
                assert(s@.subrange(start as int, start + sub@.len() as int) =~= sub@);
            }
            return true;
        }
        proof {
            assert(s@.subrange(start as int, start + sub@.len() as int) != sub@) by {
                let k = choose|k: int| 0 <= k < bn && s@[start + k] != sub@[k];
                assert(s@.subrange(start as int, start + sub@.len() as int)[k] == s@[start + k]);
            }
        }
        start = start + 1;
    }
    proof {
        assert(forall|i: int|
            0 <= i <= s@.len() - sub@.len() ==> #[trigger] s@.subrange(i, i + sub@.len() as int)
                != sub@);
    }
    false
}

/// Whether some element of `v` has exactly the characters of `s`.
pub fn vec_contains_string(v: &Vec<String>, s: &str) -> (r: bool)
    ensures
        r == v.deep_view().contains(s@),
{
    let target = String::from_str(s);
    let mut i: usize = 0;
    while i < v.len()
        invariant
            target@ == s@,
            i <= v@.len(),
            forall|j: int| 0 <= j < i ==> v@[j]@ != s@,
        decreases v@.len() - i,
    {
        if v[i] == target {
            proof {
                assert(v.deep_view()[i as int] == s@);
            }
            return true;
        }
        i = i + 1;
    }
    proof {
        assert(forall|j: int| 0 <= j < v.deep_view().len() ==> v.deep_view()[j] != s@);
    }
    false
}

// ---------------------------------------------------------------------------
// Lower-casing (ASCII)
// ---------------------------------------------------------------------------

/// ASCII lower-casing of one character; everything else is unchanged.
pub open spec fn lower_char(c: char) -> char {
    match c {
        'A' => 'a',
        'B' => 'b',
        'C' => 'c',
        'D' => 'd',
        'E' => 'e',
        'F' => 'f',
        'G' => 'g',
        'H' => 'h',
        'I' => 'i',
        'J' => 'j',
        'K' => 'k',
        'L' => 'l',
        'M' => 'm',
        'N' => 'n',
        'O' => 'o',
        'P' => 'p',
        'Q' => 'q',
        'R' => 'r',
        'S' => 's',
        'T' => 't',
        'U' => 'u',
        'V' => 'v',
        'W' => 'w',
        'X' => 'x',
        'Y' => 'y',
        'Z' => 'z',
        _ => c,
    }
}

pub open spec fn ascii_lower(s: Seq<char>) -> Seq<char> {
    s.map_values(|c: char| lower_char(c))
}

fn lower_char_exec(c: char) -> (r: char)
    ensures
        r == lower_char(c),
{
    match c {
        'A' => 'a',
        'B' => 'b',
        'C' => 'c',
        'D' => 'd',
        'E' => 'e',
        'F' => 'f',
        'G' => 'g',
        'H' => 'h',
        'I' => 'i',
        'J' => 'j',
        'K' => 'k',
        'L' => 'l',
        'M' => 'm',
        'N' => 'n',
        'O' => 'o',
        'P' => 'p',
        'Q' => 'q',
        'R' => 'r',
        'S' => 's',
        'T' => 't',
        'U' => 'u',
        'V' => 'v',
        'W' => 'w',
        'X' => 'x',
        'Y' => 'y',
        'Z' => 'z',
        _ => c,
    }
}

/// Append one character to a string.
fn push_char(out: &mut String, c: char)
    ensures
        final(out)@ == old(out)@ + seq![c],
{
    let one: String = char_to_string(c);
    out.append(one.as_str());
}

/// A one-character string.
fn char_to_string(c: char) -> (r: String)
    ensures
        r@ =~= seq![c],
{
    let mut v: Vec<char> = Vec::new();
    v.push(c);
    chars_to_string(&v)
}

/// Relies on `String::from_iter` over `char`: the resulting string holds
/// exactly the given characters in order.
#[verifier::external_body]
fn chars_to_string(v: &Vec<char>) -> (r: String)
    ensures
        r@ == v@,
{
    v.iter().collect()
}

/// ASCII-lower-cased copy of a string. Non-ASCII characters pass
/// through unchanged — including the few upper-case letters whose
/// Unicode lower-casing folds into ASCII (such as the Kelvin sign) —
/// so matching against the ASCII allowlists and keyword list is exact
/// for ASCII names and deliberately conservative for exotic ones.
pub fn to_ascii_lower(s: &str) -> (r: String)
    ensures
        r@ == ascii_lower(s@),
{
    let n = s.unicode_len();
    let mut out = String::new();
    let mut i: usize = 0;
    while i < n
        invariant
            n == s@.len(),
            i <= n,
            out@ =~= s@.take(i as int).map_values(|c: char| lower_char(c)),
        decreases n - i,
    {
        let c = s.get_char(i);
        push_char(&mut out, lower_char_exec(c));
        i = i + 1;
        proof {
            assert(s@.take(i as int).map_values(|c: char| lower_char(c)) =~= s@.take(
                i - 1,
            ).map_values(|c: char| lower_char(c)) + seq![lower_char(s@[i - 1])]);
        }
    }
    proof {
        assert(s@.take(n as int) =~= s@);
        assert(out@ =~= ascii_lower(s@));
    }
    out
}

// ---------------------------------------------------------------------------
// Splitting on a separator
// ---------------------------------------------------------------------------

/// The segments of `s` between occurrences of `sep`. Always non-empty;
/// an empty input yields one empty segment.
pub open spec fn split_on(s: Seq<char>, sep: char) -> Seq<Seq<char>>
    decreases s.len(),
    via split_on_decreases
{
    match s.index_of_first(sep) {
        Option::None => seq![s],
        Option::Some(i) => seq![s.take(i)] + split_on(s.skip(i + 1), sep),
    }
}

#[via_fn]
proof fn split_on_decreases(s: Seq<char>, sep: char) {
    s.index_of_first_ensures(sep);
}

pub proof fn lemma_split_on_nonempty(s: Seq<char>, sep: char)
    ensures
        split_on(s, sep).len() >= 1,
    decreases s.len(),
{
    s.index_of_first_ensures(sep);
    match s.index_of_first(sep) {
        Option::None => {},
        Option::Some(i) => {
            lemma_split_on_nonempty(s.skip(i + 1), sep);
        },
    }
}

/// Split a string on `/`.
pub fn split_slash(s: &str) -> (r: Vec<String>)
    ensures
        r.deep_view() == split_on(s@, '/'),
{
    let n = s.unicode_len();
    let mut parts: Vec<String> = Vec::new();
    let mut start: usize = 0;
    let mut i: usize = 0;
    proof {
        assert(s@.skip(0) =~= s@);
        assert(parts.deep_view() =~= Seq::<Seq<char>>::empty());
        assert(split_on(s@, '/') =~= parts.deep_view() + split_on(s@.skip(0), '/'));
    }
    while i < n
        invariant
            n == s@.len(),
            start <= i <= n,
            split_on(s@, '/') =~= parts.deep_view() + split_on(s@.skip(start as int), '/'),
            forall|j: int| start <= j < i ==> s@[j] != '/',
        decreases n - i,
    {
        if s.get_char(i) == '/' {
            let seg = s.substring_char(start, i);
            parts.push(String::from_str(seg));
            proof {
                let rest = s@.skip(start as int);
                rest.index_of_first_ensures('/');
                assert(rest[i - start] == '/');
                assert(forall|j: int| 0 <= j < i - start ==> rest[j] != '/');
                assert(rest.index_of_first('/') == Option::Some(i - start as int)) by {
                    match rest.index_of_first('/') {
                        Option::None => {
                            assert(!rest.contains('/'));
                            assert(false);
                        },
                        Option::Some(k) => {
                            if k < i - start {
                                assert(rest[k] != '/');
                                assert(false);
                            }
                            if k > i - start {
                                assert(false);
                            }
                        },
                    }
                }
                assert(rest.take(i - start as int) =~= s@.subrange(start as int, i as int));
                assert(rest.skip(i - start + 1) =~= s@.skip(i + 1));
                assert(split_on(rest, '/') == seq![s@.subrange(start as int, i as int)] + split_on(
                    s@.skip(i + 1),
                    '/',
                ));
                assert(parts.deep_view() =~= parts.deep_view().drop_last() + seq![
                    s@.subrange(start as int, i as int),
                ]);
                assert(split_on(s@, '/') =~= parts.deep_view() + split_on(s@.skip(i + 1), '/'));
            }
            start = i + 1;
        }
        i = i + 1;
    }
    let seg = s.substring_char(start, n);
    parts.push(String::from_str(seg));
    proof {
        let rest = s@.skip(start as int);
        rest.index_of_first_ensures('/');
        assert(forall|j: int| 0 <= j < rest.len() ==> rest[j] != '/');
        match rest.index_of_first('/') {
            Option::None => {},
            Option::Some(k) => {
                assert(rest[k] == '/');
                assert(false);
            },
        }
        assert(rest =~= s@.subrange(start as int, n as int));
        assert(split_on(rest, '/') == seq![rest]);
        assert(parts.deep_view() =~= parts.deep_view().drop_last() + seq![rest]);
        assert(parts.deep_view() =~= split_on(s@, '/'));
    }
    parts
}

/// The simple (unqualified) form of a slash-separated name: the last
/// segment.
pub open spec fn last_segment(s: Seq<char>, sep: char) -> Seq<char> {
    split_on(s, sep).last()
}

pub fn simple_name(s: &str) -> (r: String)
    ensures
        r@ == last_segment(s@, '/'),
{
    let parts = split_slash(s);
    proof {
        lemma_split_on_nonempty(s@, '/');
        assert(parts.deep_view().len() == parts@.len());
    }
    let last = &parts[parts.len() - 1];
    proof {
        assert(parts.deep_view().last() == parts@[parts@.len() - 1]@);
    }
    last.clone()
}

// ---------------------------------------------------------------------------
// Truncation
// ---------------------------------------------------------------------------

/// `s` unchanged if it has at most `max` characters; otherwise its first
/// `max` characters followed by an ellipsis.
pub open spec fn truncated_chars(s: Seq<char>, max: nat) -> Seq<char> {
    if s.len() <= max {
        s
    } else {
        s.take(max as int) + "..."@
    }
}

/// A short excerpt of `s`, at most `max` characters plus an ellipsis.
pub fn truncate_string(s: &str, max: usize) -> (r: String)
    ensures
        r@ == truncated_chars(s@, max as nat),
{
    let n = s.unicode_len();
    if n <= max {
        String::from_str(s)
    } else {
        let head = s.substring_char(0, max);
        let mut out = String::from_str(head);
        out.append("...");
        proof {
            assert(s@.subrange(0, max as int) =~= s@.take(max as int));
        }
        out
    }
}

// ---------------------------------------------------------------------------
// Decimal rendering
// ---------------------------------------------------------------------------

pub open spec fn digit_char(d: int) -> char {
    if d == 0 {
        '0'
    } else if d == 1 {
        '1'
    } else if d == 2 {
        '2'
    } else if d == 3 {
        '3'
    } else if d == 4 {
        '4'
    } else if d == 5 {
        '5'
    } else if d == 6 {
        '6'
    } else if d == 7 {
        '7'
    } else if d == 8 {
        '8'
    } else if d == 9 {
        '9'
    } else {
        '?'
    }
}

/// The decimal digits of `n`, most significant first.
pub open spec fn dec_digits(n: nat) -> Seq<char>
    decreases n,
{
    if n < 10 {
        seq![digit_char(n as int)]
    } else {
        dec_digits(n / 10) + seq![digit_char((n % 10) as int)]
    }
}

fn digit_str(d: u64) -> (r: &'static str)
    requires
        d < 10,
    ensures
        r@ =~= seq![digit_char(d as int)],
{
    proof {
        reveal_strlit("0");
        reveal_strlit("1");
        reveal_strlit("2");
        reveal_strlit("3");
        reveal_strlit("4");
        reveal_strlit("5");
        reveal_strlit("6");
        reveal_strlit("7");
        reveal_strlit("8");
        reveal_strlit("9");
    }
    match d {
        0 => "0",
        1 => "1",
        2 => "2",
        3 => "3",
        4 => "4",
        5 => "5",
        6 => "6",
        7 => "7",
        8 => "8",
        _ => "9",
    }
}

/// Render `n` in decimal.
pub fn num_to_string(n: u64) -> (r: String)
    ensures
        r@ == dec_digits(n as nat),
    decreases n,
{
    if n < 10 {
        String::from_str(digit_str(n))
    } else {
        let mut out = num_to_string(n / 10);
        out.append(digit_str(n % 10));
        out
    }
}

/// Render `n` in decimal, for counts that may exceed the 64-bit range.
pub fn num128_to_string(n: u128) -> (r: String)
    ensures
        r@ == dec_digits(n as nat),
    decreases n,
{
    if n < 10 {
        String::from_str(digit_str((n % 10) as u64))
    } else {
        let mut out = num128_to_string(n / 10);
        out.append(digit_str((n % 10) as u64));
        out
    }
}

// ---------------------------------------------------------------------------
// Placeholder replacement
// ---------------------------------------------------------------------------

/// `s` with every occurrence of `{}` replaced by `arg`, scanning left to
/// right.
pub open spec fn replace_braces_spec(s: Seq<char>, arg: Seq<char>) -> Seq<char>
    decreases s.len(),
{
    if s.len() >= 2 && s[0] == '{' && s[1] == '}' {
        arg + replace_braces_spec(s.skip(2), arg)
    } else if s.len() > 0 {
        seq![s[0]] + replace_braces_spec(s.skip(1), arg)
    } else {
        Seq::empty()
    }
}

/// Substitute `arg` for each `{}` in `s`.
pub fn replace_braces(s: &str, arg: &str) -> (r: String)
    ensures
        r@ == replace_braces_spec(s@, arg@),
{
    let n = s.unicode_len();
    let mut out = String::new();
    let mut i: usize = 0;
    proof {
        assert(s@.skip(0) =~= s@);
        assert(replace_braces_spec(s@, arg@) =~= out@ + replace_braces_spec(s@.skip(0), arg@));
    }
    while i < n
        invariant
            n == s@.len(),
            i <= n,
            replace_braces_spec(s@, arg@) =~= out@ + replace_braces_spec(
                s@.skip(i as int),
                arg@,
            ),
        decreases n - i,
    {
        let c = s.get_char(i);
        if c == '{' && i + 1 < n && s.get_char(i + 1) == '}' {
            out.append(arg);
            proof {
                let rest = s@.skip(i as int);
                assert(rest[0] == '{' && rest[1] == '}');
                assert(rest.skip(2) =~= s@.skip(i + 2));
            }
            i = i + 2;
        } else {
            push_char(&mut out, c);
            proof {
                let rest = s@.skip(i as int);
                assert(rest[0] == s@[i as int]);
                assert(!(rest.len() >= 2 && rest[0] == '{' && rest[1] == '}')) by {
                    if rest.len() >= 2 {
                        assert(rest[1] == s@[i + 1]);
                    }
                }
                assert(rest.skip(1) =~= s@.skip(i + 1));
            }
            i = i + 1;
        }
    }
    proof {
        assert(s@.skip(n as int) =~= Seq::<char>::empty());
        assert(replace_braces_spec(Seq::<char>::empty(), arg@) == Seq::<char>::empty());
        assert(out@ =~= out@ + Seq::<char>::empty());
    }
    out
}

} // verus!
