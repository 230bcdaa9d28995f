//! Defensive parser for the JVM class-file binary format.
//!
//! The input is untrusted: every length-prefixed or index-referencing
//! field is bounds-checked before use, and a crafted file fails with a
//! typed [`ParseError`] instead of a panic, an out-of-bounds read or an
//! unbounded allocation.
//!
//! The exec parser is proved equal to a functional specification,
//! [`spec_parse_class`], stated over the raw byte sequence.

use vstd::prelude::*;
use vstd::utf8::{decode_utf8, valid_utf8};

use crate::types::{ClassDetails, ClassDetailsSpec, MalformedKind, ParseError};

verus! {

// ---------------------------------------------------------------------------
// Specification
// ---------------------------------------------------------------------------

/// One constant-pool slot, as much of it as the scanner needs: a text
/// entry, a class-reference entry, or anything else.
pub enum SpecCpItem {
    Utf8(Seq<char>),
    ClassRef(int),
    Other,
}

/// Big-endian 16-bit value at `i`.
pub open spec fn spec_u16(s: Seq<u8>, i: int) -> int {
    s[i] * 256 + s[i + 1]
}

/// Big-endian 32-bit value at `i`.
pub open spec fn spec_u32(s: Seq<u8>, i: int) -> int {
    spec_u16(s, i) * 65536 + spec_u16(s, i + 2)
}

/// Byte size of a constant-pool entry body (after the tag) for the
/// fixed-size tags the parser skips over; `None` for an unknown tag.
/// Text (1), class (7) and the two-slot wide entries (5, 6) are handled
/// separately.
pub open spec fn spec_tag_body_size(tag: u8) -> Option<int> {
    if tag == 3 || tag == 4 {
        Option::Some(4)
    } else if tag == 8 {
        Option::Some(2)
    } else if tag == 9 || tag == 10 || tag == 11 {
        Option::Some(4)
    } else if tag == 12 {
        Option::Some(4)
    } else if tag == 15 {
        Option::Some(3)
    } else if tag == 16 {
        Option::Some(2)
    } else if tag == 17 || tag == 18 {
        Option::Some(4)
    } else if tag == 19 || tag == 20 {
        Option::Some(2)
    } else {
        Option::None
    }
}

/// Walk `slots` remaining constant-pool slots starting at `pos`,
/// extending `acc` (which already holds the unused slot 0).
pub open spec fn spec_parse_cp(s: Seq<u8>, pos: int, slots: nat, acc: Seq<SpecCpItem>) -> Result<
    (Seq<SpecCpItem>, int),
    MalformedKind,
>
    decreases slots,
{
    if slots == 0 {
        Result::Ok((acc, pos))
    } else if pos + 1 > s.len() {
        Result::Err(MalformedKind::Truncated)
    } else {
        let tag = s[pos];
        if tag == 1 {
            if pos + 3 > s.len() {
                Result::Err(MalformedKind::Truncated)
            } else {
                let len = spec_u16(s, pos + 1);
                if pos + 3 + len > s.len() {
                    Result::Err(MalformedKind::Truncated)
                } else {
                    let bytes = s.subrange(pos + 3, pos + 3 + len);
                    if !valid_utf8(bytes) {
                        Result::Err(MalformedKind::BadUtf8)
                    } else {
                        spec_parse_cp(
                            s,
                            pos + 3 + len,
                            (slots - 1) as nat,
                            acc.push(SpecCpItem::Utf8(decode_utf8(bytes))),
                        )
                    }
                }
            }
        } else if tag == 7 {
            if pos + 3 > s.len() {
                Result::Err(MalformedKind::Truncated)
            } else {
                spec_parse_cp(
                    s,
                    pos + 3,
                    (slots - 1) as nat,
                    acc.push(SpecCpItem::ClassRef(spec_u16(s, pos + 1))),
                )
            }
        } else if tag == 5 || tag == 6 {
            if pos + 9 > s.len() {
                Result::Err(MalformedKind::Truncated)
            } else if slots == 1 {
                Result::Err(MalformedKind::BadCount)
            } else {
                spec_parse_cp(
                    s,
                    pos + 9,
                    (slots - 2) as nat,
                    acc.push(SpecCpItem::Other).push(SpecCpItem::Other),
                )
            }
        } else {
            match spec_tag_body_size(tag) {
                Option::None => Result::Err(MalformedKind::UnknownTag),
                Option::Some(k) => {
                    if pos + 1 + k > s.len() {
                        Result::Err(MalformedKind::Truncated)
                    } else {
                        spec_parse_cp(s, pos + 1 + k, (slots - 1) as nat, acc.push(SpecCpItem::Other))
                    }
                },
            }
        }
    }
}

/// The text entry at constant-pool index `idx`.
pub open spec fn spec_cp_utf8(cp: Seq<SpecCpItem>, idx: int) -> Result<Seq<char>, MalformedKind> {
    if 0 < idx < cp.len() && cp[idx] is Utf8 {
        Result::Ok(cp[idx]->Utf8_0)
    } else {
        Result::Err(MalformedKind::BadIndex)
    }
}

/// The name of the class-reference entry at constant-pool index `idx`.
pub open spec fn spec_cp_class_name(cp: Seq<SpecCpItem>, idx: int) -> Result<
    Seq<char>,
    MalformedKind,
> {
    if 0 < idx < cp.len() && cp[idx] is ClassRef {
        spec_cp_utf8(cp, cp[idx]->ClassRef_0)
    } else {
        Result::Err(MalformedKind::BadIndex)
    }
}

/// Resolve `n` interface indices starting at `pos`.
pub open spec fn spec_parse_interfaces(
    s: Seq<u8>,
    cp: Seq<SpecCpItem>,
    pos: int,
    n: nat,
    acc: Seq<Seq<char>>,
) -> Result<(Seq<Seq<char>>, int), MalformedKind>
    decreases n,
{
    if n == 0 {
        Result::Ok((acc, pos))
    } else if pos + 2 > s.len() {
        Result::Err(MalformedKind::Truncated)
    } else {
        match spec_cp_class_name(cp, spec_u16(s, pos)) {
            Result::Err(k) => Result::Err(k),
            Result::Ok(name) => spec_parse_interfaces(s, cp, pos + 2, (n - 1) as nat, acc.push(name)),
        }
    }
}

/// Skip `n` attributes (name index, length, body) starting at `pos`.
/// Attribute bodies are never interpreted, only measured.
pub open spec fn spec_skip_attrs(s: Seq<u8>, pos: int, n: nat) -> Result<int, MalformedKind>
    decreases n,
{
    if n == 0 {
        Result::Ok(pos)
    } else if pos + 6 > s.len() {
        Result::Err(MalformedKind::Truncated)
    } else {
        let alen = spec_u32(s, pos + 2);
        if pos + 6 + alen > s.len() {
            Result::Err(MalformedKind::Truncated)
        } else {
            spec_skip_attrs(s, pos + 6 + alen, (n - 1) as nat)
        }
    }
}

/// Walk `n` member (field or method) records starting at `pos`,
/// collecting their names.
pub open spec fn spec_parse_members(
    s: Seq<u8>,
    cp: Seq<SpecCpItem>,
    pos: int,
    n: nat,
    acc: Seq<Seq<char>>,
) -> Result<(Seq<Seq<char>>, int), MalformedKind>
    decreases n,
{
    if n == 0 {
        Result::Ok((acc, pos))
    } else if pos + 8 > s.len() {
        Result::Err(MalformedKind::Truncated)
    } else {
        match spec_cp_utf8(cp, spec_u16(s, pos + 2)) {
            Result::Err(k) => Result::Err(k),
            Result::Ok(name) => {
                let attr_n = spec_u16(s, pos + 6);
                match spec_skip_attrs(s, pos + 8, attr_n as nat) {
                    Result::Err(k) => Result::Err(k),
                    Result::Ok(p2) => spec_parse_members(s, cp, p2, (n - 1) as nat, acc.push(name)),
                }
            },
        }
    }
}

/// The text entries of the pool, in pool order.
pub open spec fn spec_cp_strings(cp: Seq<SpecCpItem>) -> Seq<Seq<char>>
    decreases cp.len(),
{
    if cp.len() == 0 {
        Seq::empty()
    } else {
        spec_cp_strings(cp.drop_last()) + (if cp.last() is Utf8 {
            seq![cp.last()->Utf8_0]
        } else {
            Seq::empty()
        })
    }
}

/// First occurrence of each element kept, in order.
pub open spec fn dedup_seq(xs: Seq<Seq<char>>) -> Seq<Seq<char>>
    decreases xs.len(),
{
    if xs.len() == 0 {
        Seq::empty()
    } else {
        let d = dedup_seq(xs.drop_last());
        d + (if d.contains(xs.last()) {
            Seq::empty()
        } else {
            seq![xs.last()]
        })
    }
}

/// The functional specification of the parser: the structural summary
/// of a class file, or the reason it is malformed.
///
/// Layout: an 8-byte header (magic, minor, major), the constant pool,
/// access flags, this/super class indices, the interface table, the
/// field table, the method table. Class-level attributes and any
/// trailing bytes are ignored. The magic is not checked here; the
/// caller routes non-standard files elsewhere.
pub open spec fn spec_parse_class(s: Seq<u8>) -> Result<ClassDetailsSpec, MalformedKind> {
    if s.len() < 10 {
        Result::Err(MalformedKind::Truncated)
    } else {
        let cp_count = spec_u16(s, 8);
        if cp_count < 1 {
            Result::Err(MalformedKind::BadCount)
        } else {
            match spec_parse_cp(s, 10, (cp_count - 1) as nat, seq![SpecCpItem::Other]) {
                Result::Err(k) => Result::Err(k),
                Result::Ok((cp, pos)) => {
                    if pos + 8 > s.len() {
                        Result::Err(MalformedKind::Truncated)
                    } else {
                        let this_idx = spec_u16(s, pos + 2);
                        let super_idx = spec_u16(s, pos + 4);
                        match spec_cp_class_name(cp, this_idx) {
                            Result::Err(k) => Result::Err(k),
                            Result::Ok(cname) => {
                                let super_res: Result<Seq<char>, MalformedKind> = if super_idx == 0 {
                                    Result::Ok(Seq::empty())
                                } else {
                                    spec_cp_class_name(cp, super_idx)
                                };
                                match super_res {
                                    Result::Err(k) => Result::Err(k),
                                    Result::Ok(sname) => {
                                        let icount = spec_u16(s, pos + 6);
                                        match spec_parse_interfaces(
                                            s,
                                            cp,
                                            pos + 8,
                                            icount as nat,
                                            Seq::empty(),
                                        ) {
                                            Result::Err(k) => Result::Err(k),
                                            Result::Ok((ifaces, p2)) => {
                                                if p2 + 2 > s.len() {
                                                    Result::Err(MalformedKind::Truncated)
                                                } else {
                                                    let fcount = spec_u16(s, p2);
                                                    match spec_parse_members(
                                                        s,
                                                        cp,
                                                        p2 + 2,
                                                        fcount as nat,
                                                        Seq::empty(),
                                                    ) {
                                                        Result::Err(k) => Result::Err(k),
                                                        Result::Ok((fields, p3)) => {
                                                            if p3 + 2 > s.len() {
                                                                Result::Err(MalformedKind::Truncated)
                                                            } else {
                                                                let mcount = spec_u16(s, p3);
                                                                match spec_parse_members(
                                                                    s,
                                                                    cp,
                                                                    p3 + 2,
                                                                    mcount as nat,
                                                                    Seq::empty(),
                                                                ) {
                                                                    Result::Err(k) => Result::Err(k),
                                                                    Result::Ok((methods, _p4)) => Result::Ok(
                                                                        ClassDetailsSpec {
                                                                            class_name: cname,
                                                                            superclass_name: sname,
                                                                            interfaces: ifaces,
                                                                            fields: fields,
                                                                            methods: methods,
                                                                            strings: dedup_seq(
                                                                                spec_cp_strings(cp),
                                                                            ),
                                                                        },
                                                                    ),
                                                                }
                                                            }
                                                        },
                                                    }
                                                }
                                            },
                                        }
                                    },
                                }
                            },
                        }
                    }
                },
            }
        }
    }
}

/// The human-readable reason attached to each malformation kind.
pub open spec fn malformed_reason(k: MalformedKind) -> Seq<char> {
    match k {
        MalformedKind::Truncated => "class file is truncated"@,
        MalformedKind::UnknownTag => "unknown constant pool tag"@,
        MalformedKind::BadIndex => "invalid constant pool index"@,
        MalformedKind::BadUtf8 => "invalid UTF-8 in constant pool"@,
        MalformedKind::BadCount => "inconsistent constant pool count"@,
    }
}

/// What the exec parser promises relative to the specification.
pub open spec fn parse_result_matches(
    r: Result<ClassDetails, ParseError>,
    s: Seq<u8>,
) -> bool {
    match spec_parse_class(s) {
        Result::Ok(d) => r matches Result::Ok(cd) && cd@ == d,
        Result::Err(k) => r matches Result::Err(ParseError::Malformed { reason })
            && reason@ == malformed_reason(k),
    }
}

// ---------------------------------------------------------------------------
// Exec parser
// ---------------------------------------------------------------------------

/// Relies on `String::from_utf8`: it succeeds exactly on valid UTF-8
/// input and returns its decoding, as formalized by `vstd::utf8`.
#[verifier::external_body]
fn bytes_to_string(v: Vec<u8>) -> (r: Option<String>)
    ensures
        r is Some <==> valid_utf8(v@),
        r matches Some(s) ==> s@ == decode_utf8(v@),
{
    match String::from_utf8(v) {
        Ok(s) => Some(s),
        Err(_) => None,
    }
}

/// One decoded constant-pool slot.
pub enum CpEntry {
    Utf8(String),
    ClassRef(u16),
    Other,
}

impl View for CpEntry {
    type V = SpecCpItem;

    open spec fn view(&self) -> SpecCpItem {
        match self {
            CpEntry::Utf8(s) => SpecCpItem::Utf8(s@),
            CpEntry::ClassRef(i) => SpecCpItem::ClassRef(*i as int),
            CpEntry::Other => SpecCpItem::Other,
        }
    }
}

impl DeepView for CpEntry {
    type V = SpecCpItem;

    open spec fn deep_view(&self) -> SpecCpItem {
        self.view()
    }
}

fn make_malformed(k: MalformedKind) -> (r: ParseError)
    ensures
        r matches ParseError::Malformed { reason } && reason@ == malformed_reason(k),
{
    let reason = match k {
        MalformedKind::Truncated => String::from_str("class file is truncated"),
        MalformedKind::UnknownTag => String::from_str("unknown constant pool tag"),
        MalformedKind::BadIndex => String::from_str("invalid constant pool index"),
        MalformedKind::BadUtf8 => String::from_str("invalid UTF-8 in constant pool"),
        MalformedKind::BadCount => String::from_str("inconsistent constant pool count"),
    };
    ParseError::Malformed { reason }
}

fn read_u16(data: &[u8], pos: usize) -> (r: Option<u16>)
    ensures
        r is Some <==> pos + 2 <= data@.len(),
        r matches Some(v) ==> v as int == spec_u16(data@, pos as int),
{
    if pos < data.len() && data.len() - pos >= 2 {
        let hi = data[pos];
        let lo = data[pos + 1];
        Some((hi as u16) * 256 + (lo as u16))
    } else {
        None
    }
}

fn read_u32(data: &[u8], pos: usize) -> (r: Option<u32>)
    ensures
        r is Some <==> pos + 4 <= data@.len(),
        r matches Some(v) ==> v as int == spec_u32(data@, pos as int),
{
    if pos < data.len() && data.len() - pos >= 4 {
        let hi = match read_u16(data, pos) {
            Some(v) => v,
            None => {
                proof {
                    assert(false);
                }
                0
            },
        };
        let lo = match read_u16(data, pos + 2) {
            Some(v) => v,
            None => {
                proof {
                    assert(false);
                }
                0
            },
        };
        Some((hi as u32) * 65536 + (lo as u32))
    } else {
        None
    }
}

fn tag_body_size(tag: u8) -> (r: Option<usize>)
    ensures
        (match spec_tag_body_size(tag) {
            Option::Some(k) => r matches Some(v) && v as int == k,
            Option::None => r is None,
        }),
{
    if tag == 3 || tag == 4 {
        Some(4)
    } else if tag == 8 {
        Some(2)
    } else if tag == 9 || tag == 10 || tag == 11 {
        Some(4)
    } else if tag == 12 {
        Some(4)
    } else if tag == 15 {
        Some(3)
    } else if tag == 16 {
        Some(2)
    } else if tag == 17 || tag == 18 {
        Some(4)
    } else if tag == 19 || tag == 20 {
        Some(2)
    } else {
        None
    }
}

fn cp_utf8<'a>(cp: &'a Vec<CpEntry>, idx: usize) -> (r: Option<&'a String>)
    ensures
        r is Some <==> spec_cp_utf8(cp.deep_view(), idx as int) is Ok,
        r matches Some(s) ==> spec_cp_utf8(cp.deep_view(), idx as int) == Result::<
            Seq<char>,
            MalformedKind,
        >::Ok(s@),
        r is None ==> spec_cp_utf8(cp.deep_view(), idx as int) == Result::<
            Seq<char>,
            MalformedKind,
        >::Err(MalformedKind::BadIndex),
{
    proof {
        assert(cp.deep_view().len() == cp@.len());
    }
    if idx > 0 && idx < cp.len() {
        proof {
            assert(cp.deep_view()[idx as int] == cp@[idx as int].view());
        }
        match &cp[idx] {
            CpEntry::Utf8(s) => Some(s),
            _ => None,
        }
    } else {
        None
    }
}

fn cp_class_name(cp: &Vec<CpEntry>, idx: usize) -> (r: Option<String>)
    ensures
        r is Some <==> spec_cp_class_name(cp.deep_view(), idx as int) is Ok,
        r matches Some(s) ==> spec_cp_class_name(cp.deep_view(), idx as int) == Result::<
            Seq<char>,
            MalformedKind,
        >::Ok(s@),
        r is None ==> spec_cp_class_name(cp.deep_view(), idx as int) == Result::<
            Seq<char>,
            MalformedKind,
        >::Err(MalformedKind::BadIndex),
{
    proof {
        assert(cp.deep_view().len() == cp@.len());
    }
    if idx > 0 && idx < cp.len() {
        proof {
            assert(cp.deep_view()[idx as int] == cp@[idx as int].view());
        }
        let name_idx: u16 = match &cp[idx] {
            CpEntry::ClassRef(n) => *n,
            _ => {
                return None;
            },
        };
        match cp_utf8(cp, name_idx as usize) {
            Some(s) => Some(s.clone()),
            None => None,
        }
    } else {
        None
    }
}

/// The deduplicated text entries of the pool, in pool order.
#[verifier::loop_isolation(false)]
fn collect_strings(cp: &Vec<CpEntry>) -> (r: Vec<String>)
    ensures
        r.deep_view() == dedup_seq(spec_cp_strings(cp.deep_view())),
{
    let mut out: Vec<String> = Vec::new();
    let mut i: usize = 0;
    proof {
        assert(cp.deep_view().take(0) =~= Seq::<SpecCpItem>::empty());
        assert(out.deep_view() =~= Seq::<Seq<char>>::empty());
    }
    while i < cp.len()
        invariant
            i <= cp@.len(),
            cp.deep_view().len() == cp@.len(),
            out.deep_view() == dedup_seq(spec_cp_strings(cp.deep_view().take(i as int))),
        decreases cp@.len() - i,
    {
        let ghost pre = cp.deep_view().take(i as int);
        let ghost post = cp.deep_view().take(i + 1);
        proof {
            assert(post.drop_last() =~= pre);
            assert(post.last() == cp.deep_view()[i as int]);
            assert(cp.deep_view()[i as int] == cp@[i as int].view());
        }
        match &cp[i] {
            CpEntry::Utf8(s) => {
                let ghost ss = spec_cp_strings(pre);
                proof {
                    assert(spec_cp_strings(post) =~= ss + seq![s@]);
                    assert((ss + seq![s@]).drop_last() =~= ss);
                    assert((ss + seq![s@]).last() == s@);
                }
                if !crate::text::vec_contains_string(&out, s.as_str()) {
                    out.push(s.clone());
                    proof {
                        assert(out.deep_view() =~= dedup_seq(ss) + seq![s@]);
                    }
                } else {
                    proof {
                        assert(dedup_seq(ss + seq![s@]) =~= dedup_seq(ss));
                    }
                }
            },
            _ => {
                proof {
                    assert(spec_cp_strings(post) =~= spec_cp_strings(pre));
                }
            },
        }
        i = i + 1;
    }
    proof {
        assert(cp.deep_view().take(cp@.len() as int) =~= cp.deep_view());
    }
    out
}

/// Decode the class-file structure from raw bytes.
///
/// Returns the structural summary, or the reason the input is
/// malformed; it never panics on any input.
#[verifier::loop_isolation(false)]
pub fn parse_class_structure(data: &[u8]) -> (r: Result<ClassDetails, ParseError>)
    ensures
        parse_result_matches(r, data@),
{
    let ghost s = data@;
    if data.len() < 10 {
        return Err(make_malformed(MalformedKind::Truncated));
    }
    let cp_count: u16 = match read_u16(data, 8) {
        Some(v) => v,
        None => {
            proof {
                assert(false);
            }
            return Err(make_malformed(MalformedKind::Truncated));
        },
    };
    if cp_count < 1 {
        return Err(make_malformed(MalformedKind::BadCount));
    }
    let ghost slots0 = (spec_u16(s, 8) - 1) as nat;
    let ghost cp_call0 = spec_parse_cp(s, 10, slots0, seq![SpecCpItem::Other]);

    let mut cp: Vec<CpEntry> = Vec::new();
    cp.push(CpEntry::Other);
    let mut pos: usize = 10;
    let mut slots: u32 = cp_count as u32 - 1;
    proof {
        assert(cp.deep_view() =~= seq![SpecCpItem::Other]);
    }
    while slots > 0
        invariant
            s == data@,
            pos <= s.len(),
            s.len() >= 10,
            cp_call0 == spec_parse_cp(s, pos as int, slots as nat, cp.deep_view()),
        decreases slots,
    {
        let ghost acc = cp.deep_view();
        if pos >= data.len() {
            return Err(make_malformed(MalformedKind::Truncated));
        }
        let tag = data[pos];
        if tag == 1 {
            let tlen: u16 = match read_u16(data, pos + 1) {
                Some(v) => v,
                None => {
                    return Err(make_malformed(MalformedKind::Truncated));
                },
            };
            let tlen_us = tlen as usize;
            if tlen_us > data.len() - (pos + 3) {
                return Err(make_malformed(MalformedKind::Truncated));
            }
            let bytes = vstd::slice::slice_subrange(data, pos + 3, pos + 3 + tlen_us);
            let bvec = vstd::slice::slice_to_vec(bytes);
            proof {
                assert(bvec@ == s.subrange(pos + 3, pos + 3 + spec_u16(s, pos + 1)));
            }
            let text = match bytes_to_string(bvec) {
                Some(t) => t,
                None => {
                    return Err(make_malformed(MalformedKind::BadUtf8));
                },
            };
            cp.push(CpEntry::Utf8(text));
            proof {
                assert(cp.deep_view() =~= acc.push(
                    SpecCpItem::Utf8(decode_utf8(s.subrange(pos + 3, pos + 3 + spec_u16(s, pos + 1)))),
                ));
            }
            pos = pos + 3 + tlen_us;
            slots = slots - 1;
        } else if tag == 7 {
            let idx: u16 = match read_u16(data, pos + 1) {
                Some(v) => v,
                None => {
                    return Err(make_malformed(MalformedKind::Truncated));
                },
            };
            cp.push(CpEntry::ClassRef(idx));
            proof {
                assert(cp.deep_view() =~= acc.push(SpecCpItem::ClassRef(spec_u16(s, pos + 1))));
            }
            pos = pos + 3;
            slots = slots - 1;
        } else if tag == 5 || tag == 6 {
            if data.len() - pos < 9 {
                return Err(make_malformed(MalformedKind::Truncated));
            }
            if slots == 1 {
                return Err(make_malformed(MalformedKind::BadCount));
            }
            cp.push(CpEntry::Other);
            cp.push(CpEntry::Other);
            proof {
                assert(cp.deep_view() =~= acc.push(SpecCpItem::Other).push(SpecCpItem::Other));
            }
            pos = pos + 9;
            slots = slots - 2;
        } else {
            let k: usize = match tag_body_size(tag) {
                Some(k) => k,
                None => {
                    return Err(make_malformed(MalformedKind::UnknownTag));
                },
            };
            if k > data.len() - (pos + 1) {
                return Err(make_malformed(MalformedKind::Truncated));
            }
            cp.push(CpEntry::Other);
            proof {
                assert(cp.deep_view() =~= acc.push(SpecCpItem::Other));
            }
            pos = pos + 1 + k;
            slots = slots - 1;
        }
    }
    let ghost cpv = cp.deep_view();
    let ghost pos_cp = pos as int;
    proof {
        assert(cp_call0 == Result::<(Seq<SpecCpItem>, int), MalformedKind>::Ok((cpv, pos_cp)));
    }
    // access flags, this/super class, interface count: 8 bytes
    if data.len() - pos < 8 {
        return Err(make_malformed(MalformedKind::Truncated));
    }
    let this_idx: u16 = match read_u16(data, pos + 2) {
        Some(v) => v,
        None => {
            proof {
                assert(false);
            }
            return Err(make_malformed(MalformedKind::Truncated));
        },
    };
    let super_idx: u16 = match read_u16(data, pos + 4) {
        Some(v) => v,
        None => {
            proof {
                assert(false);
            }
            return Err(make_malformed(MalformedKind::Truncated));
        },
    };
    let icount: u16 = match read_u16(data, pos + 6) {
        Some(v) => v,
        None => {
            proof {
                assert(false);
            }
            return Err(make_malformed(MalformedKind::Truncated));
        },
    };
    let class_name: String = match cp_class_name(&cp, this_idx as usize) {
        Some(n) => n,
        None => {
            return Err(make_malformed(MalformedKind::BadIndex));
        },
    };
    let superclass_name: String = if super_idx == 0 {
        String::new()
    } else {
        match cp_class_name(&cp, super_idx as usize) {
            Some(n) => n,
            None => {
                return Err(make_malformed(MalformedKind::BadIndex));
            },
        }
    };

    // interface table
    let ghost if_call0 = spec_parse_interfaces(s, cpv, pos + 8, icount as nat, Seq::empty());
    let mut interfaces: Vec<String> = Vec::new();
    let mut ipos: usize = pos + 8;
    let mut ileft: u16 = icount;
    proof {
        assert(interfaces.deep_view() =~= Seq::<Seq<char>>::empty());
    }
    while ileft > 0
        invariant
            s == data@,
            ipos <= s.len(),
            if_call0 == spec_parse_interfaces(s, cpv, ipos as int, ileft as nat, interfaces.deep_view()),
            cpv == cp.deep_view(),
        decreases ileft,
    {
        let ghost acc = interfaces.deep_view();
        let idx: u16 = match read_u16(data, ipos) {
            Some(v) => v,
            None => {
                return Err(make_malformed(MalformedKind::Truncated));
            },
        };
        let name = match cp_class_name(&cp, idx as usize) {
            Some(n) => n,
            None => {
                return Err(make_malformed(MalformedKind::BadIndex));
            },
        };
        interfaces.push(name);
        proof {
            assert(interfaces.deep_view() =~= acc.push(interfaces.deep_view().last()));
        }
        ipos = ipos + 2;
        ileft = ileft - 1;
    }
    let ghost if_done = interfaces.deep_view();
    let ghost pos_if = ipos as int;
    proof {
        assert(if_call0 == Result::<(Seq<Seq<char>>, int), MalformedKind>::Ok((if_done, pos_if)));
    }

    // field table
    let fields = match parse_members(data, &cp, &mut ipos) {
        Ok(v) => v,
        Err(e) => {
            return Err(e);
        },
    };
    let ghost fields_done = fields.deep_view();
    let ghost pos_f = ipos as int;

    // method table
    let methods = match parse_members(data, &cp, &mut ipos) {
        Ok(v) => v,
        Err(e) => {
            return Err(e);
        },
    };
    let ghost methods_done = methods.deep_view();

    let strings = collect_strings(&cp);

    let details = ClassDetails {
        class_name,
        superclass_name,
        interfaces,
        fields,
        methods,
        strings,
    };
    proof {
        assert(details@ == spec_parse_class(s)->Ok_0);
    }
    Ok(details)
}

/// What one member-table walk promises: on success the table starting
/// at `old(pos)` holds `r`'s names and `pos` lands after it; on failure
/// the specification fails the same way.
spec fn members_post(
    r: Result<Vec<String>, ParseError>,
    s: Seq<u8>,
    cpv: Seq<SpecCpItem>,
    pos0: int,
    pos1: int,
) -> bool {
    let call = if pos0 + 2 > s.len() {
        Result::Err(MalformedKind::Truncated)
    } else {
        spec_parse_members(s, cpv, pos0 + 2, spec_u16(s, pos0) as nat, Seq::empty())
    };
    match call {
        Result::Ok((names, p)) => r matches Result::Ok(v) && v.deep_view() == names && pos1 == p,
        Result::Err(k) => r matches Result::Err(ParseError::Malformed { reason }) && reason@
            == malformed_reason(k),
    }
}

/// Walk one member table (fields or methods): a 16-bit count, then per
/// member its access flags, name, descriptor and skipped attributes.
#[verifier::loop_isolation(false)]
fn parse_members(data: &[u8], cp: &Vec<CpEntry>, pos: &mut usize) -> (r: Result<
    Vec<String>,
    ParseError,
>)
    requires
        *old(pos) <= data@.len(),
    ensures
        members_post(r, data@, cp.deep_view(), *old(pos) as int, *final(pos) as int),
        r is Ok ==> *final(pos) <= data@.len(),
{
    let ghost s = data@;
    let ghost cpv = cp.deep_view();
    let ghost pos0 = *pos as int;
    let dlen = data.len();
    let count: u16 = match read_u16(data, *pos) {
        Some(v) => v,
        None => {
            return Err(make_malformed(MalformedKind::Truncated));
        },
    };
    let ghost call0 = spec_parse_members(s, cpv, pos0 + 2, count as nat, Seq::empty());
    let mut names: Vec<String> = Vec::new();
    let mut p: usize = *pos + 2;
    let mut left: u16 = count;
    proof {
        assert(names.deep_view() =~= Seq::<Seq<char>>::empty());
    }
    while left > 0
        invariant
            s == data@,
            p <= s.len(),
            cpv == cp.deep_view(),
            call0 == spec_parse_members(s, cpv, p as int, left as nat, names.deep_view()),
        decreases left,
    {
        let ghost acc = names.deep_view();
        if data.len() - p < 8 {
            return Err(make_malformed(MalformedKind::Truncated));
        }
        let name_idx: u16 = match read_u16(data, p + 2) {
            Some(v) => v,
            None => {
                proof {
                    assert(false);
                }
                return Err(make_malformed(MalformedKind::Truncated));
            },
        };
        let name: String = match cp_utf8(cp, name_idx as usize) {
            Some(n) => n.clone(),
            None => {
                return Err(make_malformed(MalformedKind::BadIndex));
            },
        };
        let attr_n: u16 = match read_u16(data, p + 6) {
            Some(v) => v,
            None => {
                proof {
                    assert(false);
                }
                return Err(make_malformed(MalformedKind::Truncated));
            },
        };
        // skip the attributes of this member
        let ghost skip_call0 = spec_skip_attrs(s, p + 8, attr_n as nat);
        let mut apos: usize = p + 8;
        let mut aleft: u16 = attr_n;
        while aleft > 0
            invariant
                s == data@,
                apos <= s.len(),
                skip_call0 == spec_skip_attrs(s, apos as int, aleft as nat),
            decreases aleft,
        {
            if data.len() - apos < 6 {
                return Err(make_malformed(MalformedKind::Truncated));
            }
            let alen: u32 = match read_u32(data, apos + 2) {
                Some(v) => v,
                None => {
                    proof {
                        assert(false);
                    }
                    return Err(make_malformed(MalformedKind::Truncated));
                },
            };
            let alen_us = alen as usize;
            if alen_us > data.len() - (apos + 6) {
                return Err(make_malformed(MalformedKind::Truncated));
            }
            apos = apos + 6 + alen_us;
            aleft = aleft - 1;
        }
        proof {
            assert(skip_call0 == Result::<int, MalformedKind>::Ok(apos as int));
        }
        names.push(name);
        proof {
            assert(names.deep_view() =~= acc.push(names.deep_view().last()));
        }
        p = apos;
        left = left - 1;
    }
    proof {
        assert(call0 == Result::<(Seq<Seq<char>>, int), MalformedKind>::Ok(
            (names.deep_view(), p as int),
        ));
    }
    *pos = p;
    Ok(names)
}

} // verus!
