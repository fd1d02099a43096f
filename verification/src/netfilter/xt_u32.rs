//! Xtables u32 match: reads 32-bit network-order words at computed packet
//! offsets and compares them against value ranges.
use vstd::prelude::*;

use crate::bytes::be32_at;
use crate::errno::EINVAL;

verus! {

pub const MODULE_AUTHOR: &'static str = "Jan Engelhardt <jengelh@medozas.de>";
pub const MODULE_DESCRIPTION: &'static str = "Xtables: arbitrary byte matching";
pub const MODULE_LICENSE: &'static str = "GPL";
pub const XT_U32_MAXSIZE: usize = 10;
pub const XT_U32_ARRAY_LEN: usize = 11;
pub const NFPROTO_UNSPEC: u8 = 0;
pub const XT_U32_AND: u8 = 0;
pub const XT_U32_LEFTSH: u8 = 1;
pub const XT_U32_RIGHTSH: u8 = 2;
pub const XT_U32_AT: u8 = 3;

/// One step of the location computation.
#[derive(Clone, Copy, Debug, Default, PartialEq, Eq)]
pub struct XtU32LocationElement {
    pub number: u32,
    pub nextop: u8,
}

/// One accepted value range.
#[derive(Clone, Copy, Debug, Default, PartialEq, Eq)]
pub struct XtU32ValueElement {
    pub min: u32,
    pub max: u32,
}

/// One test: a location computation and the ranges its value may fall in.
#[derive(Clone, Copy, Debug, PartialEq, Eq)]
pub struct XtU32Test {
    pub location: [XtU32LocationElement; 11],
    pub value: [XtU32ValueElement; 11],
    pub nnums: u8,
    pub nvalues: u8,
}

/// A rule: all tests must pass; `invert` flips the verdict.
#[derive(Clone, Copy, Debug, PartialEq, Eq)]
pub struct XtU32 {
    pub tests: [XtU32Test; 11],
    pub ntests: u8,
    pub invert: u8,
}

/// Registration record of the match.
#[derive(Clone, Copy, Debug, PartialEq, Eq)]
pub struct XtMatch {
    pub name: &'static str,
    pub revision: u8,
    pub family: u8,
    pub matchsize: usize,
    pub match_fn: &'static str,
    pub checkentry: &'static str,
}

impl Default for XtU32Test {
    fn default() -> (r: Self)
        ensures
            r.nnums == 0 && r.nvalues == 0,
            forall|i: int| 0 <= i < 11 ==> r.location[i] == (XtU32LocationElement { number: 0, nextop: 0 }),
            forall|i: int| 0 <= i < 11 ==> r.value[i] == (XtU32ValueElement { min: 0, max: 0 }),
    {
        XtU32Test {
            location: [XtU32LocationElement { number: 0, nextop: 0 }; 11],
            value: [XtU32ValueElement { min: 0, max: 0 }; 11],
            nnums: 0,
            nvalues: 0,
        }
    }
}

impl Default for XtU32 {
    fn default() -> (r: Self)
        ensures
            r.ntests == 0 && r.invert == 0,
            forall|i: int| 0 <= i < 11 ==> r.tests[i].nnums == 0 && r.tests[i].nvalues == 0,
    {
        let t = XtU32Test::default();
        XtU32 { tests: [t; 11], ntests: 0, invert: 0 }
    }
}

/// The rule is accepted by `u32_mt_checkentry`.
pub open spec fn u32_entry_valid(data: XtU32) -> bool {
    &&& data.ntests <= XT_U32_ARRAY_LEN
    &&& forall|i: int| 0 <= i < data.ntests ==> #[trigger] data.tests[i].nnums <= XT_U32_ARRAY_LEN && data.tests[i].nvalues <= XT_U32_ARRAY_LEN
}

/// The value of a test after applying location steps `i..nnums` to the
/// running value `val` with base offset `at`; `None` when a step would read
/// outside the packet or overflow.
pub open spec fn u32_walk(ct: XtU32Test, skb: Seq<u8>, i: int, at: u32, val: u32) -> Option<u32>
    decreases (if i < ct.nnums { ct.nnums - i } else { 0 }),
{
    if i >= ct.nnums || i < 0 || i >= 11 {
        Some(val)
    } else {
        let number = ct.location[i].number;
        let op = ct.location[i].nextop;
        if op == XT_U32_AND {
            u32_walk(ct, skb, i + 1, at, val & number)
        } else if op == XT_U32_LEFTSH {
            u32_walk(ct, skb, i + 1, at, val.wrapping_shl(number))
        } else if op == XT_U32_RIGHTSH {
            u32_walk(ct, skb, i + 1, at, val.wrapping_shr(number))
        } else if op == XT_U32_AT {
            let at2 = at + val;
            if at2 > u32::MAX || at2 + 4 > u32::MAX || skb.len() < at2 + 4 || number > skb.len() - at2 - 4 {
                None
            } else {
                u32_walk(ct, skb, i + 1, at2 as u32, be32_at(skb, at2 + number))
            }
        } else {
            u32_walk(ct, skb, i + 1, at, val)
        }
    }
}

/// The computed value of a test, `None` when it cannot be computed.
pub open spec fn u32_test_value(ct: XtU32Test, skb: Seq<u8>) -> Option<u32> {
    let pos = ct.location[0].number;
    if skb.len() < 4 || pos > skb.len() - 4 {
        None
    } else {
        u32_walk(ct, skb, 1, 0, be32_at(skb, pos as int))
    }
}

/// The test passes: its value lies in one of its ranges.
pub open spec fn u32_test_passes(ct: XtU32Test, skb: Seq<u8>) -> bool {
    match u32_test_value(ct, skb) {
        None => false,
        Some(v) => exists|j: int| 0 <= j < ct.nvalues && #[trigger] ct.value[j].min <= v && v <= ct.value[j].max,
    }
}

/// All tests of the rule pass.
pub open spec fn u32_all_pass(data: XtU32, skb: Seq<u8>) -> bool {
    forall|t: int| 0 <= t < data.ntests ==> u32_test_passes(#[trigger] data.tests[t], skb)
}

fn read_be32(bytes: &[u8], offset: usize) -> (r: u32)
    requires
        offset + 4 <= bytes@.len(),
    ensures
        r == be32_at(bytes@, offset as int),
{
    crate::bytes::read_be32(bytes, offset)
}

fn u32_test_value_exec(ct: &XtU32Test, skb: &[u8]) -> (r: Option<u32>)
    requires
        ct.nnums <= XT_U32_ARRAY_LEN,
    ensures
        r == u32_test_value(*ct, skb@),
{
    let mut at: u32 = 0;
    let pos0 = ct.location[0].number;
    if skb.len() < 4 || pos0 as usize > skb.len() - 4 {
        return None;
    }
    let mut val = read_be32(skb, pos0 as usize);
    let nnums = ct.nnums as usize;
    let mut i: usize = 1;
    while i < nnums
        invariant
            1 <= i,
            nnums == ct.nnums,
            nnums <= 11,
            skb@.len() == skb.len(),
            u32_walk(*ct, skb@, i as int, at, val) == u32_test_value(*ct, skb@),
        decreases nnums - i,
    {
        let number = ct.location[i].number;
        let op = ct.location[i].nextop;
        if op == XT_U32_AND {
            val = val & number;
        } else if op == XT_U32_LEFTSH {
            val = val.wrapping_shl(number);
        } else if op == XT_U32_RIGHTSH {
            val = val.wrapping_shr(number);
        } else if op == XT_U32_AT {
            if at.wrapping_add(val) < at {
                return None;
            }
            at = at + val;
            if at.wrapping_add(4) < at || skb.len() < at as usize + 4 || number as usize > skb.len() - at as usize - 4 {
                return None;
            }
            val = read_be32(skb, at as usize + number as usize);
        }
        i += 1;
    }
    Some(val)
}

fn value_in_ranges(ct: &XtU32Test, val: u32) -> (r: bool)
    requires
        ct.nvalues <= XT_U32_ARRAY_LEN,
    ensures
        r == exists|j: int| 0 <= j < ct.nvalues && #[trigger] ct.value[j].min <= val && val <= ct.value[j].max,
{
    let mut i: usize = 0;
    while i < ct.nvalues as usize
        invariant
            ct.nvalues <= 11,
            i <= ct.nvalues,
            forall|j: int| 0 <= j < i ==> !(#[trigger] ct.value[j].min <= val && val <= ct.value[j].max),
        decreases ct.nvalues - i,
    {
        let range = ct.value[i];
        if range.min <= val && val <= range.max {
            return true;
        }
        i += 1;
    }
    false
}

/// Whether every test of the rule passes on the packet.
pub fn u32_match_it(data: &XtU32, skb: &[u8]) -> (r: bool)
    requires
        u32_entry_valid(*data),
    ensures
        r == u32_all_pass(*data, skb@),
{
    let mut testind: usize = 0;
    while testind < data.ntests as usize
        invariant
            u32_entry_valid(*data),
            testind <= data.ntests,
            forall|t: int| 0 <= t < testind ==> u32_test_passes(#[trigger] data.tests[t], skb@),
        decreases data.ntests - testind,
    {
        let ct = &data.tests[testind];
        let value = u32_test_value_exec(ct, skb);
        match value {
            None => {
                assert(!u32_test_passes(data.tests[testind as int], skb@));
                return false;
            },
            Some(val) => {
                if !value_in_ranges(ct, val) {
                    return false;
                }
            },
        }
        testind += 1;
    }
    true
}

/// The match verdict, flipped by the invert byte.
pub fn u32_mt(skb: &[u8], data: &XtU32) -> (r: bool)
    requires
        u32_entry_valid(*data),
    ensures
        r == (((if u32_all_pass(*data, skb@) { 1u8 } else { 0u8 }) ^ data.invert) != 0),
{
    let m: u8 = if u32_match_it(data, skb) {
        1
    } else {
        0
    };
    (m ^ data.invert) != 0
}

/// Rejects rules with more tests, steps or ranges than the arrays hold.
pub fn u32_mt_checkentry(data: &XtU32) -> (r: Result<(), i32>)
    ensures
        r is Ok <==> u32_entry_valid(*data),
        r is Err ==> r == Err::<(), i32>((-EINVAL) as i32),
{
    if data.ntests as usize > XT_U32_ARRAY_LEN {
        return Err(-EINVAL);
    }
    let mut i: usize = 0;
    while i < data.ntests as usize
        invariant
            data.ntests <= XT_U32_ARRAY_LEN,
            i <= data.ntests,
            forall|t: int| 0 <= t < i ==> #[trigger] data.tests[t].nnums <= XT_U32_ARRAY_LEN && data.tests[t].nvalues <= XT_U32_ARRAY_LEN,
        decreases data.ntests - i,
    {
        let ct = &data.tests[i];
        if ct.nnums as usize > XT_U32_ARRAY_LEN || ct.nvalues as usize > XT_U32_ARRAY_LEN {
            return Err(-EINVAL);
        }
        i += 1;
    }
    Ok(())
}

/// The match registration record.
pub fn u32_mt_init() -> (r: XtMatch)
    ensures
        r.name == "u32" && r.revision == 0 && r.family == NFPROTO_UNSPEC,
        r.matchsize == vstd::layout::size_of::<XtU32>(),
        r.match_fn == "u32_mt" && r.checkentry == "u32_mt_checkentry",
{
    XtMatch {
        name: "u32",
        revision: 0,
        family: NFPROTO_UNSPEC,
        matchsize: core::mem::size_of::<XtU32>(),
        match_fn: "u32_mt",
        checkentry: "u32_mt_checkentry",
    }
}

} // verus!
