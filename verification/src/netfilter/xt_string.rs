//! Xtables string match: searches a window of the packet for a byte pattern.
use vstd::prelude::*;

use crate::errno::EINVAL;

verus! {

pub const MODULE_AUTHOR: &'static str = "Pablo Neira Ayuso <pablo@eurodev.net>";
pub const MODULE_DESCRIPTION: &'static str = "Xtables: string-based matching";
pub const MODULE_LICENSE: &'static str = "GPL";
pub const XT_STRING_MAX_PATTERN_SIZE: usize = 128;
pub const XT_STRING_MAX_ALGO_NAME_SIZE: usize = 16;
pub const XT_STRING_FLAG_INVERT: u8 = 0x01;
pub const XT_STRING_FLAG_IGNORECASE: u8 = 0x02;
pub const TS_AUTOLOAD: u32 = 0x1;
pub const TS_IGNORECASE: u32 = 0x2;
pub const NFPROTO_UNSPEC: u8 = 0;

/// Match configuration as userspace hands it to the kernel.
#[derive(Clone, Debug, PartialEq, Eq)]
pub struct XtStringInfo {
    pub from_offset: usize,
    pub to_offset: usize,
    pub algo: [u8; 16],
    pub pattern: Vec<u8>,
    pub flags: u8,
    pub config_prepared: bool,
}

/// Registration record of an xtables match.
#[derive(Clone, Copy, Debug, PartialEq, Eq)]
pub struct XtMatch {
    pub name: &'static str,
    pub revision: u8,
    pub family: u8,
    pub matchsize: usize,
}

/// ASCII lower-casing of one byte.
pub open spec fn ascii_lower(b: u8) -> u8 {
    if 65 <= b <= 90 {
        (b + 32) as u8
    } else {
        b
    }
}

/// Byte comparison, case-insensitive for ASCII letters when asked.
pub open spec fn byte_match(a: u8, b: u8, ignorecase: bool) -> bool {
    if ignorecase {
        ascii_lower(a) == ascii_lower(b)
    } else {
        a == b
    }
}

/// The pattern occurs in `data` at `start`.
pub open spec fn window_matches(data: Seq<u8>, start: int, pattern: Seq<u8>, ignorecase: bool) -> bool {
    forall|i: int| 0 <= i < pattern.len() ==> byte_match(#[trigger] data[start + i], pattern[i], ignorecase)
}

/// End of the searched window: `to` clipped to the packet length.
pub open spec fn search_end(len: int, to: int) -> int {
    if to < len {
        to
    } else {
        len
    }
}

/// The searched window is well formed and can hold the pattern.
pub open spec fn search_possible(data: Seq<u8>, from: int, to: int, pattern: Seq<u8>) -> bool {
    &&& pattern.len() > 0
    &&& from <= data.len()
    &&& from <= search_end(data.len() as int, to)
    &&& search_end(data.len() as int, to) - from >= pattern.len()
}

/// A start position of the pattern that lies inside the searched window.
pub open spec fn match_in_window(data: Seq<u8>, from: int, to: int, pattern: Seq<u8>, ignorecase: bool, k: int) -> bool {
    &&& from <= k <= search_end(data.len() as int, to) - pattern.len()
    &&& window_matches(data, k, pattern, ignorecase)
}

/// The pattern occurs somewhere inside the searched window.
pub open spec fn text_found(data: Seq<u8>, from: int, to: int, pattern: Seq<u8>, ignorecase: bool) -> bool {
    &&& search_possible(data, from, to, pattern)
    &&& exists|k: int| match_in_window(data, from, to, pattern, ignorecase, k)
}

fn ascii_lower_exec(b: u8) -> (r: u8)
    ensures
        r == ascii_lower(b),
{
    if b >= 65 && b <= 90 {
        b + 32
    } else {
        b
    }
}

/// Compares `right` with the bytes of `left` that start at `start`.
fn bytes_eq(left: &[u8], start: usize, right: &[u8], ignorecase: bool) -> (r: bool)
    requires
        start + right@.len() <= left@.len(),
    ensures
        r == window_matches(left@, start as int, right@, ignorecase),
{
    let mut i: usize = 0;
    while i < right.len()
        invariant
            i <= right@.len(),
            start + right@.len() <= left@.len(),
            left@.len() == left.len(),
            forall|j: int| 0 <= j < i ==> byte_match(#[trigger] left@[start + j], right@[j], ignorecase),
        decreases right@.len() - i,
    {
        let a = left[start + i];
        let b = right[i];
        let same = if ignorecase {
            ascii_lower_exec(a) == ascii_lower_exec(b)
        } else {
            a == b
        };
        if !same {
            assert(!byte_match(left@[start + i as int], right@[i as int], ignorecase));
            return false;
        }
        i += 1;
    }
    true
}

/// First start position of `pattern` in the window `[from_offset, to_offset)`
/// of `skb`, clipped to the packet.
fn find_text(skb: &[u8], from_offset: usize, to_offset: usize, pattern: &[u8], ignorecase: bool) -> (r: Option<usize>)
    ensures
        match r {
            Some(k) => {
                &&& search_possible(skb@, from_offset as int, to_offset as int, pattern@)
                &&& match_in_window(skb@, from_offset as int, to_offset as int, pattern@, ignorecase, k as int)
                &&& forall|j: int| from_offset <= j < k ==> !window_matches(skb@, j, pattern@, ignorecase)
            },
            None => !text_found(skb@, from_offset as int, to_offset as int, pattern@, ignorecase),
        },
{
    if pattern.len() == 0 || from_offset > skb.len() {
        return None;
    }
    let end = if to_offset < skb.len() {
        to_offset
    } else {
        skb.len()
    };
    if end < from_offset || end - from_offset < pattern.len() {
        return None;
    }
    let last = end - pattern.len();
    let mut k = from_offset;
    while k <= last
        invariant
            from_offset <= k <= last + 1,
            last == search_end(skb@.len() as int, to_offset as int) - pattern@.len(),
            search_possible(skb@, from_offset as int, to_offset as int, pattern@),
            forall|j: int| from_offset <= j < k ==> !window_matches(skb@, j, pattern@, ignorecase),
        decreases last + 1 - k,
    {
        if bytes_eq(skb, k, pattern, ignorecase) {
            return Some(k);
        }
        k += 1;
    }
    None
}

/// Whether the pattern occurs in the window, negated when the rule is inverted.
pub fn string_mt(skb: &[u8], conf: &XtStringInfo) -> (r: bool)
    ensures
        r == (text_found(
            skb@,
            conf.from_offset as int,
            conf.to_offset as int,
            conf.pattern@,
            conf.flags & XT_STRING_FLAG_IGNORECASE != 0,
        ) != (conf.flags & XT_STRING_FLAG_INVERT != 0)),
{
    let found = find_text(
        skb,
        conf.from_offset,
        conf.to_offset,
        conf.pattern.as_slice(),
        conf.flags & XT_STRING_FLAG_IGNORECASE != 0,
    );
    found.is_some() != (conf.flags & XT_STRING_FLAG_INVERT != 0)
}

/// The configuration is rejected by `string_mt_check`.
pub open spec fn string_conf_invalid(conf: XtStringInfo, textsearch_prepare_ok: bool) -> bool {
    ||| conf.from_offset > conf.to_offset
    ||| conf.algo[15] != 0
    ||| conf.pattern@.len() > XT_STRING_MAX_PATTERN_SIZE
    ||| conf.flags & !(XT_STRING_FLAG_IGNORECASE | XT_STRING_FLAG_INVERT) != 0
    ||| !textsearch_prepare_ok
}

/// The text-search flags a valid rule is prepared with.
pub open spec fn string_search_flags(flags: u8) -> u32 {
    if flags & XT_STRING_FLAG_IGNORECASE != 0 {
        TS_AUTOLOAD | TS_IGNORECASE
    } else {
        TS_AUTOLOAD
    }
}

/// Validates a rule and prepares its text search; returns the search flags.
pub fn string_mt_check(conf: &mut XtStringInfo, textsearch_prepare_ok: bool) -> (r: Result<u32, i32>)
    ensures
        string_conf_invalid(*old(conf), textsearch_prepare_ok) ==> r == Err::<u32, i32>((-EINVAL) as i32),
        string_conf_invalid(*old(conf), textsearch_prepare_ok) ==> *final(conf) == *old(conf),
        !string_conf_invalid(*old(conf), textsearch_prepare_ok) ==> r == Ok::<u32, i32>(string_search_flags(old(conf).flags)),
        !string_conf_invalid(*old(conf), textsearch_prepare_ok) ==> *final(conf) == (XtStringInfo { config_prepared: true, ..*old(conf) }),
{
    if conf.from_offset > conf.to_offset {
        return Err(-EINVAL);
    }
    if conf.algo[XT_STRING_MAX_ALGO_NAME_SIZE - 1] != 0 {
        return Err(-EINVAL);
    }
    if conf.pattern.len() > XT_STRING_MAX_PATTERN_SIZE {
        return Err(-EINVAL);
    }
    if conf.flags & !(XT_STRING_FLAG_IGNORECASE | XT_STRING_FLAG_INVERT) != 0 {
        return Err(-EINVAL);
    }
    if !textsearch_prepare_ok {
        return Err(-EINVAL);
    }
    conf.config_prepared = true;
    let mut flags = TS_AUTOLOAD;
    if conf.flags & XT_STRING_FLAG_IGNORECASE != 0 {
        flags |= TS_IGNORECASE;
    }
    Ok(flags)
}

/// Releases the prepared text search.
pub fn string_mt_destroy(conf: &mut XtStringInfo)
    ensures
        *final(conf) == (XtStringInfo { config_prepared: false, ..*old(conf) }),
{
    conf.config_prepared = false;
}

/// The match registration record.
pub fn string_mt_init() -> (r: XtMatch)
    ensures
        r.name == "string",
        r.revision == 1,
        r.family == NFPROTO_UNSPEC,
        r.matchsize == vstd::layout::size_of::<XtStringInfo>(),
{
    XtMatch {
        name: "string",
        revision: 1,
        family: NFPROTO_UNSPEC,
        matchsize: core::mem::size_of::<XtStringInfo>(),
    }
}

} // verus!
