//! SCTP debug object counters shown through a seq file: one line per
//! counter, "label: count".
use vstd::prelude::*;

use crate::decimal::{decimal, push_decimal};

verus! {

pub const SCTP_DBG_OBJCNT_COUNT: usize = 10;

/// The label of counter `i`.
pub open spec fn objcnt_label(i: int) -> &'static str {
    if i == 0 {
        "sock"
    } else if i == 1 {
        "ep"
    } else if i == 2 {
        "assoc"
    } else if i == 3 {
        "transport"
    } else if i == 4 {
        "chunk"
    } else if i == 5 {
        "bind_addr"
    } else if i == 6 {
        "bind_bucket"
    } else if i == 7 {
        "addr"
    } else if i == 8 {
        "datamsg"
    } else {
        "keys"
    }
}

fn label(i: usize) -> (r: &'static str)
    requires
        i < 10,
    ensures
        r == objcnt_label(i as int),
{
    if i == 0 {
        "sock"
    } else if i == 1 {
        "ep"
    } else if i == 2 {
        "assoc"
    } else if i == 3 {
        "transport"
    } else if i == 4 {
        "chunk"
    } else if i == 5 {
        "bind_addr"
    } else if i == 6 {
        "bind_bucket"
    } else if i == 7 {
        "addr"
    } else if i == 8 {
        "datamsg"
    } else {
        "keys"
    }
}

/// `n` in decimal, with a minus sign when negative.
pub open spec fn decimal_i32(n: i32) -> Seq<char> {
    if n < 0 {
        seq!['-'] + decimal((-n) as nat)
    } else {
        decimal(n as nat)
    }
}

/// The line for counter `index`: its label, ": ", its count (zero when
/// `counters` has none for it) in decimal, and a newline; `None` past the
/// last counter.
pub fn sctp_objcnt_seq_show(index: usize, counters: &[i32]) -> (r: Option<String>)
    ensures
        index >= SCTP_DBG_OBJCNT_COUNT ==> r is None,
        index < SCTP_DBG_OBJCNT_COUNT ==> (r matches Some(s) && s@ == objcnt_label(index as int)@ + seq![':', ' ']
            + decimal_i32(if index < counters@.len() { counters@[index as int] } else { 0 }) + seq!['\n']),
{
    if index >= SCTP_DBG_OBJCNT_COUNT {
        return None;
    }
    let count: i32 = if index < counters.len() { counters[index] } else { 0 };
    let mut s = String::from_str(label(index));
    proof {
        reveal_strlit(": ");
        reveal_strlit("-");
        reveal_strlit("\n");
    }
    s.append(": ");
    if count < 0 {
        s.append("-");
        let magnitude: u32 = if count == i32::MIN { 2147483648u32 } else { (-count) as u32 };
        push_decimal(&mut s, magnitude as u64);
    } else {
        push_decimal(&mut s, count as u64);
    }
    s.append("\n");
    Some(s)
}

/// The first position of a walk from `pos`: `pos` itself while it names a
/// counter, else the end.
pub fn sctp_objcnt_seq_start(pos: usize) -> (r: Option<usize>)
    ensures
        r == if pos >= SCTP_DBG_OBJCNT_COUNT { None } else { Some(pos) },
{
    if pos >= SCTP_DBG_OBJCNT_COUNT {
        None
    } else {
        Some(pos)
    }
}

/// Advances the walk: the next position, or the end.
pub fn sctp_objcnt_seq_next(pos: &mut usize) -> (r: Option<usize>)
    requires
        *old(pos) < usize::MAX,
    ensures
        *final(pos) == *old(pos) + 1,
        r == if *final(pos) >= SCTP_DBG_OBJCNT_COUNT { None } else { Some(*final(pos)) },
{
    *pos = *pos + 1;
    sctp_objcnt_seq_start(*pos)
}

/// Creating the proc entry: whether it succeeded.
pub fn sctp_dbg_objcnt_init(proc_create_ok: bool) -> (r: bool)
    ensures
        r == proc_create_ok,
{
    proc_create_ok
}

} // verus!
