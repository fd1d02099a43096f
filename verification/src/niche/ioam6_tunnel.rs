//! IOAM6 lightweight tunnel: validating the trace header and tunnel
//! attributes, building the per-route state, filling trace data from the
//! namespace tables and inserting the IOAM Hop-by-Hop option into packets.
use vstd::prelude::*;

use crate::bytes::{be16_bytes, be32_bytes, be64_bytes};
use crate::errno::{EINVAL, ENOENT, ENOMEM};
use crate::ip::{build_ipv6_packet, ipv6_packet_bytes, parse_ipv6_packet, parse_ipv6_spec, push_bytes};
use crate::niche::ioam6::{
    lemma_ns_get, lemma_sc_get, ns_get, ns_has, ns_locate, sc_get, sc_has, sc_locate, sc_same, schema_copy, Ioam6Namespace,
    Ioam6Schema, Ioam6State, Ioam6TraceEvent, IOAM6_U32_UNAVAILABLE, IOAM6_U64_UNAVAILABLE,
};
use crate::niche::{addr_any, addr_is_any, append_padn, padn_bytes, AF_INET6, IPPROTO_HOPOPTS, LWTUNNEL_ENCAP_IOAM6};
use crate::skbuff::SkBuff;

verus! {

pub const IOAM6_GENL_EV_GRP_NAME: &'static str = "ioam6_events";
pub const IOAM6_EVENT_TRACE_FILLED: &'static str = "trace_filled";
pub const IOAM6_TRACE_DATA_SIZE_MAX: usize = 244;
pub const IOAM6_TYPE_PREALLOC: u8 = 0;
pub const IPV6_TLV_IOAM: u8 = 49;
pub const IOAM6_MASK_SHORT_FIELDS: u32 = 0xff1f_fc00;
pub const IOAM6_MASK_WIDE_FIELDS: u32 = 0x00e0_0000;
pub const IOAM6_TRACE_FORBIDDEN_LWT_BITS: u32 = 0x000f_fd00;
pub const IOAM6_IPTUNNEL_FREQ_MIN: u32 = 1;
pub const IOAM6_IPTUNNEL_FREQ_MAX: u32 = 1_000_000;
pub const IOAM6_IPTUNNEL_MODE_INLINE: u8 = 1;
pub const IOAM6_IPTUNNEL_MODE_ENCAP: u8 = 2;
pub const IOAM6_IPTUNNEL_MODE_AUTO: u8 = 3;
pub const IOAM6_HDR_LEN: usize = 4;
pub const IOAM6_TRACE_HDR_LEN: usize = 8;
pub const IOAM6_LWT_ENCAP_BASE_LEN: usize = 16;
pub const LWTUNNEL_STATE_OUTPUT_REDIRECT: u32 = 1;

/// The pre-allocated trace option header.
#[derive(Clone, Copy, Debug, Default, PartialEq, Eq)]
pub struct Ioam6TraceHeader {
    pub namespace_id: u16,
    pub nodelen: u8,
    pub remlen: u8,
    pub type_be32: u32,
}

/// The tunnel attributes as netlink delivers them (absent ones `None`).
#[derive(Clone, Copy, Debug, Default, PartialEq, Eq)]
pub struct Ioam6LwtunnelConfig {
    pub freq_k: Option<u32>,
    pub freq_n: Option<u32>,
    pub mode: Option<u8>,
    pub tunsrc: Option<[u8; 16]>,
    pub tundst: Option<[u8; 16]>,
    pub trace: Option<Ioam6TraceHeader>,
}

/// The per-route tunnel state built from validated attributes.
#[derive(Clone, Debug, PartialEq, Eq)]
pub struct Ioam6LwtunnelState {
    pub freq_k: u32,
    pub freq_n: u32,
    pub mode: u8,
    pub has_tunsrc: bool,
    pub tunsrc: Option<[u8; 16]>,
    pub tundst: Option<[u8; 16]>,
    pub trace: Ioam6TraceHeader,
    pub len_aligned: usize,
    pub hopopt_hdrlen: u8,
    pub ioam_opt_type: u8,
    pub ioam_type: u8,
    pub ioam_opt_len: u8,
    pub trace_padding: Vec<u8>,
    pub lwtunnel_type: u16,
    pub flags: u32,
}

/// Trace data filled for a payload, the frame carrying both, and the event.
#[derive(Clone, Debug, PartialEq, Eq)]
pub struct Ioam6LwtunnelOutput {
    pub namespace: Ioam6Namespace,
    pub schema: Option<Ioam6Schema>,
    pub trace_data: Vec<u8>,
    pub payload_offset: usize,
    pub frame: Vec<u8>,
    pub event: Ioam6TraceEvent,
}

/// A packet with the IOAM Hop-by-Hop option inserted.
pub struct Ioam6SkbOutput {
    pub skb: SkBuff,
    pub old_next_header: u8,
    pub hopopt_len: usize,
    pub event: Ioam6TraceEvent,
}

/// EINVAL unless the route is an AF_INET6 route with IOAM6 encapsulation.
pub fn validate_ioam6_lwtunnel(family: u16, encap: u16) -> (r: Result<(), i32>)
    ensures
        r == (if family == AF_INET6 && encap == LWTUNNEL_ENCAP_IOAM6 { Ok::<(), i32>(()) } else { Err(EINVAL) }),
{
    if family != AF_INET6 || encap != LWTUNNEL_ENCAP_IOAM6 {
        return Err(EINVAL);
    }
    Ok(())
}

/// The number of set bits among the low `n` bits of `x`.
pub open spec fn popcount(x: u32, n: nat) -> nat
    decreases n,
{
    if n == 0 {
        0
    } else {
        popcount(x, (n - 1) as nat) + ((x >> ((n - 1) as u32)) & 1u32) as nat
    }
}

fn count_ones32(x: u32) -> (r: u32)
    ensures
        r == popcount(x, 32),
        r <= 32,
{
    let mut acc: u32 = 0;
    let mut i: u32 = 0;
    while i < 32
        invariant
            i <= 32,
            acc == popcount(x, i as nat),
            acc <= i,
        decreases 32 - i,
    {
        let bit = (x >> i) & 1u32;
        assert(bit <= 1) by (bit_vector)
            requires
                bit == (x >> i) & 1u32,
        ;
        acc = acc + bit;
        i = i + 1;
    }
    acc
}

/// The trace node length in 4-octet units: one per short field and two
/// per wide field the trace type selects.
pub open spec fn ioam6_nodelen(trace_type: u32) -> nat {
    popcount(trace_type & IOAM6_MASK_SHORT_FIELDS, 32) + 2 * popcount(trace_type & IOAM6_MASK_WIDE_FIELDS, 32)
}

/// The node length for `trace_type`; see `ioam6_nodelen`.
pub fn ioam6_trace_compute_nodelen(trace_type: u32) -> (r: u8)
    ensures
        r == ioam6_nodelen(trace_type),
{
    let short = count_ones32(trace_type & IOAM6_MASK_SHORT_FIELDS);
    let wide = count_ones32(trace_type & IOAM6_MASK_WIDE_FIELDS);
    (short + wide * 2) as u8
}

/// Trace headers a tunnel accepts: a non-zero type without the bits the
/// tunnel cannot fill, and between 1 and 61 words of room.
pub open spec fn ioam6_trace_header_ok(t: Ioam6TraceHeader) -> bool {
    t.type_be32 != 0 && t.remlen != 0 && t.remlen as int <= IOAM6_TRACE_DATA_SIZE_MAX / 4
        && t.type_be32 & IOAM6_TRACE_FORBIDDEN_LWT_BITS == 0
}

/// Validates a trace header and fills in its node length; EINVAL otherwise.
pub fn ioam6_validate_trace_header(trace: Ioam6TraceHeader) -> (r: Result<Ioam6TraceHeader, i32>)
    ensures
        !ioam6_trace_header_ok(trace) ==> r == Err::<Ioam6TraceHeader, i32>(EINVAL),
        ioam6_trace_header_ok(trace) ==> r == Ok::<Ioam6TraceHeader, i32>(Ioam6TraceHeader {
            namespace_id: trace.namespace_id,
            nodelen: ioam6_nodelen(trace.type_be32) as u8,
            remlen: trace.remlen,
            type_be32: trace.type_be32,
        }),
{
    if trace.type_be32 == 0 || trace.remlen == 0 || trace.remlen as usize > IOAM6_TRACE_DATA_SIZE_MAX / 4
        || trace.type_be32 & IOAM6_TRACE_FORBIDDEN_LWT_BITS != 0 {
        return Err(EINVAL);
    }
    let mut t = trace;
    t.nodelen = ioam6_trace_compute_nodelen(trace.type_be32);
    Ok(t)
}

/// The tunnel mode: as given, inline by default.
pub open spec fn ioam6_config_mode(c: Ioam6LwtunnelConfig) -> u8 {
    match c.mode {
        Some(m) => m,
        None => IOAM6_IPTUNNEL_MODE_INLINE,
    }
}

/// Tunnel attributes the route builder accepts: AF_INET6; both sampling
/// frequencies or neither, each in 1..=1000000 with k <= n; a known mode;
/// no tunnel source in inline mode; a tunnel destination in the other
/// modes; no unspecified tunnel address; a valid trace header.
pub open spec fn ioam6_config_ok(family: u16, c: Ioam6LwtunnelConfig) -> bool {
    let mode = ioam6_config_mode(c);
    &&& family == AF_INET6
    &&& (c.freq_k is None) == (c.freq_n is None)
    &&& (c.freq_k matches Some(k) ==> (c.freq_n matches Some(n) && IOAM6_IPTUNNEL_FREQ_MIN <= k <= IOAM6_IPTUNNEL_FREQ_MAX
        && IOAM6_IPTUNNEL_FREQ_MIN <= n <= IOAM6_IPTUNNEL_FREQ_MAX && k <= n))
    &&& IOAM6_IPTUNNEL_MODE_INLINE <= mode <= IOAM6_IPTUNNEL_MODE_AUTO
    &&& !(c.tunsrc is Some && mode == IOAM6_IPTUNNEL_MODE_INLINE)
    &&& !(c.tundst is None && mode != IOAM6_IPTUNNEL_MODE_INLINE)
    &&& !(c.tunsrc matches Some(a) && a@ == addr_any())
    &&& !(c.tundst matches Some(a) && a@ == addr_any())
    &&& c.trace matches Some(t) && ioam6_trace_header_ok(t)
}

/// `v` rounded up to a multiple of 8.
pub open spec fn align8(v: int) -> int {
    (v + 7) / 8 * 8
}

/// The state built from accepted attributes: sampling 1/1 by default, the
/// trace data area rounded up to 8 bytes (with a PadN option filling the
/// rest), and the option and header lengths that follow from it.
pub open spec fn ioam6_state_ok(c: Ioam6LwtunnelConfig, s: Ioam6LwtunnelState) -> bool {
    let t = c.trace->0;
    let data_len = t.remlen * 4;
    &&& s.freq_k == (match c.freq_k { Some(k) => k, None => IOAM6_IPTUNNEL_FREQ_MIN })
    &&& s.freq_n == (match c.freq_n { Some(n) => n, None => IOAM6_IPTUNNEL_FREQ_MIN })
    &&& s.mode == ioam6_config_mode(c)
    &&& s.has_tunsrc == c.tunsrc is Some
    &&& s.tunsrc == c.tunsrc
    &&& s.tundst == c.tundst
    &&& s.trace == (Ioam6TraceHeader {
        namespace_id: t.namespace_id,
        nodelen: ioam6_nodelen(t.type_be32) as u8,
        remlen: t.remlen,
        type_be32: t.type_be32,
    })
    &&& s.len_aligned == align8(data_len)
    &&& s.hopopt_hdrlen == (IOAM6_LWT_ENCAP_BASE_LEN + align8(data_len)) / 8 - 1
    &&& s.ioam_opt_type == IPV6_TLV_IOAM
    &&& s.ioam_type == IOAM6_TYPE_PREALLOC
    &&& s.ioam_opt_len == IOAM6_HDR_LEN - 2 + IOAM6_TRACE_HDR_LEN + data_len
    &&& s.trace_padding@ == padn_bytes((align8(data_len) - data_len) as nat)
    &&& s.lwtunnel_type == LWTUNNEL_ENCAP_IOAM6
    &&& s.flags == LWTUNNEL_STATE_OUTPUT_REDIRECT
}

/// Builds the tunnel state from netlink attributes; EINVAL for any
/// attribute set `ioam6_config_ok` rejects.
pub fn ioam6_build_lwtunnel_state(family: u16, config: Ioam6LwtunnelConfig) -> (r: Result<Ioam6LwtunnelState, i32>)
    ensures
        !ioam6_config_ok(family, config) ==> r == Err::<Ioam6LwtunnelState, i32>(EINVAL),
        ioam6_config_ok(family, config) ==> (r matches Ok(s) && ioam6_state_ok(config, s)),
{
    if family != AF_INET6 {
        return Err(EINVAL);
    }
    let freq_k;
    let freq_n;
    match (config.freq_k, config.freq_n) {
        (None, None) => {
            freq_k = IOAM6_IPTUNNEL_FREQ_MIN;
            freq_n = IOAM6_IPTUNNEL_FREQ_MIN;
        },
        (Some(k), Some(n)) => {
            if k < IOAM6_IPTUNNEL_FREQ_MIN || k > IOAM6_IPTUNNEL_FREQ_MAX || n < IOAM6_IPTUNNEL_FREQ_MIN
                || n > IOAM6_IPTUNNEL_FREQ_MAX || k > n {
                return Err(EINVAL);
            }
            freq_k = k;
            freq_n = n;
        },
        _ => return Err(EINVAL),
    }
    let mode = match config.mode {
        Some(m) => m,
        None => IOAM6_IPTUNNEL_MODE_INLINE,
    };
    if mode < IOAM6_IPTUNNEL_MODE_INLINE || mode > IOAM6_IPTUNNEL_MODE_AUTO {
        return Err(EINVAL);
    }
    if config.tunsrc.is_some() && mode == IOAM6_IPTUNNEL_MODE_INLINE {
        return Err(EINVAL);
    }
    if config.tundst.is_none() && mode != IOAM6_IPTUNNEL_MODE_INLINE {
        return Err(EINVAL);
    }
    match config.tunsrc {
        Some(a) => {
            if addr_is_any(&a) {
                return Err(EINVAL);
            }
        },
        None => {},
    }
    match config.tundst {
        Some(a) => {
            if addr_is_any(&a) {
                return Err(EINVAL);
            }
        },
        None => {},
    }
    let raw = match config.trace {
        Some(t) => t,
        None => return Err(EINVAL),
    };
    let trace = match ioam6_validate_trace_header(raw) {
        Ok(t) => t,
        Err(e) => return Err(e),
    };
    let data_len = trace.remlen as usize * 4;
    let len_aligned = (data_len + 7) / 8 * 8;
    let hopopt_hdrlen = ((IOAM6_LWT_ENCAP_BASE_LEN + len_aligned) / 8 - 1) as u8;
    let ioam_opt_len = (IOAM6_HDR_LEN - 2 + IOAM6_TRACE_HDR_LEN + data_len) as u8;
    let mut trace_padding: Vec<u8> = Vec::new();
    append_padn(&mut trace_padding, len_aligned - data_len);
    assert(trace_padding@ =~= padn_bytes((len_aligned - data_len) as nat));
    Ok(Ioam6LwtunnelState {
        freq_k,
        freq_n,
        mode,
        has_tunsrc: config.tunsrc.is_some(),
        tunsrc: config.tunsrc,
        tundst: config.tundst,
        trace,
        len_aligned,
        hopopt_hdrlen,
        ioam_opt_type: IPV6_TLV_IOAM,
        ioam_type: IOAM6_TYPE_PREALLOC,
        ioam_opt_len,
        trace_padding,
        lwtunnel_type: LWTUNNEL_ENCAP_IOAM6,
        flags: LWTUNNEL_STATE_OUTPUT_REDIRECT,
    })
}

/// The schema a namespace is linked to, when it is linked and the schema exists.
pub open spec fn linked_schema(sc: Seq<Ioam6Schema>, ns: Ioam6Namespace) -> Option<Ioam6Schema> {
    match ns.schema_id {
        Some(sid) => if sc_has(sc, sid) { Some(sc_get(sc, sid)) } else { None },
        None => None,
    }
}

/// The trace data a node fills for namespace `ns`: the namespace id, then
/// each available data field, then the linked schema's id and data.
pub open spec fn ioam6_trace_data(ns: Ioam6Namespace, schema: Option<Ioam6Schema>) -> Seq<u8> {
    be16_bytes(ns.id)
        + (if ns.data == IOAM6_U32_UNAVAILABLE { Seq::empty() } else { be32_bytes(ns.data) })
        + (if ns.data_wide == IOAM6_U64_UNAVAILABLE { Seq::empty() } else { be64_bytes(ns.data_wide) })
        + (match schema { Some(s) => be32_bytes(s.id) + s.data@, None => Seq::empty() })
}

/// The `trace_filled` event for a trace of `trace_len` bytes over `payload_len` bytes.
pub open spec fn ioam6_trace_event(namespace_id: u16, schema: Option<Ioam6Schema>, trace_len: nat, payload_len: nat) -> Ioam6TraceEvent {
    Ioam6TraceEvent {
        group: IOAM6_GENL_EV_GRP_NAME,
        name: IOAM6_EVENT_TRACE_FILLED,
        namespace_id,
        schema_id: match schema { Some(s) => Some(s.id), None => None },
        trace_len: trace_len as usize,
        payload_len: payload_len as usize,
    }
}

/// Two optional schemas that agree on id, data and link.
pub open spec fn opt_schema_same(a: Option<Ioam6Schema>, b: Option<Ioam6Schema>) -> bool {
    match (a, b) {
        (None, None) => true,
        (Some(x), Some(y)) => sc_same(x, y),
        _ => false,
    }
}

/// What filling trace data for `payload` under namespace `namespace_id`
/// gives: EINVAL for a route that is not IOAM6 or an empty payload, ENOENT
/// for an unknown namespace, else the trace data followed by the payload.
pub open spec fn ioam6_output_ok(st: Ioam6State, family: u16, encap: u16, namespace_id: u16, payload: Seq<u8>, r: Result<Ioam6LwtunnelOutput, i32>) -> bool {
    if !(family == AF_INET6 && encap == LWTUNNEL_ENCAP_IOAM6) || payload.len() == 0 {
        r == Err::<Ioam6LwtunnelOutput, i32>(EINVAL)
    } else if !ns_has(st.namespaces@, namespace_id) {
        r == Err::<Ioam6LwtunnelOutput, i32>(ENOENT)
    } else {
        let ns = ns_get(st.namespaces@, namespace_id);
        let schema = linked_schema(st.schemas@, ns);
        let td = ioam6_trace_data(ns, schema);
        if td.len() + payload.len() > usize::MAX {
            r == Err::<Ioam6LwtunnelOutput, i32>(EINVAL)
        } else {
            r matches Ok(o) && o.namespace == ns && opt_schema_same(o.schema, schema) && o.trace_data@ == td
                && o.payload_offset == td.len() && o.frame@ == td + payload
                && o.event == ioam6_trace_event(namespace_id, schema, td.len(), payload.len())
        }
    }
}

/// The events after an output: the new event is delivered only when a
/// listener is subscribed.
pub open spec fn ioam6_events_after(old_st: Ioam6State, new_st: Ioam6State, r: Result<Ioam6LwtunnelOutput, i32>) -> bool {
    &&& new_st.namespaces@ == old_st.namespaces@
    &&& new_st.schemas@ == old_st.schemas@
    &&& new_st.event_listener_present == old_st.event_listener_present
    &&& new_st.events@ == (match r {
        Ok(o) => if old_st.event_listener_present { old_st.events@.push(o.event) } else { old_st.events@ },
        Err(_) => old_st.events@,
    })
}

/// Fills the trace data for `payload` from the namespace tables and emits
/// the `trace_filled` event to listeners; see `ioam6_output_ok`.
pub fn ioam6_lwtunnel_output(state: &mut Ioam6State, family: u16, encap: u16, namespace_id: u16, payload: &[u8]) -> (r: Result<Ioam6LwtunnelOutput, i32>)
    requires
        old(state).wf(),
    ensures
        final(state).wf(),
        ioam6_output_ok(*old(state), family, encap, namespace_id, payload@, r),
        ioam6_events_after(*old(state), *final(state), r),
{
    match validate_ioam6_lwtunnel(family, encap) {
        Ok(()) => {},
        Err(e) => return Err(e),
    }
    if payload.len() == 0 {
        return Err(EINVAL);
    }
    let (i, found) = ns_locate(&state.namespaces, namespace_id);
    if !found {
        return Err(ENOENT);
    }
    proof {
        lemma_ns_get(state.namespaces@, i as int);
    }
    let ns = state.namespaces[i];
    let schema: Option<Ioam6Schema> = match ns.schema_id {
        Some(sid) => {
            let (j, present) = sc_locate(&state.schemas, sid);
            if present {
                proof {
                    lemma_sc_get(state.schemas@, j as int);
                }
                Some(schema_copy(&state.schemas[j]))
            } else {
                None
            }
        },
        None => None,
    };
    let ghost spec_schema = linked_schema(state.schemas@, ns);
    assert(opt_schema_same(schema, spec_schema));
    let mut trace_data: Vec<u8> = Vec::new();
    let idb = crate::bytes::u16_to_be_bytes(ns.id);
    push_bytes(&mut trace_data, &idb);
    if ns.data != IOAM6_U32_UNAVAILABLE {
        let b = crate::bytes::u32_to_be_bytes(ns.data);
        push_bytes(&mut trace_data, &b);
    }
    if ns.data_wide != IOAM6_U64_UNAVAILABLE {
        let b = crate::bytes::u64_to_be_bytes(ns.data_wide);
        push_bytes(&mut trace_data, &b);
    }
    let mut schema_id: Option<u32> = None;
    match &schema {
        Some(s) => {
            let b = crate::bytes::u32_to_be_bytes(s.id);
            push_bytes(&mut trace_data, &b);
            push_bytes(&mut trace_data, s.data.as_slice());
            schema_id = Some(s.id);
        },
        None => {},
    }
    assert(trace_data@ =~= ioam6_trace_data(ns, spec_schema));
    if payload.len() > usize::MAX - trace_data.len() {
        return Err(EINVAL);
    }
    let payload_offset = trace_data.len();
    let mut frame: Vec<u8> = Vec::new();
    push_bytes(&mut frame, trace_data.as_slice());
    push_bytes(&mut frame, payload);
    let event = Ioam6TraceEvent {
        group: IOAM6_GENL_EV_GRP_NAME,
        name: IOAM6_EVENT_TRACE_FILLED,
        namespace_id,
        schema_id,
        trace_len: trace_data.len(),
        payload_len: payload.len(),
    };
    assert(event == ioam6_trace_event(namespace_id, spec_schema, trace_data@.len(), payload@.len()));
    if state.event_listener_present {
        state.events.push(event);
    }
    Ok(Ioam6LwtunnelOutput { namespace: ns, schema, trace_data, payload_offset, frame, event })
}

/// The Hop-by-Hop extension header carrying the IOAM trace option: the
/// trace data is zero-filled to the room the trace header declares, the
/// route's padding follows, a PadN option rounds it up to 8 bytes, and the
/// length byte records the size in 8-byte units minus one.
pub open spec fn ioam6_hopopt(next_header: u8, lw: Ioam6LwtunnelState, trace_data: Seq<u8>) -> Seq<u8> {
    let room = lw.trace.remlen * 4;
    let filled = trace_data + Seq::new((room - trace_data.len()) as nat, |i: int| 0u8);
    let body = seq![next_header, 0u8, lw.ioam_opt_type, lw.ioam_opt_len, 0u8, lw.ioam_type]
        + be16_bytes(lw.trace.namespace_id)
        + seq![lw.trace.nodelen & 0x1fu8, lw.trace.remlen & 0x7fu8]
        + be32_bytes(lw.trace.type_be32)
        + filled
        + lw.trace_padding@;
    let padded = body + padn_bytes(((8 - body.len() % 8) % 8) as nat);
    padded.update(1, (padded.len() / 8 - 1) as u8)
}

/// The Hop-by-Hop header `ioam6_hopopt` builds is a whole number of
/// eight-byte units, starts with the next header it was given, and its
/// length byte counts the units after the first.
pub proof fn lemma_ioam6_hopopt_shape(next_header: u8, lw: Ioam6LwtunnelState, trace_data: Seq<u8>)
    requires
        trace_data.len() <= lw.trace.remlen * 4,
    ensures
        ({
            let h = ioam6_hopopt(next_header, lw, trace_data);
            &&& h.len() % 8 == 0
            &&& h.len() >= 16
            &&& h[0] == next_header
            &&& h[1] == (h.len() / 8 - 1) as u8
        }),
{
    let room = lw.trace.remlen * 4;
    let filled = trace_data + Seq::new((room - trace_data.len()) as nat, |i: int| 0u8);
    let body = seq![next_header, 0u8, lw.ioam_opt_type, lw.ioam_opt_len, 0u8, lw.ioam_type]
        + be16_bytes(lw.trace.namespace_id)
        + seq![lw.trace.nodelen & 0x1fu8, lw.trace.remlen & 0x7fu8]
        + be32_bytes(lw.trace.type_be32)
        + filled
        + lw.trace_padding@;
    let p = ((8 - body.len() % 8) % 8) as nat;
    let padded = body + padn_bytes(p);
    assert(padn_bytes(p).len() == p);
    assert(body.len() == 14 + room + lw.trace_padding@.len());
    assert(padded.len() % 8 == 0);
    assert(body[0] == next_header);
    assert(padded[0] == next_header);
}

/// Whether the trace data of namespace `namespace_id` fits the room the
/// tunnel's trace header declares, and the packet rebuilt around `payload`
/// (whose next header is `next_header`) fits an IPv6 payload.
pub open spec fn ioam6_output_fits(st: Ioam6State, namespace_id: u16, lw: Ioam6LwtunnelState, next_header: u8, payload: Seq<u8>) -> bool {
    let ns = ns_get(st.namespaces@, namespace_id);
    let td = ioam6_trace_data(ns, linked_schema(st.schemas@, ns));
    &&& td.len() + payload.len() <= usize::MAX
    &&& td.len() <= lw.trace.remlen * 4
    &&& lw.trace_padding@.len() + 14 + lw.trace.remlen * 4 <= usize::MAX
    &&& ioam6_hopopt(next_header, lw, td).len() + payload.len() <= 65535
}

/// Inserts the IOAM Hop-by-Hop option into the IPv6 packet in `skb`: the
/// trace data for the packet's payload is filled (emitting the event to
/// listeners), and the packet is rebuilt with next header Hop-by-Hop and
/// the option in front of the original payload. EINVAL when `skb` holds
/// no IPv6 packet, the trace data does not fit the room the trace header
/// declares, or the result exceeds an IPv6 payload; the output errors
/// otherwise; ENOMEM when the buffer cannot be allocated.
pub fn ioam6_lwtunnel_output_skb(
    state: &mut Ioam6State,
    family: u16,
    encap: u16,
    lw: &Ioam6LwtunnelState,
    namespace_id: u16,
    skb: &SkBuff,
) -> (r: Result<Ioam6SkbOutput, i32>)
    requires
        old(state).wf(),
        skb.wf(),
    ensures
        final(state).wf(),
        final(state).namespaces@ == old(state).namespaces@,
        final(state).schemas@ == old(state).schemas@,
        final(state).event_listener_present == old(state).event_listener_present,
        !(family == AF_INET6 && encap == LWTUNNEL_ENCAP_IOAM6) || parse_ipv6_spec(skb@) is None ==> (r == Err::<Ioam6SkbOutput, i32>(EINVAL)
            && final(state).events@ == old(state).events@),
        r matches Ok(o) ==> (parse_ipv6_spec(skb@) matches Some(f) && exists|out: Ioam6LwtunnelOutput| {
            &&& #[trigger] ioam6_output_ok(*old(state), family, encap, namespace_id, f.4, Ok(out))
            &&& ioam6_events_after(*old(state), *final(state), Ok(out))
            &&& out.trace_data@.len() <= lw.trace.remlen * 4
            &&& o.event == out.event
            &&& o.old_next_header == f.2
            &&& o.hopopt_len == ioam6_hopopt(f.2, *lw, out.trace_data@).len()
            &&& o.skb.wf()
            &&& o.skb@ == ipv6_packet_bytes(f.0, f.1, IPPROTO_HOPOPTS, ioam6_hopopt(f.2, *lw, out.trace_data@) + f.4, f.3)
            &&& parse_ipv6_spec(o.skb@) == Some((f.0, f.1, IPPROTO_HOPOPTS, f.3, ioam6_hopopt(f.2, *lw, out.trace_data@) + f.4))
            &&& o.hopopt_len % 8 == 0
        }),
        (parse_ipv6_spec(skb@) matches Some(f) && family == AF_INET6 && encap == LWTUNNEL_ENCAP_IOAM6 && f.4.len()
            > 0 && ns_has(old(state).namespaces@, namespace_id) && ioam6_output_fits(
            *old(state),
            namespace_id,
            *lw,
            f.2,
            f.4,
        )) ==> (r is Ok || r == Err::<Ioam6SkbOutput, i32>(ENOMEM)),
        parse_ipv6_spec(skb@) matches Some(f) ==> {
            &&& forall|e: i32| #[trigger]
                ioam6_output_ok(*old(state), family, encap, namespace_id, f.4, Err::<Ioam6LwtunnelOutput, i32>(e))
                    ==> r == Err::<Ioam6SkbOutput, i32>(e)
            &&& forall|out: Ioam6LwtunnelOutput| #[trigger]
                ioam6_output_ok(*old(state), family, encap, namespace_id, f.4, Ok(out)) ==> if out.trace_data@.len()
                    > lw.trace.remlen * 4 || lw.trace_padding@.len() + 14 + lw.trace.remlen * 4 > usize::MAX
                    || ioam6_hopopt(f.2, *lw, out.trace_data@).len() + f.4.len() > 65535 {
                    r == Err::<Ioam6SkbOutput, i32>(EINVAL)
                } else {
                    r is Ok || r == Err::<Ioam6SkbOutput, i32>(ENOMEM)
                }
        },
{
    match validate_ioam6_lwtunnel(family, encap) {
        Ok(()) => {},
        Err(e) => return Err(e),
    }
    let ipv6 = match parse_ipv6_packet(skb) {
        Ok(p) => p,
        Err(_) => return Err(EINVAL),
    };
    let ghost st0 = *state;
    let output = match ioam6_lwtunnel_output(state, family, encap, namespace_id, ipv6.payload.as_slice()) {
        Ok(o) => o,
        Err(e) => return Err(e),
    };
    let room = lw.trace.remlen as usize * 4;
    if output.trace_data.len() > room {
        return Err(EINVAL);
    }
    if lw.trace_padding.len() > usize::MAX - 14 - room {
        return Err(EINVAL);
    }
    let mut hopopt: Vec<u8> = Vec::new();
    hopopt.push(ipv6.next_header);
    hopopt.push(0);
    hopopt.push(lw.ioam_opt_type);
    hopopt.push(lw.ioam_opt_len);
    hopopt.push(0);
    hopopt.push(lw.ioam_type);
    let nsb = crate::bytes::u16_to_be_bytes(lw.trace.namespace_id);
    push_bytes(&mut hopopt, &nsb);
    hopopt.push(lw.trace.nodelen & 0x1fu8);
    hopopt.push(lw.trace.remlen & 0x7fu8);
    let tb = crate::bytes::u32_to_be_bytes(lw.trace.type_be32);
    push_bytes(&mut hopopt, &tb);
    push_bytes(&mut hopopt, output.trace_data.as_slice());
    let mut k: usize = output.trace_data.len();
    let ghost before_fill = hopopt@;
    while k < room
        invariant
            output.trace_data@.len() <= k <= room,
            hopopt@ == before_fill + Seq::new((k - output.trace_data@.len()) as nat, |i: int| 0u8),
        decreases room - k,
    {
        hopopt.push(0);
        k += 1;
        assert(hopopt@ =~= before_fill + Seq::new((k - output.trace_data@.len()) as nat, |i: int| 0u8));
    }
    push_bytes(&mut hopopt, lw.trace_padding.as_slice());
    let ghost body = hopopt@;
    assert(body =~= seq![ipv6.next_header, 0u8, lw.ioam_opt_type, lw.ioam_opt_len, 0u8, lw.ioam_type]
        + be16_bytes(lw.trace.namespace_id)
        + seq![lw.trace.nodelen & 0x1fu8, lw.trace.remlen & 0x7fu8]
        + be32_bytes(lw.trace.type_be32)
        + (output.trace_data@ + Seq::new((room - output.trace_data@.len()) as nat, |i: int| 0u8))
        + lw.trace_padding@);
    let pad_len = (8 - hopopt.len() % 8) % 8;
    append_padn(&mut hopopt, pad_len);
    let hopopt_len = hopopt.len();
    hopopt.set(1, (hopopt_len / 8 - 1) as u8);
    assert(hopopt@ == ioam6_hopopt(ipv6.next_header, *lw, output.trace_data@));
    let mut payload: Vec<u8> = Vec::new();
    push_bytes(&mut payload, hopopt.as_slice());
    push_bytes(&mut payload, ipv6.payload.as_slice());
    assert(payload@ =~= ioam6_hopopt(ipv6.next_header, *lw, output.trace_data@) + ipv6.payload@);
    let out = match build_ipv6_packet(ipv6.src, ipv6.dst, IPPROTO_HOPOPTS, payload.as_slice(), ipv6.hop_limit) {
        Ok(s) => s,
        Err(e) => return Err(e),
    };
    assert(ioam6_output_ok(st0, family, encap, namespace_id, ipv6.payload@, Ok(output)));
    assert(ioam6_events_after(st0, *state, Ok(output)));
    assert(hopopt_len == ioam6_hopopt(ipv6.next_header, *lw, output.trace_data@).len());
    let ghost f = parse_ipv6_spec(skb@).unwrap();
    assert(f.4 == ipv6.payload@ && f.2 == ipv6.next_header && f.0 == ipv6.src@ && f.1 == ipv6.dst@ && f.3 == ipv6.hop_limit);
    assert(ioam6_output_ok(*old(state), family, encap, namespace_id, f.4, Ok(output)));
    proof {
        lemma_ioam6_hopopt_shape(ipv6.next_header, *lw, output.trace_data@);
        crate::ip::lemma_ipv6_roundtrip(ipv6.src@, ipv6.dst@, IPPROTO_HOPOPTS, payload@, ipv6.hop_limit);
    }
    Ok(Ioam6SkbOutput { skb: out, old_next_header: ipv6.next_header, hopopt_len, event: output.event })
}

} // verus!
