//! IOAM6 control plane: namespaces and schemas, each namespace linked to
//! at most one schema and each schema to at most one namespace, plus the
//! trace events delivered to multicast listeners.
use vstd::prelude::*;

use crate::errno::{E2BIG, EEXIST, EINVAL, ENOENT};
use crate::ip::push_bytes;

use crate::niche::ioam6_links::{
    lemma_insert_namespace_keeps_links, lemma_insert_schema_keeps_links, lemma_remove_unlinked_namespace_keeps_links,
    lemma_remove_unlinked_schema_keeps_links, lemma_set_schema_keeps_links, lemma_unlink_namespace_keeps_links,
    lemma_unlink_schema_keeps_links,
};

verus! {

pub const IOAM6_MAX_SCHEMA_DATA_LEN: usize = 1020;
pub const IOAM6_U32_UNAVAILABLE: u32 = 0xffff_ffff;
pub const IOAM6_U64_UNAVAILABLE: u64 = 0xffff_ffff_ffff_ffff;

/// An IOAM namespace with its data fields (all-ones when unavailable).
#[derive(Clone, Copy, Debug, PartialEq, Eq)]
pub struct Ioam6Namespace {
    pub id: u16,
    pub data: u32,
    pub data_wide: u64,
    pub schema_id: Option<u32>,
}

/// An IOAM schema: opaque data, possibly linked to a namespace.
#[derive(Clone, Debug, PartialEq, Eq)]
pub struct Ioam6Schema {
    pub id: u32,
    pub data: Vec<u8>,
    pub namespace_id: Option<u16>,
}

/// A `trace_filled` event sent on the `ioam6_events` multicast group.
#[derive(Clone, Copy, Debug, PartialEq, Eq)]
pub struct Ioam6TraceEvent {
    pub group: &'static str,
    pub name: &'static str,
    pub namespace_id: u16,
    pub schema_id: Option<u32>,
    pub trace_len: usize,
    pub payload_len: usize,
}

/// The per-network IOAM6 state: namespaces and schemas, each kept in
/// increasing order of id, the events delivered so far and whether any
/// listener is subscribed to the event group.
pub struct Ioam6State {
    pub namespaces: Vec<Ioam6Namespace>,
    pub schemas: Vec<Ioam6Schema>,
    pub events: Vec<Ioam6TraceEvent>,
    pub event_listener_present: bool,
}

/// Namespace ids increase along `s` (so each id occurs once).
pub open spec fn ns_sorted(s: Seq<Ioam6Namespace>) -> bool {
    forall|i: int, j: int| 0 <= i < j < s.len() ==> s[i].id < s[j].id
}

/// Schema ids increase along `s` (so each id occurs once).
pub open spec fn sc_sorted(s: Seq<Ioam6Schema>) -> bool {
    forall|i: int, j: int| 0 <= i < j < s.len() ==> s[i].id < s[j].id
}

/// Whether a namespace with `id` exists.
pub open spec fn ns_has(s: Seq<Ioam6Namespace>, id: u16) -> bool {
    exists|i: int| 0 <= i < s.len() && s[i].id == id
}

/// Whether a schema with `id` exists.
pub open spec fn sc_has(s: Seq<Ioam6Schema>, id: u32) -> bool {
    exists|i: int| 0 <= i < s.len() && s[i].id == id
}

/// The namespace with `id` (meaningful when it exists).
pub open spec fn ns_get(s: Seq<Ioam6Namespace>, id: u16) -> Ioam6Namespace {
    s[choose|i: int| 0 <= i < s.len() && s[i].id == id]
}

/// The schema with `id` (meaningful when it exists).
pub open spec fn sc_get(s: Seq<Ioam6Schema>, id: u32) -> Ioam6Schema {
    s[choose|i: int| 0 <= i < s.len() && s[i].id == id]
}

/// `s` with the namespace `id` linked to schema `v` (unchanged when absent).
pub open spec fn ns_set_schema(s: Seq<Ioam6Namespace>, id: u16, v: Option<u32>) -> Seq<Ioam6Namespace> {
    s.map_values(|n: Ioam6Namespace| if n.id == id {
        Ioam6Namespace { id: n.id, data: n.data, data_wide: n.data_wide, schema_id: v }
    } else {
        n
    })
}

/// `s` with the schema `id` linked to namespace `v` (unchanged when absent).
pub open spec fn sc_set_ns(s: Seq<Ioam6Schema>, id: u32, v: Option<u16>) -> Seq<Ioam6Schema> {
    s.map_values(|c: Ioam6Schema| if c.id == id {
        Ioam6Schema { id: c.id, data: c.data, namespace_id: v }
    } else {
        c
    })
}

/// `s` with the link to schema `id`, if any, removed from its namespace.
pub open spec fn sc_unlink(s: Seq<Ioam6Schema>, id: Option<u32>) -> Seq<Ioam6Schema> {
    match id {
        Some(i) => sc_set_ns(s, i, None),
        None => s,
    }
}

/// `s` with the link to namespace `id`, if any, removed from its schema.
pub open spec fn ns_unlink(s: Seq<Ioam6Namespace>, id: Option<u16>) -> Seq<Ioam6Namespace> {
    match id {
        Some(i) => ns_set_schema(s, i, None),
        None => s,
    }
}

/// Namespace `i` is linked to no schema, or to one that is linked back to
/// it.
pub open spec fn ns_linked(ns: Seq<Ioam6Namespace>, sc: Seq<Ioam6Schema>, i: int) -> bool {
    ns[i].schema_id is Some ==> exists|j: int|
        0 <= j < sc.len() && #[trigger] sc[j].id == ns[i].schema_id->0 && sc[j].namespace_id == Some(ns[i].id)
}

/// Schema `j` is linked to no namespace, or to one that is linked back to
/// it.
pub open spec fn sc_linked(ns: Seq<Ioam6Namespace>, sc: Seq<Ioam6Schema>, j: int) -> bool {
    sc[j].namespace_id is Some ==> exists|i: int|
        0 <= i < ns.len() && #[trigger] ns[i].id == sc[j].namespace_id->0 && ns[i].schema_id == Some(sc[j].id)
}

/// Every link is mirrored: a namespace linked to a schema is the one that
/// schema is linked to, and the other way round.
pub open spec fn links_consistent(ns: Seq<Ioam6Namespace>, sc: Seq<Ioam6Schema>) -> bool {
    &&& forall|i: int| 0 <= i < ns.len() ==> #[trigger] ns_linked(ns, sc, i)
    &&& forall|j: int| 0 <= j < sc.len() ==> #[trigger] sc_linked(ns, sc, j)
}

/// Two schemas with the same id, data and link.
pub open spec fn sc_same(a: Ioam6Schema, b: Ioam6Schema) -> bool {
    a.id == b.id && a.data@ == b.data@ && a.namespace_id == b.namespace_id
}

impl Ioam6State {
    /// Both tables are kept in increasing order of id.
    pub open spec fn wf(&self) -> bool {
        ns_sorted(self.namespaces@) && sc_sorted(self.schemas@)
    }

    /// Every namespace-schema link is mirrored on the other side.
    pub open spec fn links_ok(&self) -> bool {
        links_consistent(self.namespaces@, self.schemas@)
    }

    /// An empty state: no namespaces, schemas, events or listeners.
    pub fn new() -> (r: Self)
        ensures
            r.wf(),
            r.links_ok(),
            r.namespaces@.len() == 0,
            r.schemas@.len() == 0,
            r.events@.len() == 0,
            !r.event_listener_present,
    {
        Ioam6State { namespaces: Vec::new(), schemas: Vec::new(), events: Vec::new(), event_listener_present: false }
    }

    /// Whether both tables are in increasing order of id.
    pub fn is_well_formed(&self) -> (r: bool)
        ensures
            r == self.wf(),
    {
        let mut i: usize = 1;
        while i < self.namespaces.len()
            invariant
                1 <= i <= self.namespaces@.len() || self.namespaces@.len() == 0,
                forall|a: int, b: int| 0 <= a < b < i && b < self.namespaces@.len()
                    ==> self.namespaces@[a].id < self.namespaces@[b].id,
            decreases self.namespaces@.len() - i,
        {
            if self.namespaces[i - 1].id >= self.namespaces[i].id {
                return false;
            }
            i += 1;
        }
        let mut j: usize = 1;
        while j < self.schemas.len()
            invariant
                1 <= j <= self.schemas@.len() || self.schemas@.len() == 0,
                ns_sorted(self.namespaces@),
                forall|a: int, b: int| 0 <= a < b < j && b < self.schemas@.len()
                    ==> self.schemas@[a].id < self.schemas@[b].id,
            decreases self.schemas@.len() - j,
        {
            if self.schemas[j - 1].id >= self.schemas[j].id {
                return false;
            }
            j += 1;
        }
        true
    }
}

pub(crate) proof fn lemma_ns_get(s: Seq<Ioam6Namespace>, i: int)
    requires
        ns_sorted(s),
        0 <= i < s.len(),
    ensures
        ns_has(s, s[i].id),
        ns_get(s, s[i].id) == s[i],
{
    let j = choose|j: int| 0 <= j < s.len() && s[j].id == s[i].id;
    if j < i {
    } else if i < j {
    }
}

pub(crate) proof fn lemma_sc_get(s: Seq<Ioam6Schema>, i: int)
    requires
        sc_sorted(s),
        0 <= i < s.len(),
    ensures
        sc_has(s, s[i].id),
        sc_get(s, s[i].id) == s[i],
{
    let j = choose|j: int| 0 <= j < s.len() && s[j].id == s[i].id;
    if j < i {
    } else if i < j {
    }
}

/// Where namespace `id` is, or where it would go to keep the order.
pub(crate) fn ns_locate(v: &Vec<Ioam6Namespace>, id: u16) -> (r: (usize, bool))
    requires
        ns_sorted(v@),
    ensures
        r.0 <= v@.len(),
        r.1 == ns_has(v@, id),
        r.1 ==> r.0 < v@.len() && v@[r.0 as int].id == id,
        !r.1 ==> forall|j: int| 0 <= j < v@.len() ==> (j < r.0 <==> v@[j].id < id),
{
    let mut i: usize = 0;
    while i < v.len()
        invariant
            i <= v@.len(),
            ns_sorted(v@),
            forall|j: int| 0 <= j < i ==> v@[j].id < id,
        decreases v@.len() - i,
    {
        if v[i].id == id {
            return (i, true);
        }
        if v[i].id > id {
            assert forall|j: int| 0 <= j < v@.len() implies (j < i <==> v@[j].id < id) by {
                if j >= i {
                    assert(v@[j].id >= v@[i as int].id);
                }
            }
            assert(!ns_has(v@, id)) by {
                if ns_has(v@, id) {
                    let j = choose|j: int| 0 <= j < v@.len() && v@[j].id == id;
                    if j >= i {
                        assert(v@[j].id >= v@[i as int].id);
                    }
                }
            }
            return (i, false);
        }
        i += 1;
    }
    (i, false)
}

/// Where schema `id` is, or where it would go to keep the order.
pub(crate) fn sc_locate(v: &Vec<Ioam6Schema>, id: u32) -> (r: (usize, bool))
    requires
        sc_sorted(v@),
    ensures
        r.0 <= v@.len(),
        r.1 == sc_has(v@, id),
        r.1 ==> r.0 < v@.len() && v@[r.0 as int].id == id,
        !r.1 ==> forall|j: int| 0 <= j < v@.len() ==> (j < r.0 <==> v@[j].id < id),
{
    let mut i: usize = 0;
    while i < v.len()
        invariant
            i <= v@.len(),
            sc_sorted(v@),
            forall|j: int| 0 <= j < i ==> v@[j].id < id,
        decreases v@.len() - i,
    {
        if v[i].id == id {
            return (i, true);
        }
        if v[i].id > id {
            assert forall|j: int| 0 <= j < v@.len() implies (j < i <==> v@[j].id < id) by {
                if j >= i {
                    assert(v@[j].id >= v@[i as int].id);
                }
            }
            assert(!sc_has(v@, id)) by {
                if sc_has(v@, id) {
                    let j = choose|j: int| 0 <= j < v@.len() && v@[j].id == id;
                    if j >= i {
                        assert(v@[j].id >= v@[i as int].id);
                    }
                }
            }
            return (i, false);
        }
        i += 1;
    }
    (i, false)
}

fn ns_set_schema_exec(v: &mut Vec<Ioam6Namespace>, id: u16, val: Option<u32>)
    ensures
        final(v)@ == ns_set_schema(old(v)@, id, val),
{
    let mut i: usize = 0;
    while i < v.len()
        invariant
            i <= v@.len(),
            v@.len() == old(v)@.len(),
            forall|j: int| 0 <= j < i ==> v@[j] == ns_set_schema(old(v)@, id, val)[j],
            forall|j: int| i <= j < v@.len() ==> v@[j] == old(v)@[j],
        decreases v@.len() - i,
    {
        if v[i].id == id {
            let mut n = v[i];
            n.schema_id = val;
            v.set(i, n);
        }
        i += 1;
    }
    assert(v@ =~= ns_set_schema(old(v)@, id, val));
}

fn sc_set_ns_exec(v: &mut Vec<Ioam6Schema>, id: u32, val: Option<u16>)
    ensures
        final(v)@ == sc_set_ns(old(v)@, id, val),
{
    let mut i: usize = 0;
    while i < v.len()
        invariant
            i <= v@.len(),
            v@.len() == old(v)@.len(),
            forall|j: int| 0 <= j < i ==> v@[j] == sc_set_ns(old(v)@, id, val)[j],
            forall|j: int| i <= j < v@.len() ==> v@[j] == old(v)@[j],
        decreases v@.len() - i,
    {
        if v[i].id == id {
            let mut c = v.remove(i);
            c.namespace_id = val;
            v.insert(i, c);
        }
        i += 1;
    }
    assert(v@ =~= sc_set_ns(old(v)@, id, val));
}

/// Resets the state: no namespaces, schemas, events or listeners.
pub fn ioam6_clear_state(state: &mut Ioam6State)
    ensures
        final(state).wf(),
        final(state).links_ok(),
        final(state).namespaces@.len() == 0,
        final(state).schemas@.len() == 0,
        final(state).events@.len() == 0,
        !final(state).event_listener_present,
{
    *state = Ioam6State::new();
}

/// Records whether a listener is subscribed to the event group.
pub fn ioam6_set_event_listener_present(state: &mut Ioam6State, present: bool)
    ensures
        final(state).event_listener_present == present,
        final(state).namespaces@ == old(state).namespaces@,
        final(state).schemas@ == old(state).schemas@,
        final(state).events@ == old(state).events@,
{
    state.event_listener_present = present;
}

/// Whether a listener is subscribed to the event group.
pub fn ioam6_event_listener_present(state: &Ioam6State) -> (r: bool)
    ensures
        r == state.event_listener_present,
{
    state.event_listener_present
}

/// A fresh namespace: unavailable data fields are all-ones, no schema.
pub open spec fn new_namespace(id: u16, data: Option<u32>, data_wide: Option<u64>) -> Ioam6Namespace {
    Ioam6Namespace {
        id,
        data: match data { Some(d) => d, None => IOAM6_U32_UNAVAILABLE },
        data_wide: match data_wide { Some(d) => d, None => IOAM6_U64_UNAVAILABLE },
        schema_id: None,
    }
}

/// Adds namespace `id` with its data (all-ones where not given), linked to
/// no schema; EEXIST when the id is taken.
pub fn ioam6_add_namespace(state: &mut Ioam6State, id: u16, data: Option<u32>, data_wide: Option<u64>) -> (r: Result<(), i32>)
    requires
        old(state).wf(),
    ensures
        final(state).wf(),
        old(state).links_ok() ==> final(state).links_ok(),
        final(state).schemas@ == old(state).schemas@,
        final(state).events@ == old(state).events@,
        final(state).event_listener_present == old(state).event_listener_present,
        ns_has(old(state).namespaces@, id) ==> r == Err::<(), i32>(EEXIST) && final(state).namespaces@ == old(state).namespaces@,
        !ns_has(old(state).namespaces@, id) ==> r == Ok::<(), i32>(()) && exists|k: int| 0 <= k <= old(state).namespaces@.len()
            && final(state).namespaces@ == #[trigger] old(state).namespaces@.insert(k, new_namespace(id, data, data_wide)),
{
    let (k, found) = ns_locate(&state.namespaces, id);
    if found {
        return Err(EEXIST);
    }
    let ns = Ioam6Namespace {
        id,
        data: match data { Some(d) => d, None => IOAM6_U32_UNAVAILABLE },
        data_wide: match data_wide { Some(d) => d, None => IOAM6_U64_UNAVAILABLE },
        schema_id: None,
    };
    assert(ns == new_namespace(id, data, data_wide));
    let ghost old_ns = state.namespaces@;
    state.namespaces.insert(k, ns);
    proof {
        if links_consistent(old_ns, state.schemas@) {
            lemma_insert_namespace_keeps_links(old_ns, state.schemas@, k as int, ns);
        }
    }
    assert(ns_sorted(state.namespaces@)) by {
        assert forall|i: int, j: int| 0 <= i < j < state.namespaces@.len() implies state.namespaces@[i].id < state.namespaces@[j].id by {
            if i < k && j > k {
                assert(old_ns[j - 1].id > id);
            } else if i == k {
                assert(!(j - 1 < k));
            }
        }
    }
    Ok(())
}

/// Removes namespace `id` and the link its schema had to it; ENOENT when
/// there is none.
pub fn ioam6_del_namespace(state: &mut Ioam6State, id: u16) -> (r: Result<(), i32>)
    requires
        old(state).wf(),
    ensures
        final(state).wf(),
        old(state).links_ok() ==> final(state).links_ok(),
        final(state).events@ == old(state).events@,
        final(state).event_listener_present == old(state).event_listener_present,
        !ns_has(old(state).namespaces@, id) ==> r == Err::<(), i32>(ENOENT) && final(state).namespaces@ == old(state).namespaces@
            && final(state).schemas@ == old(state).schemas@,
        ns_has(old(state).namespaces@, id) ==> r == Ok::<(), i32>(()) && exists|k: int| 0 <= k < old(state).namespaces@.len()
            && (#[trigger] old(state).namespaces@[k]).id == id
            && final(state).namespaces@ == old(state).namespaces@.remove(k)
            && final(state).schemas@ == sc_unlink(old(state).schemas@, old(state).namespaces@[k].schema_id),
{
    let (k, found) = ns_locate(&state.namespaces, id);
    if !found {
        return Err(ENOENT);
    }
    let ghost old_ns = state.namespaces@;
    let ghost old_sc = state.schemas@;
    proof {
        lemma_ns_get(old_ns, k as int);
        if links_consistent(old_ns, old_sc) {
            lemma_unlink_namespace_keeps_links(old_ns, old_sc, id);
            let cleared = ns_set_schema(old_ns, id, None);
            lemma_remove_unlinked_namespace_keeps_links(cleared, sc_unlink(old_sc, old_ns[k as int].schema_id), k as int);
            assert(cleared.remove(k as int) =~= old_ns.remove(k as int)) by {
                assert forall|i: int| 0 <= i < old_ns.len() && i != k implies old_ns[i].id != id by {
                    if i < k { assert(old_ns[i].id < old_ns[k as int].id); } else { assert(old_ns[k as int].id < old_ns[i].id); }
                }
            }
        }
    }
    let ns = state.namespaces.remove(k);
    assert(ns_sorted(state.namespaces@)) by {
        assert forall|i: int, j: int| 0 <= i < j < state.namespaces@.len() implies state.namespaces@[i].id < state.namespaces@[j].id by {
            if i >= k {
                assert(old_ns[i + 1].id < old_ns[j + 1].id);
            } else if j >= k {
                assert(old_ns[i].id < old_ns[j + 1].id);
            }
        }
    }
    match ns.schema_id {
        Some(sid) => {
            proof { lemma_sc_set_ns_keeps(state.schemas@, sid, None); }
            sc_set_ns_exec(&mut state.schemas, sid, None);
        },
        None => {},
    }
    Ok(())
}

/// The namespaces in increasing order of id.
pub fn ioam6_dump_namespaces(state: &Ioam6State) -> (r: Vec<Ioam6Namespace>)
    ensures
        r@ == state.namespaces@,
{
    let mut out: Vec<Ioam6Namespace> = Vec::new();
    let mut i: usize = 0;
    while i < state.namespaces.len()
        invariant
            i <= state.namespaces@.len(),
            out@ == state.namespaces@.subrange(0, i as int),
        decreases state.namespaces@.len() - i,
    {
        out.push(state.namespaces[i]);
        i += 1;
        assert(out@ =~= state.namespaces@.subrange(0, i as int));
    }
    assert(state.namespaces@.subrange(0, i as int) =~= state.namespaces@);
    out
}

/// Adds schema `id` holding `data`, linked to no namespace: EINVAL for
/// empty data, E2BIG past 1020 bytes, EEXIST when the id is taken.
pub fn ioam6_add_schema(state: &mut Ioam6State, id: u32, data: &[u8]) -> (r: Result<(), i32>)
    requires
        old(state).wf(),
    ensures
        final(state).wf(),
        old(state).links_ok() ==> final(state).links_ok(),
        final(state).namespaces@ == old(state).namespaces@,
        final(state).events@ == old(state).events@,
        final(state).event_listener_present == old(state).event_listener_present,
        r is Err ==> final(state).schemas@ == old(state).schemas@,
        r == (if data@.len() == 0 {
            Err::<(), i32>(EINVAL)
        } else if data@.len() > IOAM6_MAX_SCHEMA_DATA_LEN {
            Err(E2BIG)
        } else if sc_has(old(state).schemas@, id) {
            Err(EEXIST)
        } else {
            Ok(())
        }),
        r is Ok ==> exists|k: int| 0 <= k <= old(state).schemas@.len()
            && final(state).schemas@.len() == old(state).schemas@.len() + 1
            && #[trigger] final(state).schemas@.remove(k) == old(state).schemas@
            && final(state).schemas@[k].id == id
            && final(state).schemas@[k].data@ == data@
            && final(state).schemas@[k].namespace_id is None,
{
    if data.len() == 0 {
        return Err(EINVAL);
    }
    if data.len() > IOAM6_MAX_SCHEMA_DATA_LEN {
        return Err(E2BIG);
    }
    let (k, found) = sc_locate(&state.schemas, id);
    if found {
        return Err(EEXIST);
    }
    let mut bytes: Vec<u8> = Vec::new();
    push_bytes(&mut bytes, data);
    let sc = Ioam6Schema { id, data: bytes, namespace_id: None };
    let ghost old_sc = state.schemas@;
    let ghost new_sc = sc;
    state.schemas.insert(k, sc);
    assert(state.schemas@.remove(k as int) =~= old_sc);
    proof {
        if links_consistent(state.namespaces@, old_sc) {
            lemma_insert_schema_keeps_links(state.namespaces@, old_sc, k as int, new_sc);
        }
    }
    assert(sc_sorted(state.schemas@)) by {
        assert forall|i: int, j: int| 0 <= i < j < state.schemas@.len() implies state.schemas@[i].id < state.schemas@[j].id by {
            if i < k && j > k {
                assert(old_sc[j - 1].id > id);
            } else if i == k {
                assert(!(j - 1 < k));
            }
        }
    }
    Ok(())
}

/// Removes schema `id` and the link its namespace had to it; ENOENT when
/// there is none.
pub fn ioam6_del_schema(state: &mut Ioam6State, id: u32) -> (r: Result<(), i32>)
    requires
        old(state).wf(),
    ensures
        final(state).wf(),
        old(state).links_ok() ==> final(state).links_ok(),
        final(state).events@ == old(state).events@,
        final(state).event_listener_present == old(state).event_listener_present,
        !sc_has(old(state).schemas@, id) ==> r == Err::<(), i32>(ENOENT) && final(state).namespaces@ == old(state).namespaces@
            && final(state).schemas@ == old(state).schemas@,
        sc_has(old(state).schemas@, id) ==> r == Ok::<(), i32>(()) && exists|k: int| 0 <= k < old(state).schemas@.len()
            && (#[trigger] old(state).schemas@[k]).id == id
            && final(state).schemas@ == old(state).schemas@.remove(k)
            && final(state).namespaces@ == ns_unlink(old(state).namespaces@, old(state).schemas@[k].namespace_id),
{
    let (k, found) = sc_locate(&state.schemas, id);
    if !found {
        return Err(ENOENT);
    }
    let ghost old_sc = state.schemas@;
    let ghost old_ns = state.namespaces@;
    proof {
        lemma_sc_get(old_sc, k as int);
        if links_consistent(old_ns, old_sc) {
            lemma_unlink_schema_keeps_links(old_ns, old_sc, id);
            let cleared = sc_set_ns(old_sc, id, None);
            lemma_remove_unlinked_schema_keeps_links(ns_unlink(old_ns, old_sc[k as int].namespace_id), cleared, k as int);
            assert(cleared.remove(k as int) =~= old_sc.remove(k as int)) by {
                assert forall|i: int| 0 <= i < old_sc.len() && i != k implies old_sc[i].id != id by {
                    if i < k { assert(old_sc[i].id < old_sc[k as int].id); } else { assert(old_sc[k as int].id < old_sc[i].id); }
                }
            }
        }
    }
    let sc = state.schemas.remove(k);
    assert(sc_sorted(state.schemas@)) by {
        assert forall|i: int, j: int| 0 <= i < j < state.schemas@.len() implies state.schemas@[i].id < state.schemas@[j].id by {
            if i >= k {
                assert(old_sc[i + 1].id < old_sc[j + 1].id);
            } else if j >= k {
                assert(old_sc[i].id < old_sc[j + 1].id);
            }
        }
    }
    match sc.namespace_id {
        Some(nid) => {
            proof { lemma_ns_set_schema_keeps(state.namespaces@, nid, None); }
            ns_set_schema_exec(&mut state.namespaces, nid, None);
        },
        None => {},
    }
    Ok(())
}

pub(crate) fn schema_copy(s: &Ioam6Schema) -> (r: Ioam6Schema)
    ensures
        sc_same(r, *s),
{
    let mut bytes: Vec<u8> = Vec::new();
    push_bytes(&mut bytes, s.data.as_slice());
    Ioam6Schema { id: s.id, data: bytes, namespace_id: s.namespace_id }
}

/// The schemas in increasing order of id.
pub fn ioam6_dump_schemas(state: &Ioam6State) -> (r: Vec<Ioam6Schema>)
    ensures
        r@.len() == state.schemas@.len(),
        forall|k: int| 0 <= k < r@.len() ==> sc_same(#[trigger] r@[k], state.schemas@[k]),
{
    let mut out: Vec<Ioam6Schema> = Vec::new();
    let mut i: usize = 0;
    while i < state.schemas.len()
        invariant
            i <= state.schemas@.len(),
            out@.len() == i,
            forall|k: int| 0 <= k < i ==> sc_same(#[trigger] out@[k], state.schemas@[k]),
        decreases state.schemas@.len() - i,
    {
        let c = schema_copy(&state.schemas[i]);
        out.push(c);
        i += 1;
    }
    out
}

/// The trace events delivered so far, oldest first.
pub fn ioam6_events(state: &Ioam6State) -> (r: Vec<Ioam6TraceEvent>)
    ensures
        r@ == state.events@,
{
    let mut out: Vec<Ioam6TraceEvent> = Vec::new();
    let mut i: usize = 0;
    while i < state.events.len()
        invariant
            i <= state.events@.len(),
            out@ == state.events@.subrange(0, i as int),
        decreases state.events@.len() - i,
    {
        out.push(state.events[i]);
        i += 1;
        assert(out@ =~= state.events@.subrange(0, i as int));
    }
    assert(state.events@.subrange(0, i as int) =~= state.events@);
    out
}

/// The tables after linking namespace `ns_id` to `schema_id` (or unlinking
/// it): its previous schema loses its link, the schema's previous
/// namespace loses its link, and the two are linked to each other.
pub open spec fn set_schema_tables(ns: Seq<Ioam6Namespace>, sc: Seq<Ioam6Schema>, ns_id: u16, schema_id: Option<u32>) -> (
    Seq<Ioam6Namespace>,
    Seq<Ioam6Schema>,
) {
    let sc1 = sc_unlink(sc, ns_get(ns, ns_id).schema_id);
    match schema_id {
        Some(sid) => {
            let ns1 = ns_unlink(ns, sc_get(sc1, sid).namespace_id);
            (ns_set_schema(ns1, ns_id, Some(sid)), sc_set_ns(sc1, sid, Some(ns_id)))
        },
        None => (ns_set_schema(ns, ns_id, None), sc1),
    }
}

pub(crate) proof fn lemma_sc_set_ns_keeps(s: Seq<Ioam6Schema>, id: u32, v: Option<u16>)
    requires
        sc_sorted(s),
    ensures
        sc_sorted(sc_set_ns(s, id, v)),
        forall|i: int| 0 <= i < s.len() ==> (#[trigger] sc_set_ns(s, id, v)[i]).id == s[i].id,
        forall|x: u32| sc_has(sc_set_ns(s, id, v), x) == sc_has(s, x),
{
    let t = sc_set_ns(s, id, v);
    assert forall|x: u32| sc_has(t, x) == sc_has(s, x) by {
        if sc_has(s, x) {
            let i = choose|i: int| 0 <= i < s.len() && s[i].id == x;
            assert(t[i].id == x);
        }
        if sc_has(t, x) {
            let i = choose|i: int| 0 <= i < t.len() && t[i].id == x;
            assert(s[i].id == x);
        }
    }
}

pub(crate) proof fn lemma_ns_set_schema_keeps(s: Seq<Ioam6Namespace>, id: u16, v: Option<u32>)
    requires
        ns_sorted(s),
    ensures
        ns_sorted(ns_set_schema(s, id, v)),
        forall|i: int| 0 <= i < s.len() ==> (#[trigger] ns_set_schema(s, id, v)[i]).id == s[i].id,
        forall|x: u16| ns_has(ns_set_schema(s, id, v), x) == ns_has(s, x),
{
    let t = ns_set_schema(s, id, v);
    assert forall|x: u16| ns_has(t, x) == ns_has(s, x) by {
        if ns_has(s, x) {
            let i = choose|i: int| 0 <= i < s.len() && s[i].id == x;
            assert(t[i].id == x);
        }
        if ns_has(t, x) {
            let i = choose|i: int| 0 <= i < t.len() && t[i].id == x;
            assert(s[i].id == x);
        }
    }
}

/// Links namespace `ns_id` to schema `schema_id`, or unlinks it for
/// `None`; ENOENT when the namespace, or the schema named, does not exist.
pub fn ioam6_namespace_set_schema(state: &mut Ioam6State, ns_id: u16, schema_id: Option<u32>) -> (r: Result<(), i32>)
    requires
        old(state).wf(),
    ensures
        final(state).wf(),
        old(state).links_ok() ==> final(state).links_ok(),
        final(state).events@ == old(state).events@,
        final(state).event_listener_present == old(state).event_listener_present,
        r == (if !ns_has(old(state).namespaces@, ns_id) {
            Err::<(), i32>(ENOENT)
        } else if schema_id matches Some(sid) && !sc_has(old(state).schemas@, sid) {
            Err(ENOENT)
        } else {
            Ok(())
        }),
        r is Err ==> final(state).namespaces@ == old(state).namespaces@ && final(state).schemas@ == old(state).schemas@,
        r is Ok ==> (final(state).namespaces@, final(state).schemas@) == set_schema_tables(
            old(state).namespaces@,
            old(state).schemas@,
            ns_id,
            schema_id,
        ),
{
    let (i, found) = ns_locate(&state.namespaces, ns_id);
    if !found {
        return Err(ENOENT);
    }
    match schema_id {
        Some(sid) => {
            let (_, present) = sc_locate(&state.schemas, sid);
            if !present {
                return Err(ENOENT);
            }
        },
        None => {},
    }
    let ghost ns0 = state.namespaces@;
    let ghost sc0 = state.schemas@;
    proof {
        lemma_ns_get(ns0, i as int);
        if links_consistent(ns0, sc0) {
            lemma_set_schema_keeps_links(ns0, sc0, ns_id, schema_id);
        }
    }
    let old_sid = state.namespaces[i].schema_id;
    match old_sid {
        Some(o) => {
            proof { lemma_sc_set_ns_keeps(sc0, o, None); }
            sc_set_ns_exec(&mut state.schemas, o, None);
        },
        None => {},
    }
    let ghost sc1 = state.schemas@;
    assert(sc1 == sc_unlink(sc0, ns_get(ns0, ns_id).schema_id));
    assert(sc_sorted(sc1));
    match schema_id {
        Some(sid) => {
            let (j, present) = sc_locate(&state.schemas, sid);
            if !present {
                return Err(ENOENT);
            }
            proof { lemma_sc_get(sc1, j as int); }
            let old_nid = state.schemas[j].namespace_id;
            match old_nid {
                Some(o) => {
                    proof { lemma_ns_set_schema_keeps(ns0, o, None); }
                    ns_set_schema_exec(&mut state.namespaces, o, None);
                },
                None => {},
            }
            proof {
                lemma_ns_set_schema_keeps(state.namespaces@, ns_id, Some(sid));
                lemma_sc_set_ns_keeps(sc1, sid, Some(ns_id));
            }
            ns_set_schema_exec(&mut state.namespaces, ns_id, Some(sid));
            sc_set_ns_exec(&mut state.schemas, sid, Some(ns_id));
        },
        None => {
            proof { lemma_ns_set_schema_keeps(ns0, ns_id, None); }
            ns_set_schema_exec(&mut state.namespaces, ns_id, None);
        },
    }
    Ok(())
}

} // verus!
