//! The namespace and schema tables keep their links mirrored: each table
//! operation turns tables whose links are mirrored into tables whose links
//! are mirrored.
use vstd::prelude::*;

use crate::niche::ioam6::{
    lemma_ns_get, lemma_ns_set_schema_keeps, lemma_sc_get, lemma_sc_set_ns_keeps, links_consistent, ns_get, ns_has, ns_linked, ns_set_schema, ns_sorted, ns_unlink, sc_get, sc_has, sc_linked,
    sc_set_ns, sc_sorted, sc_unlink, set_schema_tables, Ioam6Namespace, Ioam6Schema,
};

verus! {

/// A namespace linked to no schema can be added: the links stay mirrored.
pub proof fn lemma_insert_namespace_keeps_links(
    ns: Seq<Ioam6Namespace>,
    sc: Seq<Ioam6Schema>,
    k: int,
    n: Ioam6Namespace,
)
    requires
        links_consistent(ns, sc),
        0 <= k <= ns.len(),
        n.schema_id is None,
        !ns_has(ns, n.id),
    ensures
        links_consistent(ns.insert(k, n), sc),
{
    let t = ns.insert(k, n);
    assert forall|i: int| 0 <= i < t.len() implies #[trigger] ns_linked(t, sc, i) by {
        if i < k {
            assert(t[i] == ns[i]);
            assert(ns_linked(ns, sc, i));
        } else if i > k {
            assert(t[i] == ns[i - 1]);
            assert(ns_linked(ns, sc, i - 1));
        }
    }
    assert forall|j: int| 0 <= j < sc.len() implies #[trigger] sc_linked(t, sc, j) by {
        assert(sc_linked(ns, sc, j));
        if sc[j].namespace_id is Some {
            let i = choose|i: int|
                0 <= i < ns.len() && #[trigger] ns[i].id == sc[j].namespace_id->0 && ns[i].schema_id == Some(sc[j].id);
            if i < k {
                assert(t[i] == ns[i]);
            } else {
                assert(t[i + 1] == ns[i]);
            }
        }
    }
}

/// A schema linked to no namespace can be added: the links stay mirrored.
pub proof fn lemma_insert_schema_keeps_links(
    ns: Seq<Ioam6Namespace>,
    sc: Seq<Ioam6Schema>,
    k: int,
    c: Ioam6Schema,
)
    requires
        links_consistent(ns, sc),
        0 <= k <= sc.len(),
        c.namespace_id is None,
        !sc_has(sc, c.id),
    ensures
        links_consistent(ns, sc.insert(k, c)),
{
    let t = sc.insert(k, c);
    assert forall|j: int| 0 <= j < t.len() implies #[trigger] sc_linked(ns, t, j) by {
        if j < k {
            assert(t[j] == sc[j]);
            assert(sc_linked(ns, sc, j));
        } else if j > k {
            assert(t[j] == sc[j - 1]);
            assert(sc_linked(ns, sc, j - 1));
        }
    }
    assert forall|i: int| 0 <= i < ns.len() implies #[trigger] ns_linked(ns, t, i) by {
        assert(ns_linked(ns, sc, i));
        if ns[i].schema_id is Some {
            let j = choose|j: int|
                0 <= j < sc.len() && #[trigger] sc[j].id == ns[i].schema_id->0 && sc[j].namespace_id == Some(ns[i].id);
            if j < k {
                assert(t[j] == sc[j]);
            } else {
                assert(t[j + 1] == sc[j]);
            }
        }
    }
}

/// A namespace linked to no schema can be removed: the links stay
/// mirrored.
pub proof fn lemma_remove_unlinked_namespace_keeps_links(ns: Seq<Ioam6Namespace>, sc: Seq<Ioam6Schema>, k: int)
    requires
        links_consistent(ns, sc),
        0 <= k < ns.len(),
        ns[k].schema_id is None,
    ensures
        links_consistent(ns.remove(k), sc),
{
    let t = ns.remove(k);
    assert forall|i: int| 0 <= i < t.len() implies #[trigger] ns_linked(t, sc, i) by {
        if i < k {
            assert(t[i] == ns[i]);
            assert(ns_linked(ns, sc, i));
        } else {
            assert(t[i] == ns[i + 1]);
            assert(ns_linked(ns, sc, i + 1));
        }
    }
    assert forall|j: int| 0 <= j < sc.len() implies #[trigger] sc_linked(t, sc, j) by {
        assert(sc_linked(ns, sc, j));
        if sc[j].namespace_id is Some {
            let i = choose|i: int|
                0 <= i < ns.len() && #[trigger] ns[i].id == sc[j].namespace_id->0 && ns[i].schema_id == Some(sc[j].id);
            assert(i != k);
            if i < k {
                assert(t[i] == ns[i]);
            } else {
                assert(t[i - 1] == ns[i]);
            }
        }
    }
}

/// A schema linked to no namespace can be removed: the links stay
/// mirrored.
pub proof fn lemma_remove_unlinked_schema_keeps_links(ns: Seq<Ioam6Namespace>, sc: Seq<Ioam6Schema>, k: int)
    requires
        links_consistent(ns, sc),
        0 <= k < sc.len(),
        sc[k].namespace_id is None,
    ensures
        links_consistent(ns, sc.remove(k)),
{
    let t = sc.remove(k);
    assert forall|j: int| 0 <= j < t.len() implies #[trigger] sc_linked(ns, t, j) by {
        if j < k {
            assert(t[j] == sc[j]);
            assert(sc_linked(ns, sc, j));
        } else {
            assert(t[j] == sc[j + 1]);
            assert(sc_linked(ns, sc, j + 1));
        }
    }
    assert forall|i: int| 0 <= i < ns.len() implies #[trigger] ns_linked(ns, t, i) by {
        assert(ns_linked(ns, sc, i));
        if ns[i].schema_id is Some {
            let j = choose|j: int|
                0 <= j < sc.len() && #[trigger] sc[j].id == ns[i].schema_id->0 && sc[j].namespace_id == Some(ns[i].id);
            assert(j != k);
            if j < k {
                assert(t[j] == sc[j]);
            } else {
                assert(t[j - 1] == sc[j]);
            }
        }
    }
}

/// Unlinking namespace `nid` from its schema, on both sides, keeps the
/// links mirrored.
pub proof fn lemma_unlink_namespace_keeps_links(ns: Seq<Ioam6Namespace>, sc: Seq<Ioam6Schema>, nid: u16)
    requires
        ns_sorted(ns),
        sc_sorted(sc),
        links_consistent(ns, sc),
        ns_has(ns, nid),
    ensures
        links_consistent(ns_set_schema(ns, nid, None), sc_unlink(sc, ns_get(ns, nid).schema_id)),
{
    let a = choose|a: int| 0 <= a < ns.len() && ns[a].id == nid;
    lemma_ns_get(ns, a);
    let old_s = ns[a].schema_id;
    let t = ns_set_schema(ns, nid, None);
    let u = sc_unlink(sc, old_s);
    assert(ns_linked(ns, sc, a));
    assert forall|i: int| 0 <= i < t.len() implies #[trigger] ns_linked(t, u, i) by {
        if i != a {
            assert(ns[i].id != nid);
            assert(t[i] == ns[i]);
            assert(ns_linked(ns, sc, i));
            if ns[i].schema_id is Some {
                let sid = ns[i].schema_id->0;
                let j = choose|j: int|
                    0 <= j < sc.len() && #[trigger] sc[j].id == sid && sc[j].namespace_id == Some(ns[i].id);
                if old_s == Some(sid) {
                    let j2 = choose|j2: int|
                        0 <= j2 < sc.len() && #[trigger] sc[j2].id == sid && sc[j2].namespace_id == Some(nid);
                    assert(j == j2);
                    assert(false);
                }
                assert(u[j] == sc[j]);
            }
        }
    }
    assert forall|j: int| 0 <= j < u.len() implies #[trigger] sc_linked(t, u, j) by {
        assert(sc_linked(ns, sc, j));
        if u[j].namespace_id is Some {
            assert(u[j] == sc[j]);
            let m = sc[j].namespace_id->0;
            let i = choose|i: int| 0 <= i < ns.len() && #[trigger] ns[i].id == m && ns[i].schema_id == Some(sc[j].id);
            assert(i != a);
            assert(t[i] == ns[i]);
        }
    }
}

/// Unlinking schema `sid` from its namespace, on both sides, keeps the
/// links mirrored.
pub proof fn lemma_unlink_schema_keeps_links(ns: Seq<Ioam6Namespace>, sc: Seq<Ioam6Schema>, sid: u32)
    requires
        ns_sorted(ns),
        sc_sorted(sc),
        links_consistent(ns, sc),
        sc_has(sc, sid),
    ensures
        links_consistent(ns_unlink(ns, sc_get(sc, sid).namespace_id), sc_set_ns(sc, sid, None)),
{
    let b = choose|b: int| 0 <= b < sc.len() && sc[b].id == sid;
    lemma_sc_get(sc, b);
    let old_n = sc[b].namespace_id;
    let t = ns_unlink(ns, old_n);
    let u = sc_set_ns(sc, sid, None);
    assert(sc_linked(ns, sc, b));
    assert forall|j: int| 0 <= j < u.len() implies #[trigger] sc_linked(t, u, j) by {
        if j != b {
            assert(sc[j].id != sid);
            assert(u[j] == sc[j]);
            assert(sc_linked(ns, sc, j));
            if sc[j].namespace_id is Some {
                let nid = sc[j].namespace_id->0;
                let i = choose|i: int|
                    0 <= i < ns.len() && #[trigger] ns[i].id == nid && ns[i].schema_id == Some(sc[j].id);
                if old_n == Some(nid) {
                    let i2 = choose|i2: int|
                        0 <= i2 < ns.len() && #[trigger] ns[i2].id == nid && ns[i2].schema_id == Some(sid);
                    assert(i == i2);
                    assert(false);
                }
                assert(t[i] == ns[i]);
            }
        }
    }
    assert forall|i: int| 0 <= i < t.len() implies #[trigger] ns_linked(t, u, i) by {
        assert(ns_linked(ns, sc, i));
        if t[i].schema_id is Some {
            assert(t[i] == ns[i]);
            let s = ns[i].schema_id->0;
            let j = choose|j: int| 0 <= j < sc.len() && #[trigger] sc[j].id == s && sc[j].namespace_id == Some(ns[i].id);
            assert(j != b);
            assert(u[j] == sc[j]);
        }
    }
}

/// Linking an unlinked namespace and an unlinked schema to each other
/// keeps the links mirrored.
pub proof fn lemma_link_keeps_links(ns: Seq<Ioam6Namespace>, sc: Seq<Ioam6Schema>, nid: u16, sid: u32)
    requires
        ns_sorted(ns),
        sc_sorted(sc),
        links_consistent(ns, sc),
        ns_has(ns, nid),
        ns_get(ns, nid).schema_id is None,
        sc_has(sc, sid),
        sc_get(sc, sid).namespace_id is None,
    ensures
        links_consistent(ns_set_schema(ns, nid, Some(sid)), sc_set_ns(sc, sid, Some(nid))),
{
    let a = choose|a: int| 0 <= a < ns.len() && ns[a].id == nid;
    lemma_ns_get(ns, a);
    let b = choose|b: int| 0 <= b < sc.len() && sc[b].id == sid;
    lemma_sc_get(sc, b);
    let t = ns_set_schema(ns, nid, Some(sid));
    let u = sc_set_ns(sc, sid, Some(nid));
    assert forall|i: int| 0 <= i < t.len() implies #[trigger] ns_linked(t, u, i) by {
        if i == a {
            assert(u[b].id == sid);
        } else {
            assert(ns[i].id != nid);
            assert(t[i] == ns[i]);
            assert(ns_linked(ns, sc, i));
            if ns[i].schema_id is Some {
                let s = ns[i].schema_id->0;
                let j = choose|j: int|
                    0 <= j < sc.len() && #[trigger] sc[j].id == s && sc[j].namespace_id == Some(ns[i].id);
                assert(j != b);
                assert(u[j] == sc[j]);
            }
        }
    }
    assert forall|j: int| 0 <= j < u.len() implies #[trigger] sc_linked(t, u, j) by {
        if j == b {
            assert(t[a].id == nid);
        } else {
            assert(sc[j].id != sid);
            assert(u[j] == sc[j]);
            assert(sc_linked(ns, sc, j));
            if sc[j].namespace_id is Some {
                let m = sc[j].namespace_id->0;
                let i = choose|i: int| 0 <= i < ns.len() && #[trigger] ns[i].id == m && ns[i].schema_id == Some(sc[j].id);
                assert(i != a);
                assert(t[i] == ns[i]);
            }
        }
    }
}

/// Linking namespace `nid` to schema `schema_id` (or unlinking it) keeps
/// the links mirrored.
pub proof fn lemma_set_schema_keeps_links(
    ns: Seq<Ioam6Namespace>,
    sc: Seq<Ioam6Schema>,
    nid: u16,
    schema_id: Option<u32>,
)
    requires
        ns_sorted(ns),
        sc_sorted(sc),
        links_consistent(ns, sc),
        ns_has(ns, nid),
        schema_id matches Some(sid) ==> sc_has(sc, sid),
    ensures
        links_consistent(set_schema_tables(ns, sc, nid, schema_id).0, set_schema_tables(ns, sc, nid, schema_id).1),
{
    lemma_unlink_namespace_keeps_links(ns, sc, nid);
    let ns_a = ns_set_schema(ns, nid, None);
    let sc1 = sc_unlink(sc, ns_get(ns, nid).schema_id);
    match schema_id {
        None => {},
        Some(sid) => {
            lemma_ns_set_schema_keeps(ns, nid, None);
            match ns_get(ns, nid).schema_id {
                Some(x) => lemma_sc_set_ns_keeps(sc, x, None),
                None => {},
            }
            lemma_unlink_schema_keeps_links(ns_a, sc1, sid);
            let x = sc_get(sc1, sid).namespace_id;
            let ns_b = ns_unlink(ns_a, x);
            let sc_b = sc_set_ns(sc1, sid, None);
            match x {
                Some(m) => lemma_ns_set_schema_keeps(ns_a, m, None),
                None => {},
            }
            lemma_sc_set_ns_keeps(sc1, sid, None);
            let a = choose|a: int| 0 <= a < ns.len() && ns[a].id == nid;
            assert(ns_b[a].id == nid);
            assert(ns_b[a].schema_id is None);
            lemma_ns_get(ns_b, a);
            let b = choose|b: int| 0 <= b < sc1.len() && sc1[b].id == sid;
            assert(sc_b[b].id == sid);
            lemma_sc_get(sc_b, b);
            lemma_link_keeps_links(ns_b, sc_b, nid, sid);
            assert(ns_set_schema(ns_b, nid, Some(sid)) =~= ns_set_schema(ns_unlink(ns, x), nid, Some(sid)));
            assert(sc_set_ns(sc_b, sid, Some(nid)) =~= sc_set_ns(sc1, sid, Some(nid)));
        },
    }
}

} // verus!
