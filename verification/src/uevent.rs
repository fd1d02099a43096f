//! `NETLINK_KOBJECT_UEVENT` messages in the Linux wire format (a legacy
//! `ACTION@DEVPATH` header, then NUL-terminated `KEY=value` records), the
//! sequence counter, and the bounded queue of broadcasts kept for
//! listeners that attach later.
use vstd::prelude::*;
use vstd::string::StringSliceAdditionalSpecFns;
use vstd::utf8::encode_utf8;

use std::collections::VecDeque;

use crate::decimal::{decimal, decimal_string};
use crate::ip::push_bytes;

verus! {

/// The number of broadcasts kept; past it the oldest is dropped.
pub const QUEUE_HIGH_WATERMARK: usize = 1024;

/// A kobject action.
#[derive(Clone, Copy, Debug, PartialEq, Eq, Structural)]
pub enum UeventAction {
    Add,
    Remove,
    Change,
    Online,
    Offline,
    Move,
    Bind,
    Unbind,
}

/// The action's name on the wire.
pub open spec fn action_name(a: UeventAction) -> &'static str {
    match a {
        UeventAction::Add => "add",
        UeventAction::Remove => "remove",
        UeventAction::Change => "change",
        UeventAction::Online => "online",
        UeventAction::Offline => "offline",
        UeventAction::Move => "move",
        UeventAction::Bind => "bind",
        UeventAction::Unbind => "unbind",
    }
}

impl UeventAction {
    /// The action's name on the wire.
    pub fn as_str(self) -> (r: &'static str)
        ensures
            r == action_name(self),
    {
        match self {
            UeventAction::Add => "add",
            UeventAction::Remove => "remove",
            UeventAction::Change => "change",
            UeventAction::Online => "online",
            UeventAction::Offline => "offline",
            UeventAction::Move => "move",
            UeventAction::Bind => "bind",
            UeventAction::Unbind => "unbind",
        }
    }
}

/// One uevent broadcast.
#[derive(Clone, Debug, PartialEq, Eq)]
pub struct UeventMessage {
    pub payload: Vec<u8>,
}

/// The record `KEY=value` and its terminating NUL.
pub open spec fn uevent_record(key: Seq<char>, value: Seq<char>) -> Seq<u8> {
    encode_utf8(key) + seq![61u8] + encode_utf8(value) + seq![0u8]
}

/// The records of `props`, in order.
pub open spec fn uevent_records(props: Seq<(&str, &str)>) -> Seq<u8>
    decreases props.len(),
{
    if props.len() == 0 {
        Seq::empty()
    } else {
        uevent_records(props.drop_last()) + uevent_record(props.last().0@, props.last().1@)
    }
}

/// A message: `ACTION@DEVPATH` and a NUL, the ACTION and DEVPATH records,
/// then one record per property.
pub open spec fn uevent_payload(action: UeventAction, devpath: Seq<char>, props: Seq<(&str, &str)>) -> Seq<u8> {
    encode_utf8(action_name(action)@) + seq![64u8] + encode_utf8(devpath) + seq![0u8]
        + uevent_record("ACTION"@, action_name(action)@)
        + uevent_record("DEVPATH"@, devpath)
        + uevent_records(props)
}

fn push_record(buf: &mut Vec<u8>, key: &str, value: &str)
    ensures
        final(buf)@ == old(buf)@ + uevent_record(key@, value@),
{
    push_bytes(buf, key.as_bytes());
    buf.push(61);
    push_bytes(buf, value.as_bytes());
    buf.push(0);
    assert(buf@ =~= old(buf)@ + uevent_record(key@, value@));
}

impl UeventMessage {
    /// Builds the message for `action` on the kobject at `devpath` with
    /// `properties`; see `uevent_payload`.
    pub fn build(action: UeventAction, devpath: &str, properties: &[(&str, &str)]) -> (r: Self)
        ensures
            r.payload@ == uevent_payload(action, devpath@, properties@),
    {
        let mut payload: Vec<u8> = Vec::new();
        push_bytes(&mut payload, action.as_str().as_bytes());
        payload.push(64);
        push_bytes(&mut payload, devpath.as_bytes());
        payload.push(0);
        push_record(&mut payload, "ACTION", action.as_str());
        push_record(&mut payload, "DEVPATH", devpath);
        let ghost head = payload@;
        let mut i: usize = 0;
        while i < properties.len()
            invariant
                i <= properties@.len(),
                payload@ == head + uevent_records(properties@.subrange(0, i as int)),
            decreases properties@.len() - i,
        {
            let (k, v) = properties[i];
            push_record(&mut payload, k, v);
            i += 1;
            assert(properties@.subrange(0, i as int).drop_last() =~= properties@.subrange(0, i - 1));
            assert(payload@ =~= head + uevent_records(properties@.subrange(0, i as int)));
        }
        assert(properties@.subrange(0, i as int) =~= properties@);
        assert(payload@ =~= uevent_payload(action, devpath@, properties@));
        UeventMessage { payload }
    }
}

fn copy_message(m: &UeventMessage) -> (r: UeventMessage)
    ensures
        r.payload@ == m.payload@,
{
    let mut payload: Vec<u8> = Vec::new();
    push_bytes(&mut payload, m.payload.as_slice());
    UeventMessage { payload }
}

/// The sequence counter and the broadcasts pending for listeners, oldest
/// first.
pub struct UeventQueue {
    pub seqnum: u64,
    pub pending: VecDeque<UeventMessage>,
}

impl UeventQueue {
    /// The pending payloads, oldest first.
    pub open spec fn pending_payloads(&self) -> Seq<Seq<u8>> {
        self.pending@.map_values(|m: UeventMessage| m.payload@)
    }

    /// At most `QUEUE_HIGH_WATERMARK` broadcasts are pending.
    pub open spec fn wf(&self) -> bool {
        self.pending@.len() <= QUEUE_HIGH_WATERMARK
    }

    /// No broadcast yet.
    pub fn new() -> (r: Self)
        ensures
            r.wf(),
            r.seqnum == 0,
            r.pending_payloads() == Seq::<Seq<u8>>::empty(),
    {
        let r = UeventQueue { seqnum: 0, pending: VecDeque::new() };
        assert(r.pending_payloads() =~= Seq::<Seq<u8>>::empty());
        r
    }
}

/// The current sequence number, not advancing it.
pub fn current_seqnum(queue: &UeventQueue) -> (r: u64)
    ensures
        r == queue.seqnum,
{
    queue.seqnum
}

/// The payload as broadcast with sequence number `seqnum`: the message and
/// a `SEQNUM` record.
pub open spec fn sequenced(payload: Seq<u8>, seqnum: u64) -> Seq<u8> {
    payload + uevent_record("SEQNUM"@, decimal(seqnum as nat))
}

/// The pending broadcasts after queueing `payload`: the oldest is dropped
/// when the queue is full.
pub open spec fn queued(pending: Seq<Seq<u8>>, payload: Seq<u8>) -> Seq<Seq<u8>> {
    if pending.len() >= QUEUE_HIGH_WATERMARK {
        pending.drop_first().push(payload)
    } else {
        pending.push(payload)
    }
}

/// Broadcasts `msg`: the sequence number advances (wrapping), the message
/// gets its `SEQNUM` record and is queued (see `queued`), and is returned
/// for delivery to the listeners bound now.
pub fn broadcast_uevent(queue: &mut UeventQueue, msg: UeventMessage) -> (r: UeventMessage)
    requires
        old(queue).wf(),
    ensures
        final(queue).wf(),
        final(queue).seqnum == old(queue).seqnum.wrapping_add(1),
        r.payload@ == sequenced(msg.payload@, final(queue).seqnum),
        final(queue).pending_payloads() == queued(old(queue).pending_payloads(), r.payload@),
{
    let mut m = msg;
    let seqnum = queue.seqnum.wrapping_add(1);
    queue.seqnum = seqnum;
    let text = decimal_string(seqnum);
    push_record(&mut m.payload, "SEQNUM", text.as_str());
    let ghost before = queue.pending_payloads();
    if queue.pending.len() >= QUEUE_HIGH_WATERMARK {
        let _ = queue.pending.pop_front();
    }
    let out = copy_message(&m);
    queue.pending.push_back(m);
    assert(queue.pending_payloads() =~= queued(before, out.payload@));
    out
}

/// Takes every pending broadcast, oldest first, leaving none.
pub fn drain_pending(queue: &mut UeventQueue) -> (r: Vec<UeventMessage>)
    requires
        old(queue).wf(),
    ensures
        final(queue).wf(),
        final(queue).seqnum == old(queue).seqnum,
        final(queue).pending_payloads() == Seq::<Seq<u8>>::empty(),
        r@.map_values(|m: UeventMessage| m.payload@) == old(queue).pending_payloads(),
{
    let mut out: Vec<UeventMessage> = Vec::new();
    let ghost all = queue.pending_payloads();
    while queue.pending.len() > 0
        invariant
            queue.seqnum == old(queue).seqnum,
            out@.map_values(|m: UeventMessage| m.payload@) + queue.pending_payloads() == all,
        decreases queue.pending@.len(),
    {
        let ghost before = queue.pending_payloads();
        match queue.pending.pop_front() {
            Some(m) => {
                let ghost prev = out@.map_values(|m: UeventMessage| m.payload@);
                out.push(m);
                assert(out@.map_values(|m: UeventMessage| m.payload@) =~= prev.push(before[0]));
                assert(queue.pending_payloads() =~= before.drop_first());
                assert(prev.push(before[0]) + before.drop_first() =~= prev + before);
            },
            None => {},
        }
    }
    assert(queue.pending_payloads() =~= Seq::<Seq<u8>>::empty());
    assert(out@.map_values(|m: UeventMessage| m.payload@) =~= all);
    out
}

/// Copies of the pending broadcasts, oldest first, leaving them queued.
pub fn pending_snapshot(queue: &UeventQueue) -> (r: Vec<UeventMessage>)
    ensures
        r@.map_values(|m: UeventMessage| m.payload@) == queue.pending_payloads(),
{
    let mut out: Vec<UeventMessage> = Vec::new();
    let mut i: usize = 0;
    while i < queue.pending.len()
        invariant
            i <= queue.pending@.len(),
            out@.map_values(|m: UeventMessage| m.payload@) == queue.pending_payloads().subrange(0, i as int),
        decreases queue.pending@.len() - i,
    {
        let m = copy_message(&queue.pending[i]);
        let ghost prev = out@.map_values(|m: UeventMessage| m.payload@);
        out.push(m);
        i += 1;
        assert(out@.map_values(|m: UeventMessage| m.payload@) =~= prev.push(queue.pending_payloads()[i - 1]));
        assert(out@.map_values(|m: UeventMessage| m.payload@) =~= queue.pending_payloads().subrange(0, i as int));
    }
    assert(queue.pending_payloads().subrange(0, i as int) =~= queue.pending_payloads());
    out
}

/// `/class/<class>/<name>`.
pub open spec fn class_devpath(class: Seq<char>, name: Seq<char>) -> Seq<char> {
    "/class/"@ + class + "/"@ + name
}

/// Announces a device added under `/sys/class/<class>/`: an `add` message
/// for `/class/<class>/<name>` with its subsystem, device name and major
/// and minor 0, broadcast (see `broadcast_uevent`); returns what was
/// broadcast.
pub fn announce_class_device(queue: &mut UeventQueue, class: &str, name: &str, subsystem: &str, devname: &str) -> (r: UeventMessage)
    requires
        old(queue).wf(),
    ensures
        final(queue).wf(),
        final(queue).seqnum == old(queue).seqnum.wrapping_add(1),
        r.payload@ == sequenced(
            uevent_payload(
                UeventAction::Add,
                class_devpath(class@, name@),
                seq![("SUBSYSTEM", subsystem), ("DEVNAME", devname), ("MAJOR", "0"), ("MINOR", "0")],
            ),
            final(queue).seqnum,
        ),
        final(queue).pending_payloads() == queued(old(queue).pending_payloads(), r.payload@),
{
    let mut devpath = String::from_str("/class/");
    devpath.append(class);
    devpath.append("/");
    devpath.append(name);
    let props = [("SUBSYSTEM", subsystem), ("DEVNAME", devname), ("MAJOR", "0"), ("MINOR", "0")];
    assert(props@ =~= seq![("SUBSYSTEM", subsystem), ("DEVNAME", devname), ("MAJOR", "0"), ("MINOR", "0")]);
    let msg = UeventMessage::build(UeventAction::Add, devpath.as_str(), &props);
    broadcast_uevent(queue, msg)
}

/// `/devices/virtual/net/<ifname>`.
pub open spec fn netdev_devpath(ifname: Seq<char>) -> Seq<char> {
    "/devices/virtual/net/"@ + ifname
}

/// Announces a network device event: a message for
/// `/devices/virtual/net/<ifname>` with subsystem `net`, the interface name
/// and its index in decimal, broadcast (see `broadcast_uevent`); returns
/// what was broadcast.
pub fn announce_netdevice(queue: &mut UeventQueue, action: UeventAction, ifname: &str, ifindex: u32) -> (r: UeventMessage)
    requires
        old(queue).wf(),
    ensures
        final(queue).wf(),
        final(queue).seqnum == old(queue).seqnum.wrapping_add(1),
        exists|idx: &str| idx@ == decimal(ifindex as nat) && r.payload@ == sequenced(
            uevent_payload(action, netdev_devpath(ifname@), seq![("SUBSYSTEM", "net"), ("INTERFACE", ifname), ("IFINDEX", idx)]),
            final(queue).seqnum,
        ),
        final(queue).pending_payloads() == queued(old(queue).pending_payloads(), r.payload@),
{
    let mut devpath = String::from_str("/devices/virtual/net/");
    devpath.append(ifname);
    let idx = decimal_string(ifindex as u64);
    let idx_str = idx.as_str();
    let props = [("SUBSYSTEM", "net"), ("INTERFACE", ifname), ("IFINDEX", idx_str)];
    assert(props@ =~= seq![("SUBSYSTEM", "net"), ("INTERFACE", ifname), ("IFINDEX", idx_str)]);
    let msg = UeventMessage::build(action, devpath.as_str(), &props);
    broadcast_uevent(queue, msg)
}

/// Each action goes on the wire under its Linux kobject action name, so
/// distinct actions have distinct names.
pub proof fn lemma_action_names_are_kobject_actions(a: UeventAction, b: UeventAction)
    ensures
        a == UeventAction::Add ==> action_name(a)@ == "add"@,
        a == UeventAction::Remove ==> action_name(a)@ == "remove"@,
        a == UeventAction::Change ==> action_name(a)@ == "change"@,
        a == UeventAction::Online ==> action_name(a)@ == "online"@,
        a == UeventAction::Offline ==> action_name(a)@ == "offline"@,
        a == UeventAction::Move ==> action_name(a)@ == "move"@,
        a == UeventAction::Bind ==> action_name(a)@ == "bind"@,
        a == UeventAction::Unbind ==> action_name(a)@ == "unbind"@,
        a != b ==> action_name(a)@ != action_name(b)@,
{
    reveal_strlit("add");
    reveal_strlit("remove");
    reveal_strlit("change");
    reveal_strlit("online");
    reveal_strlit("offline");
    reveal_strlit("move");
    reveal_strlit("bind");
    reveal_strlit("unbind");
    if a != b {
        let x = action_name(a)@;
        let y = action_name(b)@;
        if x.len() == y.len() {
            assert(x[0] != y[0] || x[1] != y[1]);
        }
    }
}

/// A message starts with its legacy header, the action's name, `@`, the
/// device path and a NUL, followed by the ACTION record naming the same
/// action.
pub proof fn lemma_uevent_payload_names_action(action: UeventAction, devpath: Seq<char>, props: Seq<(&str, &str)>)
    ensures
        ({
            let head = encode_utf8(action_name(action)@) + seq![64u8] + encode_utf8(devpath) + seq![0u8];
            let p = uevent_payload(action, devpath, props);
            &&& p.subrange(0, head.len() as int) == head
            &&& p.subrange(head.len() as int, (head.len() + uevent_record("ACTION"@, action_name(action)@).len()) as int)
                == uevent_record("ACTION"@, action_name(action)@)
        }),
{
    let head = encode_utf8(action_name(action)@) + seq![64u8] + encode_utf8(devpath) + seq![0u8];
    let rec = uevent_record("ACTION"@, action_name(action)@);
    let rest = uevent_record("DEVPATH"@, devpath) + uevent_records(props);
    let p = uevent_payload(action, devpath, props);
    assert(p =~= head + rec + rest);
    assert(p.subrange(0, head.len() as int) =~= head);
    assert(p.subrange(head.len() as int, (head.len() + rec.len()) as int) =~= rec);
}

} // verus!
