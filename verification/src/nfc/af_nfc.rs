//! NFC protocol-family registration table.
use vstd::prelude::*;

use crate::errno::{EAFNOSUPPORT, EBUSY, EINVAL, EPROTONOSUPPORT};

verus! {

pub const NFC_SOCKPROTO_MAX: usize = 2;
pub const PF_NFC: u16 = 39;

/// A protocol registered with the family, with the outcomes its hooks give.
#[derive(Clone, Copy, Debug, PartialEq, Eq)]
pub struct NfcProtocol {
    pub id: i32,
    pub create_errno: i32,
    pub proto_register_errno: i32,
}

/// The protocol table: one slot per protocol number.
#[derive(Clone, Copy, Debug, PartialEq, Eq)]
pub struct NfcProtoTable {
    slots: [Option<NfcProtocol>; 2],
}

/// Socket-family operations registered for PF_NFC.
#[derive(Clone, Copy, Debug, PartialEq, Eq)]
pub struct NfcFamilyOps {
    pub family: u16,
    pub create: &'static str,
}

/// The protocol number is a valid table index.
pub open spec fn nfc_proto_in_range(proto: i32) -> bool {
    0 <= proto < NFC_SOCKPROTO_MAX
}

impl View for NfcProtoTable {
    type V = Seq<Option<NfcProtocol>>;

    closed spec fn view(&self) -> Seq<Option<NfcProtocol>> {
        self.slots@
    }
}

impl NfcProtoTable {
    /// The number of slots is fixed.
    pub proof fn lemma_view_len(&self)
        ensures
            self@.len() == NFC_SOCKPROTO_MAX,
    {
    }

    /// An empty table.
    pub fn new() -> (r: Self)
        ensures
            r@ == seq![None::<NfcProtocol>, None::<NfcProtocol>],
    {
        let r = NfcProtoTable { slots: [None, None] };
        assert(r.slots@ =~= seq![None::<NfcProtocol>, None::<NfcProtocol>]);
        r
    }

    /// Installs `proto` in its slot; fails on a bad number, a failing
    /// protocol registration or an occupied slot.
    pub fn nfc_proto_register(&mut self, proto: NfcProtocol) -> (r: Result<(), i32>)
        ensures
            old(self)@.len() == NFC_SOCKPROTO_MAX,
            !nfc_proto_in_range(proto.id) ==> r == Err::<(), i32>((-EINVAL) as i32),
            nfc_proto_in_range(proto.id) && proto.proto_register_errno != 0 ==> r == Err::<(), i32>(proto.proto_register_errno),
            nfc_proto_in_range(proto.id) && proto.proto_register_errno == 0 && old(self)@[proto.id as int] is Some
                ==> r == Err::<(), i32>((-EBUSY) as i32),
            nfc_proto_in_range(proto.id) && proto.proto_register_errno == 0 && old(self)@[proto.id as int] is None
                ==> r is Ok && final(self)@ == old(self)@.update(proto.id as int, Some(proto)),
            r is Err ==> final(self)@ == old(self)@,
    {
        let index = match nfc_proto_index(proto.id) {
            Ok(i) => i,
            Err(e) => return Err(e),
        };
        if proto.proto_register_errno != 0 {
            return Err(proto.proto_register_errno);
        }
        if self.slots[index].is_some() {
            return Err(-EBUSY);
        }
        self.slots.set(index, Some(proto));
        Ok(())
    }

    /// Empties the slot of `proto`, if its number is valid.
    pub fn nfc_proto_unregister(&mut self, proto: NfcProtocol)
        ensures
            nfc_proto_in_range(proto.id) ==> final(self)@ == old(self)@.update(proto.id as int, None),
            !nfc_proto_in_range(proto.id) ==> final(self)@ == old(self)@,
    {
        if let Ok(index) = nfc_proto_index(proto.id) {
            self.slots.set(index, None);
        }
    }

    /// Creates a socket of protocol `proto` in the initial namespace.
    pub fn nfc_sock_create(&self, init_net: bool, proto: i32, module_get_ok: bool) -> (r: Result<(), i32>)
        ensures
            !init_net ==> r == Err::<(), i32>((-EAFNOSUPPORT) as i32),
            init_net && !nfc_proto_in_range(proto) ==> r == Err::<(), i32>((-EINVAL) as i32),
            init_net && nfc_proto_in_range(proto) ==> r == match self@[proto as int] {
                Some(p) => if module_get_ok {
                    if p.create_errno == 0 { Ok::<(), i32>(()) } else { Err(p.create_errno) }
                } else {
                    Err((-EPROTONOSUPPORT) as i32)
                },
                None => Err((-EPROTONOSUPPORT) as i32),
            },
    {
        if !init_net {
            return Err(-EAFNOSUPPORT);
        }
        let index = match nfc_proto_index(proto) {
            Ok(i) => i,
            Err(e) => return Err(e),
        };
        match self.slots[index] {
            Some(protocol) => {
                if module_get_ok {
                    if protocol.create_errno == 0 {
                        Ok(())
                    } else {
                        Err(protocol.create_errno)
                    }
                } else {
                    Err(-EPROTONOSUPPORT)
                }
            },
            None => Err(-EPROTONOSUPPORT),
        }
    }
}

/// The family operations handed to the socket layer.
pub fn af_nfc_init() -> (r: NfcFamilyOps)
    ensures
        r.family == PF_NFC && r.create == "nfc_sock_create",
{
    NfcFamilyOps { family: PF_NFC, create: "nfc_sock_create" }
}

fn nfc_proto_index(proto: i32) -> (r: Result<usize, i32>)
    ensures
        nfc_proto_in_range(proto) ==> r == Ok::<usize, i32>(proto as usize),
        !nfc_proto_in_range(proto) ==> r == Err::<usize, i32>((-EINVAL) as i32),
{
    if proto < 0 || proto as usize >= NFC_SOCKPROTO_MAX {
        Err(-EINVAL)
    } else {
        Ok(proto as usize)
    }
}

} // verus!
