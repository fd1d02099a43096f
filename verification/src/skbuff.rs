//! Socket buffers: packet bytes live in `data..tail` of a shared buffer, with
//! headroom before `data` and tailroom after `tail`; clones share the buffer
//! and copy it before they write to it.
use vstd::prelude::*;

use std::sync::Arc;

use crate::errno::{EINVAL, ENOMEM, ENOSPC};

verus! {

pub const SKB_CB_LEN: usize = 48;

/// Segmentation metadata carried alongside the packet.
#[derive(Clone, Copy, Debug, Default, PartialEq, Eq)]
pub struct SkbSharedInfo {
    pub nr_frags: u8,
    pub gso_size: u16,
    pub gso_type: u16,
    pub tx_flags: u32,
}

/// The bytes behind a packet buffer, shared between clones.
#[derive(Clone)]
pub struct SkbData {
    bytes: Arc<Vec<u8>>,
}

impl View for SkbData {
    type V = Seq<u8>;

    closed spec fn view(&self) -> Seq<u8> {
        (*self.bytes)@
    }
}

impl SkbData {
    /// The `len` bytes from `start` on, writable: the bytes become this
    /// handle's own first when another handle shares them.
    fn bytes_mut(&mut self, start: usize, len: usize) -> (r: &mut [u8])
        requires
            start + len <= old(self)@.len(),
        ensures
            r@ == old(self)@.subrange(start as int, start + len),
            final(self)@ == old(self)@.subrange(0, start as int) + final(r)@ + old(self)@.subrange(
                start + len,
                old(self)@.len() as int,
            ),
    {
        let v = arc_make_mut(&mut self.bytes);
        let s = v.as_mut_slice();
        let (_, rest) = s.split_at_mut(start);
        let (mid, _) = rest.split_at_mut(len);
        mid
    }
}

/// A packet buffer.
pub struct SkBuff {
    pub storage: SkbData,
    pub head: usize,
    pub data: usize,
    pub tail: usize,
    pub end: usize,
    pub len: usize,
    pub data_len: usize,
    pub truesize: usize,
    pub cb: [u8; 48],
    pub shared_info: SkbSharedInfo,
    pub frag_list: Option<Box<SkBuff>>,
}

/// `Arc::strong_count` on a packet buffer: how many buffers share it.
#[verifier::external_body]
fn arc_strong_count(a: &Arc<Vec<u8>>) -> (r: usize)
    ensures
        r >= 1,
{
    Arc::strong_count(a)
}

/// `Arc::make_mut` on a packet buffer: a mutable reference to its bytes,
/// copied first into a buffer of this handle's own when another handle
/// shares them. The bytes seen through the reference are those the handle
/// held, and the handle holds afterwards whatever was written through it.
#[verifier::external_body]
fn arc_make_mut(a: &mut Arc<Vec<u8>>) -> (r: &mut Vec<u8>)
    ensures
        r@ == (**old(a))@,
        (**final(a))@ == final(r)@,
{
    Arc::make_mut(a)
}

/// `Arc::clone` on a packet buffer: a second handle to the same bytes.
#[verifier::external_body]
fn arc_clone(a: &Arc<Vec<u8>>) -> (r: Arc<Vec<u8>>)
    ensures
        (*r)@ == (**a)@,
{
    Arc::clone(a)
}

/// `Vec::try_reserve_exact` on a byte vector. The contents are unchanged
/// either way; asking for no more room does nothing and succeeds, as the
/// capacity already suffices. Otherwise the allocator decides whether it
/// succeeds, and no clause states that outcome.
#[verifier::external_body]
pub(crate) fn vec_try_reserve_exact(v: &mut Vec<u8>, additional: usize) -> (r: Result<(), ()>)
    ensures
        final(v)@ == old(v)@,
        additional == 0 ==> r is Ok,
{
    v.try_reserve_exact(additional).map_err(|_| ())
}

/// A vector of `n` zero bytes, or `None` when the allocator refuses; an
/// empty vector needs no allocation and is always given.
pub(crate) fn try_alloc_zeroed(n: usize) -> (r: Option<Vec<u8>>)
    ensures
        r matches Some(v) ==> v@ == Seq::new(n as nat, |i: int| 0u8),
        n == 0 ==> r is Some,
{
    let mut v: Vec<u8> = Vec::new();
    if vec_try_reserve_exact(&mut v, n).is_err() {
        return None;
    }
    let mut i: usize = 0;
    while i < n
        invariant
            i <= n,
            v@ == Seq::new(i as nat, |j: int| 0u8),
        decreases n - i,
    {
        v.push(0);
        i += 1;
        assert(v@ =~= Seq::new(i as nat, |j: int| 0u8));
    }
    Some(v)
}

impl View for SkBuff {
    type V = Seq<u8>;

    /// The packet bytes, `data..tail` of the buffer.
    open spec fn view(&self) -> Seq<u8> {
        self.storage@.subrange(self.data as int, self.tail as int)
    }
}

impl SkBuff {
    /// The whole underlying buffer, head room and tail room included.
    pub open spec fn buffer(&self) -> Seq<u8> {
        self.storage@
    }

    /// The offsets are ordered inside the buffer and `len` is the packet length.
    pub open spec fn wf(&self) -> bool {
        &&& self.head <= self.data <= self.tail <= self.end
        &&& self.end == self.buffer().len()
        &&& self.len == self.tail - self.data
    }

    /// Whether the offsets are ordered inside the buffer and `len` is the
    /// packet length.
    pub fn is_wf(&self) -> (r: bool)
        ensures
            r == self.wf(),
    {
        self.head <= self.data && self.data <= self.tail && self.tail <= self.end
            && self.end == self.storage.bytes.len() && self.len == self.tail - self.data
    }

    /// Bytes available before the packet.
    pub fn headroom(&self) -> (r: usize)
        requires
            self.wf(),
        ensures
            r == self.data - self.head,
    {
        self.data - self.head
    }

    /// Bytes available after the packet.
    pub fn tailroom(&self) -> (r: usize)
        requires
            self.wf(),
        ensures
            r == self.end - self.tail,
    {
        self.end - self.tail
    }

    /// Whether another buffer shares the bytes (which one sees depends on
    /// how many clones are alive, so no clause states the result).
    pub fn cloned(&self) -> bool {
        arc_strong_count(&self.storage.bytes) > 1
    }

    /// The packet bytes.
    pub fn data(&self) -> (r: &[u8])
        requires
            self.wf(),
        ensures
            r@ == self@,
    {
        let bytes: &[u8] = self.storage.bytes.as_slice();
        &bytes[self.data..self.tail]
    }

    /// The packet bytes, writable: they become this buffer's own first when
    /// another buffer shares them. Afterwards the buffer holds whatever was
    /// written through the slice in place of the packet bytes.
    pub fn data_mut(&mut self) -> (r: &mut [u8])
        requires
            old(self).wf(),
        ensures
            r@ == old(self)@,
            final(self).buffer() == old(self).buffer().subrange(0, old(self).data as int) + final(r)@
                + old(self).buffer().subrange(old(self).tail as int, old(self).end as int),
            final(self).head == old(self).head && final(self).data == old(self).data,
            final(self).tail == old(self).tail && final(self).end == old(self).end,
            final(self).len == old(self).len && final(self).data_len == old(self).data_len,
            final(self).truesize == old(self).truesize && final(self).cb == old(self).cb,
            final(self).shared_info == old(self).shared_info && final(self).frag_list == old(self).frag_list,
            final(r)@.len() == r@.len() ==> final(self).wf() && final(self)@ == final(r)@,
    {
        let start = self.data;
        let len = self.len;
        self.storage.bytes_mut(start, len)
    }
}

/// The bytes a buffer's bookkeeping takes, counted in its `truesize`.
pub open spec fn skb_overhead() -> int {
    vstd::layout::size_of::<SkBuff>() as int
}

/// A fresh buffer of `size` zero bytes with an empty packet at its start;
/// fails with ENOMEM when the allocator refuses, or when the buffer with its
/// bookkeeping would not fit a `usize`. An empty buffer needs no allocation
/// and is always given.
pub fn alloc_skb(size: usize) -> (r: Result<SkBuff, i32>)
    ensures
        r matches Err(e) ==> e == ENOMEM,
        size == 0 ==> r is Ok,
        size > usize::MAX - skb_overhead() ==> r == Err::<SkBuff, i32>(ENOMEM),
        r matches Ok(skb) ==> {
            &&& skb.wf()
            &&& skb.head == 0 && skb.data == 0 && skb.tail == 0 && skb.len == 0
            &&& skb.end == size && skb.data_len == 0
            &&& skb.truesize == skb_overhead() + size
            &&& skb.buffer() == Seq::new(size as nat, |i: int| 0u8)
            &&& skb.shared_info == SkbSharedInfo { nr_frags: 0, gso_size: 0, gso_type: 0, tx_flags: 0 }
            &&& skb.frag_list is None
        },
{
    let storage = match try_alloc_zeroed(size) {
        Some(v) => v,
        None => return Err(ENOMEM),
    };
    let overhead = core::mem::size_of::<SkBuff>();
    let truesize = if size <= usize::MAX - overhead {
        overhead + size
    } else {
        return Err(ENOMEM);
    };
    Ok(SkBuff {
        storage: SkbData { bytes: Arc::new(storage) },
        head: 0,
        data: 0,
        tail: 0,
        end: size,
        len: 0,
        data_len: 0,
        truesize,
        cb: [0u8; 48],
        shared_info: SkbSharedInfo { nr_frags: 0, gso_size: 0, gso_type: 0, tx_flags: 0 },
        frag_list: None,
    })
}

/// Moves an empty packet `len` bytes into the buffer to make headroom.
pub fn skb_reserve(skb: &mut SkBuff, len: usize) -> (r: Result<(), i32>)
    requires
        old(skb).wf(),
    ensures
        final(skb).wf(),
        (old(skb).len != 0 || len > old(skb).end - old(skb).tail) ==> r == Err::<(), i32>(EINVAL) && *final(skb) == *old(skb),
        !(old(skb).len != 0 || len > old(skb).end - old(skb).tail) ==> r is Ok
            && *final(skb) == (SkBuff { data: (old(skb).data + len) as usize, tail: (old(skb).tail + len) as usize, ..*old(skb) }),
{
    if skb.len != 0 || len > skb.tailroom() {
        return Err(EINVAL);
    }
    skb.data = skb.data + len;
    skb.tail = skb.tail + len;
    Ok(())
}

/// Extends the packet by `len` bytes at its tail and hands out those bytes,
/// writable: the buffer's bytes become its own first when another buffer
/// shares them. ENOSPC, changing nothing, when the tailroom is too small.
pub fn skb_put(skb: &mut SkBuff, len: usize) -> (r: Result<&mut [u8], i32>)
    requires
        old(skb).wf(),
    ensures
        len > old(skb).end - old(skb).tail ==> (r matches Err(e) && e == ENOSPC) && *final(skb) == *old(skb),
        len <= old(skb).end - old(skb).tail ==> (r matches Ok(area) && {
            &&& area@ == old(skb).buffer().subrange(old(skb).tail as int, old(skb).tail + len)
            &&& final(skb).buffer() == old(skb).buffer().subrange(0, old(skb).tail as int) + final(area)@
                + old(skb).buffer().subrange(old(skb).tail + len, old(skb).end as int)
            &&& final(skb).head == old(skb).head && final(skb).data == old(skb).data
            &&& final(skb).tail == old(skb).tail + len && final(skb).end == old(skb).end
            &&& final(skb).len == old(skb).len + len && final(skb).data_len == old(skb).data_len
            &&& final(skb).truesize == old(skb).truesize && final(skb).cb == old(skb).cb
            &&& final(skb).shared_info == old(skb).shared_info && final(skb).frag_list == old(skb).frag_list
            &&& final(area)@.len() == len ==> final(skb).wf() && final(skb)@ == old(skb)@ + final(area)@
        }),
{
    if len > skb.tailroom() {
        return Err(ENOSPC);
    }
    let start = skb.tail;
    skb.tail = skb.tail + len;
    skb.len = skb.len + len;
    let area = skb.storage.bytes_mut(start, len);
    Ok(area)
}

/// Extends the packet by `len` bytes at its head and hands out those bytes,
/// writable: the buffer's bytes become its own first when another buffer
/// shares them. ENOSPC, changing nothing, when the headroom is too small.
pub fn skb_push(skb: &mut SkBuff, len: usize) -> (r: Result<&mut [u8], i32>)
    requires
        old(skb).wf(),
    ensures
        len > old(skb).data - old(skb).head ==> (r matches Err(e) && e == ENOSPC) && *final(skb) == *old(skb),
        len <= old(skb).data - old(skb).head ==> (r matches Ok(area) && {
            &&& area@ == old(skb).buffer().subrange(old(skb).data - len, old(skb).data as int)
            &&& final(skb).buffer() == old(skb).buffer().subrange(0, old(skb).data - len) + final(area)@
                + old(skb).buffer().subrange(old(skb).data as int, old(skb).end as int)
            &&& final(skb).head == old(skb).head && final(skb).data == old(skb).data - len
            &&& final(skb).tail == old(skb).tail && final(skb).end == old(skb).end
            &&& final(skb).len == old(skb).len + len && final(skb).data_len == old(skb).data_len
            &&& final(skb).truesize == old(skb).truesize && final(skb).cb == old(skb).cb
            &&& final(skb).shared_info == old(skb).shared_info && final(skb).frag_list == old(skb).frag_list
            &&& final(area)@.len() == len ==> final(skb).wf() && final(skb)@ == final(area)@ + old(skb)@
        }),
{
    if len > skb.headroom() {
        return Err(ENOSPC);
    }
    skb.data = skb.data - len;
    skb.len = skb.len + len;
    let start = skb.data;
    let area = skb.storage.bytes_mut(start, len);
    Ok(area)
}

/// Writes `src` over all of `dst`.
pub(crate) fn copy_into(dst: &mut [u8], src: &[u8])
    requires
        old(dst)@.len() == src@.len(),
    ensures
        final(dst)@ == src@,
{
    let mut i: usize = 0;
    while i < src.len()
        invariant
            i <= src@.len(),
            dst@.len() == src@.len(),
            forall|j: int| 0 <= j < i ==> dst@[j] == src@[j],
        decreases src@.len() - i,
    {
        dst[i] = src[i];
        i += 1;
    }
    assert(dst@ =~= src@);
}

/// Sets every byte of `dst` to zero.
fn fill_zero(dst: &mut [u8])
    ensures
        final(dst)@ == Seq::new(old(dst)@.len(), |i: int| 0u8),
{
    let mut i: usize = 0;
    while i < dst.len()
        invariant
            i <= dst@.len(),
            dst@.len() == old(dst)@.len(),
            forall|j: int| 0 <= j < i ==> dst@[j] == 0u8,
        decreases dst@.len() - i,
    {
        dst[i] = 0;
        i += 1;
    }
    assert(dst@ =~= Seq::new(old(dst)@.len(), |i: int| 0u8));
}

/// Removes `len` bytes from the head of the packet; gives the rest.
pub fn skb_pull(skb: &mut SkBuff, len: usize) -> (r: Result<&[u8], i32>)
    requires
        old(skb).wf(),
    ensures
        final(skb).wf(),
        len > old(skb).len ==> r == Err::<&[u8], i32>(EINVAL) && *final(skb) == *old(skb),
        len <= old(skb).len ==> {
            &&& *final(skb) == (SkBuff { data: (old(skb).data + len) as usize, len: (old(skb).len - len) as usize, ..*old(skb) })
            &&& final(skb)@ == old(skb)@.subrange(len as int, old(skb)@.len() as int)
            &&& r matches Ok(rest) && rest@ == final(skb)@
        },
{
    if len > skb.len {
        return Err(EINVAL);
    }
    skb.data = skb.data + len;
    skb.len = skb.len - len;
    assert(skb@ =~= old(skb)@.subrange(len as int, old(skb)@.len() as int));
    Ok(skb.data())
}

/// Cuts the packet down to its first `len` bytes.
pub fn skb_trim(skb: &mut SkBuff, len: usize) -> (r: Result<(), i32>)
    requires
        old(skb).wf(),
    ensures
        final(skb).wf(),
        len > old(skb).len ==> r == Err::<(), i32>(EINVAL) && *final(skb) == *old(skb),
        len <= old(skb).len ==> {
            &&& r is Ok
            &&& *final(skb) == (SkBuff { tail: (old(skb).data + len) as usize, len: len, ..*old(skb) })
            &&& final(skb)@ == old(skb)@.subrange(0, len as int)
        },
{
    if len > skb.len {
        return Err(EINVAL);
    }
    skb.tail = skb.data + len;
    skb.len = len;
    assert(skb@ =~= old(skb)@.subrange(0, len as int));
    Ok(())
}

/// Appends `pad` zero bytes. When the tailroom is too small the buffer is
/// first grown by the missing bytes; the append then fits only if the old
/// tailroom was empty, and otherwise fails with ENOSPC on the grown buffer.
pub fn skb_pad(skb: &mut SkBuff, pad: usize) -> (r: Result<(), i32>)
    requires
        old(skb).wf(),
    ensures
        final(skb).wf(),
        r is Ok ==> final(skb)@ == old(skb)@ + Seq::new(pad as nat, |i: int| 0u8),
        r is Err ==> final(skb)@ == old(skb)@,
        pad <= old(skb).end - old(skb).tail ==> r is Ok && final(skb).data == old(skb).data
            && final(skb).end == old(skb).end,
        pad > old(skb).end - old(skb).tail && old(skb).end - old(skb).tail > 0 ==> r is Err,
        r matches Err(e) ==> (e == ENOMEM || e == ENOSPC),
        r == Err::<(), i32>(ENOSPC) ==> pad > old(skb).end - old(skb).tail > 0,
        r == Err::<(), i32>(ENOMEM) ==> *final(skb) == *old(skb),
{
    if pad > skb.tailroom() {
        let extra = pad - skb.tailroom();
        match pskb_expand_head(skb, 0, extra) {
            Ok(()) => {},
            Err(e) => return Err(e),
        }
    }
    let ghost before = skb@;
    let out = match skb_put(skb, pad) {
        Ok(out) => out,
        Err(e) => return Err(e),
    };
    fill_zero(out);
    assert(skb@ =~= before + Seq::new(pad as nat, |i: int| 0u8));
    Ok(())
}

fn clone_frag_list(frag: &Option<Box<SkBuff>>) -> (r: Option<Box<SkBuff>>)
    ensures
        r is None <==> frag is None,
    decreases frag,
{
    match frag {
        None => None,
        Some(b) => {
            let inner: &SkBuff = &**b;
            Some(Box::new(skb_clone(inner)))
        },
    }
}

impl Clone for SkBuff {
    /// A second buffer that shares the bytes.
    fn clone(&self) -> (r: Self)
        ensures
            r.buffer() == self.buffer() && r@ == self@,
            r.head == self.head && r.data == self.data && r.tail == self.tail && r.end == self.end,
            r.len == self.len && r.cb == self.cb && r.shared_info == self.shared_info,
    {
        skb_clone(self)
    }
}

/// A second buffer that shares the bytes of `skb`.
pub fn skb_clone(skb: &SkBuff) -> (r: SkBuff)
    ensures
        r.buffer() == skb.buffer(),
        r@ == skb@,
        r.head == skb.head && r.data == skb.data && r.tail == skb.tail && r.end == skb.end,
        r.len == skb.len && r.data_len == skb.data_len && r.truesize == skb.truesize,
        r.cb == skb.cb && r.shared_info == skb.shared_info,
        skb.wf() ==> r.wf(),
    decreases skb,
{
    SkBuff {
        storage: SkbData { bytes: arc_clone(&skb.storage.bytes) },
        head: skb.head,
        data: skb.data,
        tail: skb.tail,
        end: skb.end,
        len: skb.len,
        data_len: skb.data_len,
        truesize: skb.truesize,
        cb: skb.cb,
        shared_info: skb.shared_info,
        frag_list: clone_frag_list(&skb.frag_list),
    }
}

/// A buffer with its own copy of the bytes of `skb`; fails with ENOMEM when
/// the allocator refuses. An empty buffer needs no allocation and is always
/// copied.
pub fn skb_copy(skb: &SkBuff) -> (r: Result<SkBuff, i32>)
    ensures
        r matches Err(e) ==> e == ENOMEM,
        skb.buffer().len() == 0 ==> r is Ok,
        r matches Ok(c) ==> {
            &&& c.buffer() == skb.buffer()
            &&& c@ == skb@
            &&& c.head == skb.head && c.data == skb.data && c.tail == skb.tail && c.end == skb.end
            &&& c.len == skb.len && c.data_len == skb.data_len && c.truesize == skb.truesize
            &&& c.cb == skb.cb && c.shared_info == skb.shared_info
            &&& (skb.wf() ==> c.wf())
        },
{
    let src: &Vec<u8> = &*skb.storage.bytes;
    let mut storage: Vec<u8> = Vec::new();
    if vec_try_reserve_exact(&mut storage, src.len()).is_err() {
        return Err(ENOMEM);
    }
    let mut i: usize = 0;
    while i < src.len()
        invariant
            i <= src@.len(),
            storage@ == src@.subrange(0, i as int),
        decreases src@.len() - i,
    {
        storage.push(src[i]);
        i += 1;
        assert(storage@ =~= src@.subrange(0, i as int));
    }
    assert(storage@ =~= src@);
    Ok(SkBuff {
        storage: SkbData { bytes: Arc::new(storage) },
        head: skb.head,
        data: skb.data,
        tail: skb.tail,
        end: skb.end,
        len: skb.len,
        data_len: skb.data_len,
        truesize: skb.truesize,
        cb: skb.cb,
        shared_info: skb.shared_info,
        frag_list: clone_frag_list(&skb.frag_list),
    })
}

/// A buffer that is safe to write: `skb` itself when it owns its bytes,
/// else a private copy of them.
pub fn skb_share_check(skb: SkBuff) -> (r: Result<SkBuff, i32>)
    ensures
        r matches Err(e) ==> e == ENOMEM,
        r matches Ok(c) ==> {
            &&& c@ == skb@ && c.buffer() == skb.buffer()
            &&& c.head == skb.head && c.data == skb.data && c.tail == skb.tail && c.end == skb.end
            &&& c.len == skb.len && c.cb == skb.cb && c.shared_info == skb.shared_info
            &&& (skb.wf() ==> c.wf())
        },
{
    if skb.cloned() {
        skb_copy(&skb)
    } else {
        Ok(skb)
    }
}

/// Reallocates the buffer with `extra_head` bytes before and `extra_tail`
/// bytes after the packet, which is kept. ENOMEM, changing nothing, when the
/// new buffer with its bookkeeping would not fit a `usize` or the allocator
/// refuses; a new buffer of no bytes needs no allocation and is always made.
pub fn pskb_expand_head(skb: &mut SkBuff, extra_head: usize, extra_tail: usize) -> (r: Result<(), i32>)
    requires
        old(skb).wf(),
    ensures
        final(skb).wf(),
        r matches Err(e) ==> e == ENOMEM && *final(skb) == *old(skb),
        extra_head + old(skb).len + extra_tail > usize::MAX - skb_overhead() ==> r == Err::<(), i32>(ENOMEM),
        extra_head + old(skb).len + extra_tail == 0 ==> r is Ok,
        r is Ok ==> {
            &&& final(skb)@ == old(skb)@
            &&& final(skb).head == 0 && final(skb).data == extra_head
            &&& final(skb).tail == extra_head + old(skb).len
            &&& final(skb).end == extra_head + old(skb).len + extra_tail
            &&& final(skb).len == old(skb).len
            &&& final(skb).truesize == skb_overhead() + final(skb).end
            &&& final(skb).data_len == old(skb).data_len && final(skb).frag_list == old(skb).frag_list
            &&& final(skb).cb == old(skb).cb && final(skb).shared_info == old(skb).shared_info
        },
{
    let packet_len = skb.len;
    if extra_head > usize::MAX - packet_len || extra_head + packet_len > usize::MAX - extra_tail {
        return Err(ENOMEM);
    }
    let new_end = extra_head + packet_len + extra_tail;
    let overhead = core::mem::size_of::<SkBuff>();
    if new_end > usize::MAX - overhead {
        return Err(ENOMEM);
    }
    let mut storage = match try_alloc_zeroed(new_end) {
        Some(v) => v,
        None => return Err(ENOMEM),
    };
    let data = skb.data();
    let mut i: usize = 0;
    while i < packet_len
        invariant
            i <= packet_len,
            data@.len() == packet_len,
            storage@.len() == new_end,
            new_end == extra_head + packet_len + extra_tail,
            forall|j: int| extra_head <= j < extra_head + i ==> #[trigger] storage@[j] == data@[j - extra_head],
        decreases packet_len - i,
    {
        storage.set(extra_head + i, data[i]);
        i += 1;
    }
    assert(storage@.subrange(extra_head as int, extra_head + packet_len) =~= data@);
    skb.storage = SkbData { bytes: Arc::new(storage) };
    skb.head = 0;
    skb.data = extra_head;
    skb.tail = extra_head + packet_len;
    skb.end = new_end;
    skb.truesize = overhead + new_end;
    Ok(())
}

} // verus!
