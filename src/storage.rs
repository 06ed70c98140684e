use std::sync::atomic::{AtomicU32, AtomicUsize, Ordering};
use vstd::prelude::*;
use crate::lock::Lock;
use crate::lock_state::LockEvent;

verus! {

/// The pool's global header: the fixed number of slots and the counter from
/// which every insertion draws its ids.
pub struct StorageHdr {
    size: usize,
    next_id: AtomicUsize,
}

impl StorageHdr {
    /// The number of slots.
    pub closed spec fn slot_count(&self) -> nat {
        self.size as nat
    }

    /// A header for `size` slots, with the id counter at zero.
    pub fn new(size: usize) -> (r: Self)
        requires
            size > 0,
        ensures
            r.slot_count() == size,
    {
        StorageHdr { size, next_id: AtomicUsize::new(0) }
    }
}

/// Per-slot header: the slot's lock, the count of holders that still want its
/// data, and the id of the insertion that last filled it.
pub struct ItemHdr {
    lock: Lock,
    refcount: AtomicU32,
    id: AtomicUsize,
}

impl Default for ItemHdr {
    fn default() -> (r: Self)
        ensures
            true,
    {
        ItemHdr::new()
    }
}

impl ItemHdr {
    /// An empty slot header: lock empty, count zero, id zero.
    pub fn new() -> Self {
        ItemHdr { lock: Lock::new(), refcount: AtomicU32::new(0), id: AtomicUsize::new(0) }
    }

    /// The slot's lock.
    pub fn lock(&self) -> &Lock {
        &self.lock
    }

    /// The number of holders that still want the slot's data, at this moment.
    pub fn holders(&self) -> u32 {
        self.refcount.load(Ordering::Acquire)
    }

    /// The id of the insertion that last filled the slot, at this moment.
    pub fn stored_id(&self) -> usize {
        self.id.load(Ordering::Acquire)
    }
}

/// A handle on one insertion. It refers to the slot at `id % size`, and only
/// while that slot still holds this id.
#[derive(Clone, Copy, PartialEq, Eq, Debug)]
pub struct Token {
    id: usize,
}

impl View for Token {
    type V = nat;

    closed spec fn view(&self) -> nat {
        self.id as nat
    }
}

impl Token {
    /// The id of the insertion this token refers to.
    pub fn id(&self) -> (r: usize)
        ensures
            r == self@,
    {
        self.id
    }

    /// Whether a slot that holds `stored_id` still holds this token's
    /// insertion; where it does not, the slot has been reused and the token
    /// is stale.
    pub fn is_current(&self, stored_id: usize) -> (r: bool)
        ensures
            r == (stored_id == self@),
    {
        stored_id == self.id
    }
}

/// Whether a slot whose holders count `count` may be taken by `put`: only
/// where nobody holds it any more.
pub fn recyclable(count: u32) -> (r: bool)
    ensures
        r == (count == 0),
{
    count == 0
}

/// What `put` returns once the callback has run in the slot claimed for `id`:
/// the token for `id` where the callback kept its data, `None` where it
/// declined.
pub fn put_outcome(id: usize, kept: bool) -> (r: Option<Token>)
    ensures
        kept ==> (r matches Some(t) && t@ == id),
        !kept ==> r is None,
{
    if kept {
        Some(Token { id })
    } else {
        None
    }
}

/// The new holder count for `token`, given the id its slot holds and the
/// count seen there: `next(c)` where the token is current, `None` where it is
/// stale.
pub fn count_if_current(stored_id: usize, token: &Token, c: u32, next: impl Fn(u32) -> Option<u32>) -> (r: Option<u32>)
    requires
        next.requires((c,)),
    ensures
        stored_id != token@ ==> r is None,
        stored_id == token@ ==> next.ensures((c,), r),
{
    if token.is_current(stored_id) {
        next(c)
    } else {
        None
    }
}

/// The count after one more holder, or `None` where it would overflow.
pub fn incremented_count(c: u32) -> (r: Option<u32>)
    ensures
        r == (if c < u32::MAX { Some((c + 1) as u32) } else { None::<u32> }),
{
    c.checked_add(1)
}

/// The count after one holder fewer, or `None` where no holder is left.
pub fn decremented_count(c: u32) -> (r: Option<u32>)
    ensures
        r == (if c > 0 { Some((c - 1) as u32) } else { None::<u32> }),
{
    c.checked_sub(1)
}

/// A view of the pool over a header and two arrays of equal length that the
/// caller owns: the slots' data and the slots' headers.
///
/// Slot data is handed to callbacks by shared reference: a type with interior
/// mutability lets `put` fill it, and the slot's lock guarantees that no
/// reader runs meanwhile.
pub struct Storage<'a, T> {
    header: &'a StorageHdr,
    items: &'a [T],
    item_hdrs: &'a [ItemHdr],
}

impl<'a, T> Storage<'a, T> {
    /// The number of slots.
    pub closed spec fn slot_count(&self) -> nat {
        self.header.slot_count()
    }

    /// The slots' data, by position.
    pub closed spec fn data(&self) -> Seq<T> {
        self.items@
    }

    /// The header and both arrays agree on a non-zero number of slots.
    pub closed spec fn wf(&self) -> bool {
        &&& self.header.slot_count() > 0
        &&& self.items@.len() == self.header.slot_count()
        &&& self.item_hdrs@.len() == self.header.slot_count()
    }

    /// The position of the slot that holds the insertion with id `id`.
    pub open spec fn slot_of(&self, id: nat) -> int {
        (id % self.slot_count()) as int
    }

    /// A view over `header`, `items` and `item_hdrs`, which must all be of
    /// the header's size.
    pub fn new(header: &'a StorageHdr, items: &'a [T], item_hdrs: &'a [ItemHdr]) -> (r: Self)
        requires
            header.slot_count() > 0,
            items@.len() == header.slot_count(),
            item_hdrs@.len() == header.slot_count(),
        ensures
            r.wf(),
            r.slot_count() == header.slot_count(),
            r.data() == items@,
    {
        Storage { header, items, item_hdrs }
    }

    /// The number of slots.
    pub fn size(&self) -> (r: usize)
        ensures
            r == self.slot_count(),
    {
        self.header.size
    }

    /// Inserts an item: draws a fresh id, then tries the slots from that id's
    /// position onward, one lap of the ring at most. A slot that some holder
    /// still counts is skipped, as is one whose lock cannot be claimed at
    /// once. In the first slot claimed, `f` fills the data and says whether to
    /// keep it. Kept, the slot gets a count of one and the id, and the token
    /// for that id is returned; abandoned, the slot is left empty and `None`
    /// is returned. `None` also when no slot could be claimed, and when the
    /// ids of the lap would pass `usize::MAX`.
    pub fn put(&self, f: impl FnOnce(&T) -> bool) -> (r: Option<Token>)
        requires
            self.wf(),
            forall|i: int| 0 <= i < self.slot_count() ==> f.requires((&self.data()[i],)),
        ensures
            r matches Some(t) ==> f.ensures((&self.data()[self.slot_of(t@)],), true),
    {
        let id_start = self.header.next_id.fetch_add(1, Ordering::Relaxed);
        self.put_from(id_start, f)
    }

    /// The scan of `put` for the ids `id_start`, `id_start + 1`, ..., one for
    /// each slot; a token it returns carries one of those ids.
    fn put_from<F: FnOnce(&T) -> bool>(&self, id_start: usize, f: F) -> (r: Option<Token>)
        requires
            self.wf(),
            forall|i: int| 0 <= i < self.slot_count() ==> f.requires((&self.data()[i],)),
        ensures
            r matches Some(t) ==> id_start <= t@ < id_start + self.slot_count(),
            r matches Some(t) ==> f.ensures((&self.data()[self.slot_of(t@)],), true),
    {
        let size = self.header.size;
        let mut g = f;
        let mut i: usize = 0;
        while i < size
            invariant
                i <= size,
                self.wf(),
                size == self.slot_count(),
                g == f,
                forall|k: int| 0 <= k < self.slot_count() ==> f.requires((&self.data()[k],)),
            decreases size - i,
        {
            let id = match id_start.checked_add(i) {
                Some(v) => v,
                None => return None,
            };
            let pos = id % size;
            let seen = self.item_hdrs[pos].refcount.load(Ordering::Acquire);
            match self.try_slot(id, pos, seen, g) {
                Ok(r) => return r,
                Err(back) => g = back,
            }
            i = i + 1;
        }
        None
    }

    /// One slot of the scan: the slot at `pos`, for the insertion `id`, whose
    /// holders count was seen to be `seen`. Where `seen` is not zero the slot
    /// is in use and is left alone; otherwise its lock is claimed, from empty
    /// or from idle, and `f` runs on its data. `Err` hands `f` back, uncalled,
    /// where the slot was skipped or the claim lost; `Ok` holds what `put`
    /// returns once `f` has run: the token for `id` if `f` kept the data.
    fn try_slot<F: FnOnce(&T) -> bool>(&self, id: usize, pos: usize, seen: u32, f: F) -> (r: Result<Option<Token>, F>)
        requires
            self.wf(),
            pos == self.slot_of(id as nat),
            f.requires((&self.data()[pos as int],)),
        ensures
            seen != 0 ==> r == Err::<Option<Token>, F>(f),
            r matches Err(g) ==> g == f,
            r matches Ok(Some(t)) ==> t@ == id && f.ensures((&self.data()[pos as int],), true),
            r matches Ok(None) ==> f.ensures((&self.data()[pos as int],), false),
    {
        let hdr = &self.item_hdrs[pos];
        if !recyclable(seen) {
            return Err(f);
        }
        if !hdr.lock.attempt(LockEvent::CreateClaim) && !hdr.lock.attempt(LockEvent::UpdateClaim) {
            return Err(f);
        }
        let kept = f(&self.items[pos]);
        if kept {
            hdr.refcount.store(1, Ordering::Relaxed);
            hdr.id.store(id, Ordering::Release);
        }
        hdr.lock.release(kept);
        Ok(put_outcome(id, kept))
    }

    /// Runs `f` on the data at `pos` if `stored_id`, the id that slot holds,
    /// is the token's; otherwise gives `None` without touching the data.
    fn view_if_current<R>(&self, pos: usize, stored_id: usize, token: &Token, f: impl FnOnce(&T) -> R) -> (r: Option<R>)
        requires
            self.wf(),
            pos == self.slot_of(token@),
            f.requires((&self.data()[pos as int],)),
        ensures
            stored_id != token@ ==> r is None,
            stored_id == token@ ==> (r matches Some(v) && f.ensures((&self.data()[pos as int],), v)),
    {
        if token.is_current(stored_id) {
            Some(f(&self.items[pos]))
        } else {
            None
        }
    }

    /// Runs `f` on the data of the token's slot under a read claim, and
    /// returns what it gave. `None` without calling `f` when the slot holds
    /// another id by now, is empty or write-locked, or lost a race.
    pub fn get<R>(&self, token: Token, f: impl FnOnce(&T) -> R) -> (r: Option<R>)
        requires
            self.wf(),
            f.requires((&self.data()[self.slot_of(token@)],)),
        ensures
            r matches Some(v) ==> f.ensures((&self.data()[self.slot_of(token@)],), v),
    {
        let pos = token.id % self.header.size;
        let hdr = &self.item_hdrs[pos];
        if !hdr.lock.attempt(LockEvent::ReadEnter) {
            return None;
        }
        let stored_id = hdr.id.load(Ordering::Acquire);
        let r = self.view_if_current(pos, stored_id, &token, f);
        hdr.lock.exit_read();
        r
    }

    /// Applies `next` to the count of holders of the token's slot under a read
    /// claim, and returns the new count. `None`, the count unchanged, where
    /// `next` gives none, the token is stale or the slot cannot be read now.
    fn adjust_count(&self, token: &Token, next: impl Fn(u32) -> Option<u32>) -> (r: Option<u32>)
        requires
            self.wf(),
            forall|c: u32| next.requires((c,)),
        ensures
            r matches Some(n) ==> exists|c: u32| next.ensures((c,), Some(n)),
    {
        let pos = token.id % self.header.size;
        let hdr = &self.item_hdrs[pos];
        if !hdr.lock.attempt(LockEvent::ReadEnter) {
            return None;
        }
        let stored_id = hdr.id.load(Ordering::Acquire);
        let c = hdr.refcount.load(Ordering::Acquire);
        let mut r: Option<u32> = None;
        if let Some(n) = count_if_current(stored_id, token, c, next) {
            if hdr.refcount.compare_exchange(c, n, Ordering::Release, Ordering::Relaxed).is_ok() {
                r = Some(n);
            }
        }
        hdr.lock.exit_read();
        r
    }

    /// Records one more holder of the token's slot; returns the new count.
    pub fn incref(&self, token: &Token) -> (r: Option<u32>)
        requires
            self.wf(),
        ensures
            r matches Some(n) ==> n > 0,
    {
        self.adjust_count(token, incremented_count)
    }

    /// Records one holder fewer of the token's slot; returns the new count.
    /// At zero the slot may be taken by a later `put`.
    pub fn decref(&self, token: &Token) -> (r: Option<u32>)
        requires
            self.wf(),
        ensures
            r matches Some(n) ==> n < u32::MAX,
    {
        self.adjust_count(token, decremented_count)
    }
}

} // verus!
