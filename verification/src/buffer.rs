//! The buffer manager: reservation and release of the regions the host
//! fills with token bytes.
//!
//! The raw host boundary hands out addresses; here the manager is an
//! explicit arena keyed by opaque handles, so every access is bounds-known
//! and the live-allocation set is part of the manager's visible state.

use vstd::prelude::*;

use crate::verdict::AuthResult;
use crate::verify::verdict_of;
use crate::verify::verify_token_at;

verus! {

/// A zero-filled region of `n` bytes, the contents of a freshly reserved
/// buffer.
pub open spec fn zeroes(n: nat) -> Seq<u8> {
    Seq::new(n, |i: int| 0u8)
}

/// The handles that hold a live allocation in the state `s`.
pub open spec fn live_handles(s: Seq<Option<Seq<u8>>>) -> Set<int> {
    Set::new(|h: int| 0 <= h < s.len() && s[h] is Some)
}

/// What a call of [`BufferManager::reserve`] does to the state: handle `h`
/// now holds a fresh zero-filled region of `size` bytes — either in a slot
/// that was free, or in one new slot at the end — and every other
/// allocation is untouched.
pub open spec fn reserve_post(
    before: Seq<Option<Seq<u8>>>,
    after: Seq<Option<Seq<u8>>>,
    h: int,
    size: nat,
) -> bool {
    &&& 0 <= h <= before.len()
    &&& h < after.len()
    &&& after[h] == Some(zeroes(size))
    &&& (h < before.len() ==> before[h] is None && after.len() == before.len())
    &&& (h == before.len() ==> after.len() == before.len() + 1)
    &&& forall|j: int| 0 <= j < before.len() && j != h ==> after[j] == before[j]
}

/// Owner of every buffer handed out to the host, from reservation until
/// release. Its view is the state of all slots: `Some` for a live
/// allocation with its contents, `None` for a free slot.
pub struct BufferManager {
    slots: Vec<Option<Vec<u8>>>,
}

impl View for BufferManager {
    type V = Seq<Option<Seq<u8>>>;

    closed spec fn view(&self) -> Self::V {
        self.slots.deep_view()
    }
}

impl BufferManager {
    /// Whether handle `h` holds a live allocation.
    pub open spec fn live(self, h: int) -> bool {
        0 <= h < self@.len() && self@[h] is Some
    }

    /// A manager with no allocations.
    pub fn new() -> (m: BufferManager)
        ensures
            m@ == Seq::<Option<Seq<u8>>>::empty(),
    {
        let m = BufferManager { slots: Vec::new() };
        proof {
            assert(m@ =~= Seq::<Option<Seq<u8>>>::empty());
        }
        m
    }

    /// Reserve a region of exactly `size` bytes for the host to fill, and
    /// return its handle. The region is zero-filled and stays valid and
    /// stable until the matching [`BufferManager::release`].
    pub fn reserve(&mut self, size: usize) -> (h: usize)
        ensures
            reserve_post(old(self)@, final(self)@, h as int, size as nat),
    {
        let buf = zero_buffer(size);
        let n = self.slots.len();
        let mut i: usize = 0;
        while i < n
            invariant
                n == self.slots.len(),
                i <= n,
                *self == *old(self),
                buf@ == zeroes(size as nat),
                forall|j: int| 0 <= j < i ==> self@[j] is Some,
            decreases n - i,
        {
            if self.slots[i].is_none() {
                self.slots[i] = Some(buf);
                proof {
                    assert(self@ =~~= old(self)@.update(i as int, Some(zeroes(size as nat))));
                }
                return i;
            }
            i += 1;
        }
        self.slots.push(Some(buf));
        proof {
            assert(self@ =~~= old(self)@.push(Some(zeroes(size as nat))));
        }
        n
    }

    /// Release the region held by handle `h`, reserved earlier with the
    /// same `size`. The slot becomes free; every other allocation is
    /// untouched.
    pub fn release(&mut self, h: usize, size: usize)
        requires
            old(self).live(h as int),
            old(self)@[h as int].unwrap().len() == size as nat,
        ensures
            final(self)@ == old(self)@.update(h as int, None::<Seq<u8>>),
    {
        self.slots[h] = None;
        proof {
            assert(self@ =~= old(self)@.update(h as int, None::<Seq<u8>>));
        }
    }

    /// Fill the region held by handle `h` with the host's bytes, which
    /// must be exactly as many as were reserved.
    pub fn write(&mut self, h: usize, data: &[u8])
        requires
            old(self).live(h as int),
            data@.len() == old(self)@[h as int].unwrap().len(),
        ensures
            final(self)@ == old(self)@.update(h as int, Some(data@)),
    {
        self.slots[h] = Some(copy_bytes(data));
        proof {
            assert(self@ =~~= old(self)@.update(h as int, Some(data@)));
        }
    }

    /// Judge the first `len` bytes of the region held by handle `h` as of
    /// time `now`. The manager itself is untouched: verification shares no
    /// mutable state with the buffer lifecycle.
    pub fn verify_held(&self, h: usize, len: usize, now: u64) -> (r: AuthResult)
        requires
            self.live(h as int),
            len as nat <= self@[h as int].unwrap().len(),
        ensures
            r == verdict_of(self@[h as int].unwrap().take(len as int), now),
    {
        let buf: &Vec<u8> = self.slots[h].as_ref().unwrap();
        let region = vstd::slice::slice_subrange(buf.as_slice(), 0, len);
        proof {
            assert(region@ =~= self@[h as int].unwrap().take(len as int));
        }
        verify_token_at(region, now)
    }
}

/// Reserving a region and releasing it right away leaves no residual
/// allocation: the set of live handles afterwards is exactly the set
/// before the reservation.
pub proof fn lemma_reserve_release_no_residual(
    before: Seq<Option<Seq<u8>>>,
    mid: Seq<Option<Seq<u8>>>,
    after: Seq<Option<Seq<u8>>>,
    h: int,
    size: nat,
)
    requires
        reserve_post(before, mid, h, size),
        after == mid.update(h, None::<Seq<u8>>),
    ensures
        live_handles(after) == live_handles(before),
{
    assert(live_handles(after) =~= live_handles(before));
}

/// A vector holding exactly the given bytes.
fn copy_bytes(data: &[u8]) -> (v: Vec<u8>)
    ensures
        v@ == data@,
{
    let mut v: Vec<u8> = Vec::new();
    let mut i: usize = 0;
    while i < data.len()
        invariant
            i <= data@.len(),
            v@.len() == i,
            forall|j: int| 0 <= j < i ==> v@[j] == data@[j],
        decreases data@.len() - i,
    {
        v.push(data[i]);
        i += 1;
    }
    proof {
        assert(v@ =~= data@);
    }
    v
}

/// A zero-filled buffer of exactly `size` bytes.
fn zero_buffer(size: usize) -> (v: Vec<u8>)
    ensures
        v@ == zeroes(size as nat),
{
    let mut v: Vec<u8> = Vec::new();
    while v.len() < size
        invariant
            v@.len() <= size,
            forall|j: int| 0 <= j < v@.len() ==> v@[j] == 0u8,
        decreases size - v.len(),
    {
        v.push(0u8);
    }
    proof {
        assert(v@ =~= zeroes(size as nat));
    }
    v
}

} // verus!
