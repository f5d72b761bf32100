//! A fixed ring of per-frame resources, handed out one after the other.
use vstd::prelude::*;

use crate::ris_error::RisResult;

verus! {

/// A ring of `count` frames; the next one handed out is at `index`.
pub struct Frames<TFrame> {
    index: usize,
    count: usize,
    frames: Vec<TFrame>,
}

/// The abstract value of a [`Frames`] ring.
pub struct FramesView<TFrame> {
    pub index: usize,
    pub count: usize,
    pub frames: Seq<TFrame>,
}

impl<TFrame> View for Frames<TFrame> {
    type V = FramesView<TFrame>;

    closed spec fn view(&self) -> FramesView<TFrame> {
        FramesView { index: self.index, count: self.count, frames: self.frames@ }
    }
}

/// Whether `r` is a result that some state of the closure type `F` can give
/// when it is called.
pub open spec fn made_by<F: FnMut() -> RisResult<T>, T>(r: RisResult<T>) -> bool {
    exists|f: F| call_ensures(f, (), r)
}

impl<TFrame> Frames<TFrame> {
    /// The ring holds `count` frames and its next index is one of them.
    pub open spec fn wf(&self) -> bool {
        &&& self@.frames.len() == self@.count
        &&& (self@.count > 0 ==> self@.index < self@.count)
        &&& (self@.count == 0 ==> self@.index == 0)
    }

    /// A ring of `count` frames, each made by one call of `alloc_callback`,
    /// starting with the first; the first failure is handed back. With no
    /// frames to make, it succeeds.
    pub fn allocate<F: FnMut() -> RisResult<TFrame>>(count: usize, alloc_callback: F) -> (res: RisResult<Self>)
        requires
            forall|f: F| call_requires(f, ()),
        ensures
            count == 0 ==> res is Ok,
            match res {
                Ok(frames) => frames.wf() && frames@.index == 0 && frames@.count == count && forall|i: int|
                    0 <= i < count ==> made_by::<F, TFrame>(Ok(#[trigger] frames@.frames[i])),
                Err(e) => made_by::<F, TFrame>(Err(e)),
            },
    {
        let mut alloc_callback = alloc_callback;
        let mut frames: Vec<TFrame> = Vec::new();
        let mut i: usize = 0;
        while i < count
            invariant
                i <= count,
                frames@.len() == i,
                forall|f: F| call_requires(f, ()),
                forall|k: int| 0 <= k < i ==> made_by::<F, TFrame>(Ok(#[trigger] frames@[k])),
            decreases count - i,
        {
            let ghost before = alloc_callback;
            proof {
                broadcast use vstd::function::group_function_axioms;
                assert(call_requires(alloc_callback, ()));
            }
            let made = alloc_callback();
            proof {
                assert(call_ensures(before, (), made));
            }
            match made {
                Ok(frame) => {
                    let ghost prev = frames@;
                    frames.push(frame);
                    assert forall|k: int| 0 <= k < frames@.len() implies made_by::<F, TFrame>(
                        Ok(#[trigger] frames@[k]),
                    ) by {
                        if k < prev.len() {
                            assert(frames@[k] == prev[k]);
                        } else {
                            assert(call_ensures(before, (), Ok(frames@[k])));
                        }
                    }
                },
                Err(e) => {
                    assert(call_ensures(before, (), Err(e)));
                    return Err(e);
                },
            }
            i = i + 1;
        }
        Ok(Self { index: 0, count, frames })
    }

    /// The frames of the ring, in order.
    pub fn frames(&self) -> (res: &Vec<TFrame>)
        ensures
            res@ == self@.frames,
    {
        &self.frames
    }

    /// Hands each frame of the ring, in order, to `free_frame`, which
    /// releases what the frame holds.
    pub fn free(&self, free_frame: impl Fn(&TFrame))
        requires
            forall|f: &TFrame| call_requires(free_frame, (f,)),
        ensures
            forall|i: int| 0 <= i < self@.frames.len() ==> call_ensures(free_frame, (&#[trigger] self@.frames[i],), ()),
    {
        let mut i: usize = 0;
        while i < self.frames.len()
            invariant
                i <= self.frames@.len(),
                forall|f: &TFrame| call_requires(free_frame, (f,)),
                forall|k: int| 0 <= k < i ==> call_ensures(free_frame, (&#[trigger] self.frames@[k],), ()),
            decreases self.frames@.len() - i,
        {
            free_frame(&self.frames[i]);
            i = i + 1;
        }
    }

    /// The next frame; the ring moves on by one, back to the first after the last.
    pub fn acquire_next(&mut self) -> (res: &mut TFrame)
        requires
            old(self).wf(),
            old(self)@.count > 0,
        ensures
            *res == old(self)@.frames[old(self)@.index as int],
            final(self)@.frames == old(self)@.frames.update(old(self)@.index as int, *final(res)),
            final(self)@.index == (old(self)@.index + 1) % (old(self)@.count as int),
            final(self)@.count == old(self)@.count,
            final(self).wf(),
    {
        let i = self.index;
        self.index = (i + 1) % self.count;
        &mut self.frames[i]
    }
}

/// The next index of a ring of `count` frames after `k` frames were handed
/// out, starting at `index`: each hand-out moves it on by one, back to the
/// first after the last.
pub open spec fn index_after(index: int, count: int, k: nat) -> int
    decreases k,
{
    if k == 0 {
        index
    } else {
        (index_after(index, count, (k - 1) as nat) + 1) % count
    }
}

/// Handing out frames goes round the ring: after `k` hand-outs the next index
/// is `index + k` modulo `count`, so after `count` of them the ring is back at
/// `index`.
pub proof fn lemma_ring_round(index: int, count: int, k: nat)
    requires
        0 <= index < count,
    ensures
        index_after(index, count, k) == (index + k) % count,
        index_after(index, count, count as nat) == index,
{
    lemma_ring_steps(index, count, k);
    lemma_ring_steps(index, count, count as nat);
    assert((index + count) % count == index) by {
        vstd::arithmetic::div_mod::lemma_mod_add_multiples_vanish(index, count);
        vstd::arithmetic::div_mod::lemma_small_mod(index as nat, count as nat);
    }
}

proof fn lemma_ring_steps(index: int, count: int, k: nat)
    requires
        0 <= index < count,
    ensures
        index_after(index, count, k) == (index + k) % count,
    decreases k,
{
    if k > 0 {
        let x = index + k - 1;
        lemma_ring_steps(index, count, (k - 1) as nat);
        vstd::arithmetic::div_mod::lemma_add_mod_noop_right(1, x, count);
        assert(x % count + 1 == 1 + x % count);
    } else {
        vstd::arithmetic::div_mod::lemma_small_mod(index as nat, count as nat);
    }
}

/// The `count` hand-outs of one round give out different frames.
pub proof fn lemma_ring_round_distinct(index: int, count: int, k1: nat, k2: nat)
    requires
        0 <= index < count,
        k1 < k2 < count,
    ensures
        index_after(index, count, k1) != index_after(index, count, k2),
{
    lemma_ring_steps(index, count, k1);
    lemma_ring_steps(index, count, k2);
    let a = index + k2;
    let b = index + k1;
    vstd::arithmetic::div_mod::lemma_sub_mod_noop(a, b, count);
    vstd::arithmetic::div_mod::lemma_small_mod((k2 - k1) as nat, count as nat);
    if a % count == b % count {
        assert((a % count - b % count) % count == 0) by {
            vstd::arithmetic::div_mod::lemma_mod_self_0(count);
            vstd::arithmetic::div_mod::lemma_small_mod(0, count as nat);
        }
        assert(a - b == k2 - k1);
    }
}

} // verus!
