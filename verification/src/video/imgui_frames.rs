//! The ring of meshes that the user interface draws into, one per frame.
use vstd::prelude::*;

use crate::ris_error::RisResult;
use crate::video::frames::Frames as Ring;
use crate::video::frames::made_by;
use crate::video::frames::FramesView;

verus! {

/// A ring of `count` meshes, handed out one after the other.
pub struct Frames<M> {
    ring: Ring<M>,
}

impl<M> View for Frames<M> {
    type V = FramesView<M>;

    closed spec fn view(&self) -> FramesView<M> {
        self.ring@
    }
}

impl<M> Frames<M> {
    /// The ring holds `count` meshes and its next index is one of them.
    pub closed spec fn wf(&self) -> bool {
        self.ring.wf()
    }

    /// A ring of `count` meshes, each made by one call of `alloc_mesh`; the
    /// first failure is handed back. With no meshes to make, it succeeds.
    pub fn allocate<F: FnMut() -> RisResult<M>>(count: usize, alloc_mesh: F) -> (res: RisResult<Self>)
        requires
            forall|f: F| call_requires(f, ()),
        ensures
            count == 0 ==> res is Ok,
            match res {
                Ok(frames) => frames.wf() && frames@.index == 0 && frames@.count == count && forall|i: int|
                    0 <= i < count ==> made_by::<F, M>(Ok(#[trigger] frames@.frames[i])),
                Err(e) => made_by::<F, M>(Err(e)),
            },
    {
        match Ring::allocate(count, alloc_mesh) {
            Ok(ring) => Ok(Self { ring }),
            Err(e) => Err(e),
        }
    }

    /// The meshes of the ring, in order.
    pub fn meshes(&self) -> (res: &Vec<M>)
        ensures
            res@ == self@.frames,
    {
        self.ring.frames()
    }

    /// Hands each mesh of the ring, in order, to `free_mesh`, which releases
    /// its buffers.
    pub fn free(&self, free_mesh: impl Fn(&M))
        requires
            forall|m: &M| call_requires(free_mesh, (m,)),
        ensures
            forall|i: int| 0 <= i < self@.frames.len() ==> call_ensures(free_mesh, (&#[trigger] self@.frames[i],), ()),
    {
        self.ring.free(free_mesh)
    }

    /// The next mesh; the ring moves on by one, back to the first after the last.
    pub fn acquire_next_mesh(&mut self) -> (res: &mut M)
        requires
            old(self).wf(),
            old(self)@.count > 0,
        ensures
            *res == old(self)@.frames[old(self)@.index as int],
            final(self)@.frames == old(self)@.frames.update(old(self)@.index as int, *final(res)),
            final(self)@.index == (old(self)@.index + 1) % (old(self)@.count as int),
            final(self)@.count == old(self)@.count,
            final(self).wf(),
    {
        self.ring.acquire_next()
    }
}

} // verus!
