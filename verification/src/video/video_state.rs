//! The per-frame decisions of the video system: when the swapchain or the
//! viewport is rebuilt, and which fences are kept between frames. The GPU
//! work itself is done by the caller, which reports its outcome here.
use vstd::prelude::*;

verus! {

/// A request to rebuild the viewport, possibly reloading the shaders.
#[derive(Clone, Copy, PartialEq, Eq, Structural, Debug)]
pub struct RecreateViewport {
    pub reload_shaders: bool,
}

/// What has to be rebuilt before the next frame, in this order.
#[derive(Clone, Copy, PartialEq, Eq, Structural, Debug)]
pub struct RecreatePlan {
    pub reload_shaders: bool,
    pub recreate_viewport: bool,
    pub recreate_swapchain: bool,
}

/// How flushing a frame to the GPU ended.
pub enum FlushOutcome<F> {
    /// With a fence that signals when the frame is done.
    Fence(F),
    /// The swapchain no longer matches the surface.
    OutOfDate,
    /// Another failure, which is only logged.
    Failed,
}

/// The state the video system keeps between frames: pending rebuilds, the
/// fence of each swapchain image, and the image drawn last.
pub struct VideoState<F> {
    recreate_swapchain: bool,
    recreate_viewport: Option<RecreateViewport>,
    fences: Vec<Option<F>>,
    previous_fence_i: u32,
}

/// The abstract value of a [`VideoState`].
pub struct VideoStateView<F> {
    pub recreate_swapchain: bool,
    pub recreate_viewport: Option<RecreateViewport>,
    pub fences: Seq<Option<F>>,
    pub previous_fence_i: u32,
}

impl<F> View for VideoState<F> {
    type V = VideoStateView<F>;

    closed spec fn view(&self) -> VideoStateView<F> {
        VideoStateView {
            recreate_swapchain: self.recreate_swapchain,
            recreate_viewport: self.recreate_viewport,
            fences: self.fences@,
            previous_fence_i: self.previous_fence_i,
        }
    }
}

/// The plan for the pending rebuilds: a viewport request rebuilds the
/// viewport (after reloading the shaders when asked) and makes a pending
/// swapchain rebuild unnecessary; otherwise a pending swapchain rebuild is done.
pub open spec fn spec_plan(v: Option<RecreateViewport>, recreate_swapchain: bool) -> RecreatePlan {
    match v {
        Some(r) => RecreatePlan {
            reload_shaders: r.reload_shaders,
            recreate_viewport: true,
            recreate_swapchain: false,
        },
        None => RecreatePlan {
            reload_shaders: false,
            recreate_viewport: false,
            recreate_swapchain,
        },
    }
}

/// Pending rebuilds are done once: once the plan has been taken, nothing is
/// pending, and the plan for that state asks for nothing.
pub proof fn lemma_plan_taken_once()
    ensures
        spec_plan(None, false) == (RecreatePlan {
            reload_shaders: false,
            recreate_viewport: false,
            recreate_swapchain: false,
        }),
{
}

/// A viewport rebuild makes a pending swapchain rebuild unnecessary.
pub proof fn lemma_viewport_covers_swapchain(request: RecreateViewport, recreate_swapchain: bool)
    ensures
        spec_plan(Some(request), recreate_swapchain).recreate_viewport,
        !spec_plan(Some(request), recreate_swapchain).recreate_swapchain,
{
}

/// The plan follows the requests exactly: shaders are reloaded only when a
/// pending viewport request asked for it, the viewport is rebuilt exactly
/// when one is pending, and the swapchain is rebuilt exactly when its rebuild
/// is pending and no viewport rebuild replaces it.
pub proof fn lemma_plan_follows_requests(request: Option<RecreateViewport>, recreate_swapchain: bool)
    ensures
        spec_plan(request, recreate_swapchain).reload_shaders == (request matches Some(r)
            && r.reload_shaders),
        spec_plan(request, recreate_swapchain).recreate_viewport == (request is Some),
        spec_plan(request, recreate_swapchain).recreate_swapchain == (request is None
            && recreate_swapchain),
        spec_plan(request, recreate_swapchain).reload_shaders ==> spec_plan(
            request,
            recreate_swapchain,
        ).recreate_viewport,
        spec_plan(Some(RecreateViewport { reload_shaders: false }), recreate_swapchain) == (
        RecreatePlan { reload_shaders: false, recreate_viewport: true, recreate_swapchain: false }),
{
}

impl<F> VideoState<F> {
    /// One fence slot per swapchain image, all empty, nothing pending.
    pub fn new(image_count: usize) -> (res: Self)
        ensures
            res@.fences.len() == image_count,
            forall|i: int| 0 <= i < image_count ==> #[trigger] res@.fences[i] is None,
            !res@.recreate_swapchain,
            res@.recreate_viewport is None,
            res@.previous_fence_i == 0,
    {
        let mut fences: Vec<Option<F>> = Vec::new();
        let mut i: usize = 0;
        while i < image_count
            invariant
                i <= image_count,
                fences@.len() == i,
                forall|k: int| 0 <= k < i ==> #[trigger] fences@[k] is None,
            decreases image_count - i,
        {
            fences.push(None);
            i = i + 1;
        }
        Self { recreate_swapchain: false, recreate_viewport: None, fences, previous_fence_i: 0 }
    }

    /// Asks for the viewport to be rebuilt before the next frame.
    pub fn recreate_viewport(&mut self, reload_shaders: bool)
        ensures
            final(self)@.recreate_viewport == Some(RecreateViewport { reload_shaders }),
            final(self)@.recreate_swapchain == old(self)@.recreate_swapchain,
            final(self)@.fences == old(self)@.fences,
            final(self)@.previous_fence_i == old(self)@.previous_fence_i,
    {
        self.recreate_viewport = Some(RecreateViewport { reload_shaders });
    }

    /// Takes the pending rebuilds: what has to be done, with nothing pending
    /// afterwards.
    pub fn recreate_renderer(&mut self) -> (res: RecreatePlan)
        ensures
            res == spec_plan(old(self)@.recreate_viewport, old(self)@.recreate_swapchain),
            final(self)@.recreate_viewport is None,
            !final(self)@.recreate_swapchain,
            final(self)@.fences == old(self)@.fences,
            final(self)@.previous_fence_i == old(self)@.previous_fence_i,
    {
        let mut plan = RecreatePlan {
            reload_shaders: false,
            recreate_viewport: false,
            recreate_swapchain: false,
        };
        match self.recreate_viewport {
            Some(request) => {
                self.recreate_viewport = None;
                self.recreate_swapchain = false;
                plan.reload_shaders = request.reload_shaders;
                plan.recreate_viewport = true;
            },
            None => {},
        }
        if self.recreate_swapchain {
            self.recreate_swapchain = false;
            plan.recreate_swapchain = true;
        }
        plan
    }

    /// The start of a frame: while the window is minimized no frame is drawn
    /// and nothing changes; otherwise the pending rebuilds are taken, to be
    /// carried out (in the plan's order) before the image is acquired.
    pub fn begin_frame(&mut self, minimized: bool) -> (res: Option<RecreatePlan>)
        ensures
            minimized ==> res is None && final(self)@ == old(self)@,
            !minimized ==> {
                &&& res == Some(spec_plan(old(self)@.recreate_viewport, old(self)@.recreate_swapchain))
                &&& final(self)@.recreate_viewport is None
                &&& !final(self)@.recreate_swapchain
                &&& final(self)@.fences == old(self)@.fences
                &&& final(self)@.previous_fence_i == old(self)@.previous_fence_i
            },
    {
        if minimized {
            None
        } else {
            Some(self.recreate_renderer())
        }
    }

    /// Acquiring an image failed because the swapchain is out of date: it is
    /// rebuilt before the next frame.
    pub fn acquire_out_of_date(&mut self)
        ensures
            final(self)@.recreate_swapchain,
            final(self)@.recreate_viewport == old(self)@.recreate_viewport,
            final(self)@.fences == old(self)@.fences,
            final(self)@.previous_fence_i == old(self)@.previous_fence_i,
    {
        self.recreate_swapchain = true;
    }

    /// An image was acquired; when the swapchain is suboptimal it is rebuilt
    /// before the next frame.
    pub fn acquired(&mut self, suboptimal: bool)
        ensures
            final(self)@.recreate_swapchain == (old(self)@.recreate_swapchain || suboptimal),
            final(self)@.recreate_viewport == old(self)@.recreate_viewport,
            final(self)@.fences == old(self)@.fences,
            final(self)@.previous_fence_i == old(self)@.previous_fence_i,
    {
        if suboptimal {
            self.recreate_swapchain = true;
        }
    }

    /// The fence of image `image_i`, to wait on before its resources are reused.
    pub fn image_fence(&self, image_i: u32) -> (res: Option<&F>)
        requires
            image_i < self@.fences.len(),
        ensures
            match self@.fences[image_i as int] {
                Some(f) => res == Some(&f),
                None => res is None,
            },
    {
        match &self.fences[image_i as usize] {
            Some(f) => Some(f),
            None => None,
        }
    }

    /// The fence of the image drawn last, which the next frame waits for.
    pub fn previous_fence(&self) -> (res: Option<&F>)
        requires
            self@.previous_fence_i < self@.fences.len(),
        ensures
            match self@.fences[self@.previous_fence_i as int] {
                Some(f) => res == Some(&f),
                None => res is None,
            },
    {
        self.image_fence(self.previous_fence_i)
    }

    /// Records how flushing image `image_i` ended: its fence is kept when
    /// there is one, an out-of-date swapchain is rebuilt before the next
    /// frame, and `image_i` becomes the image drawn last.
    pub fn finish_frame(&mut self, image_i: u32, outcome: FlushOutcome<F>)
        requires
            image_i < old(self)@.fences.len(),
        ensures
            final(self)@.fences == old(self)@.fences.update(
                image_i as int,
                match outcome {
                    FlushOutcome::Fence(f) => Some(f),
                    _ => None,
                },
            ),
            final(self)@.recreate_swapchain == (old(self)@.recreate_swapchain
                || outcome is OutOfDate),
            final(self)@.recreate_viewport == old(self)@.recreate_viewport,
            final(self)@.previous_fence_i == image_i,
    {
        let fence = match outcome {
            FlushOutcome::Fence(f) => Some(f),
            FlushOutcome::OutOfDate => {
                self.recreate_swapchain = true;
                None
            },
            FlushOutcome::Failed => None,
        };
        self.fences.set(image_i as usize, fence);
        self.previous_fence_i = image_i;
    }
}

} // verus!
