//! The renderer of the debug gizmos.
use vstd::prelude::*;

use crate::ris_error::RisResult;

verus! {

/// Draws the debug gizmos; it holds no GPU resources yet.
pub struct GizmoRenderer;

impl GizmoRenderer {
    pub fn init() -> (res: RisResult<Self>)
        ensures
            res is Ok,
    {
        Ok(GizmoRenderer)
    }

    /// Draws nothing yet, and always succeeds.
    pub fn draw(&mut self) -> (res: RisResult<()>)
        ensures
            res is Ok,
    {
        Ok(())
    }
}

} // verus!
