//! The view-projection uniform block.

use vstd::prelude::*;
use crate::transform::identity_cols;

verus! {

/// View and projection matrices, column-major, as the geometry shader's
/// uniform block lays them out. Scalars are IEEE-754 single-precision bit
/// patterns. The matrices themselves come from the math collaborator
/// outside; this block only carries them to the descriptor binding.
#[derive(Debug, Clone)]
pub struct VP {
    pub view: [u32; 16],
    pub proj: [u32; 16],
}

impl VP {
    /// Both matrices start as the identity.
    pub fn new() -> (vp: VP)
        ensures
            vp.view@ == identity_cols(),
            vp.proj@ == identity_cols(),
    {
        let m = crate::transform::Matrix4::identity();
        VP { view: m.cols, proj: m.cols }
    }
}

} // verus!
