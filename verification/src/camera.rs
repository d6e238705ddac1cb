//! The per-frame camera descriptor, rebuilt every frame.

use vstd::prelude::*;
use crate::vertex::CompactVec3;

verus! {

/// Camera position and the elapsed-seconds counter, as the lighting
/// shader's uniform block lays them out. Scalars are IEEE-754
/// single-precision bit patterns.
#[derive(Debug, Default, Clone)]
pub struct Camera {
    position: CompactVec3,
    dt: u32,
}

impl Camera {
    pub fn new(position: CompactVec3, dt: u32) -> (c: Camera)
        ensures
            c.spec_position() == position,
            c.spec_dt() == dt,
    {
        Camera { position, dt }
    }

    pub closed spec fn spec_position(&self) -> CompactVec3 {
        self.position
    }

    pub closed spec fn spec_dt(&self) -> u32 {
        self.dt
    }

    pub fn position(&self) -> (p: CompactVec3)
        ensures
            p == self.spec_position(),
    {
        self.position
    }

    pub fn dt(&self) -> (d: u32)
        ensures
            d == self.spec_dt(),
    {
        self.dt
    }
}

} // verus!
