//! The single point light, rebuilt every frame.

use vstd::prelude::*;
use crate::vertex::CompactVec3;

verus! {

/// Position, colour and intensity of the point light, as the lighting
/// shader's uniform block lays them out. Scalars are IEEE-754
/// single-precision bit patterns.
#[derive(Debug, Default, Clone)]
pub struct Light {
    position: CompactVec3,
    colour: CompactVec3,
    intensity: u32,
}

impl Light {
    pub fn new(position: CompactVec3, colour: CompactVec3, intensity: u32) -> (l: Light)
        ensures
            l.spec_position() == position,
            l.spec_colour() == colour,
            l.spec_intensity() == intensity,
    {
        Light { position, colour, intensity }
    }

    pub closed spec fn spec_position(&self) -> CompactVec3 {
        self.position
    }

    pub closed spec fn spec_colour(&self) -> CompactVec3 {
        self.colour
    }

    pub closed spec fn spec_intensity(&self) -> u32 {
        self.intensity
    }

    pub fn position(&self) -> (p: CompactVec3)
        ensures
            p == self.spec_position(),
    {
        self.position
    }

    pub fn colour(&self) -> (c: CompactVec3)
        ensures
            c == self.spec_colour(),
    {
        self.colour
    }

    pub fn intensity(&self) -> (i: u32)
        ensures
            i == self.spec_intensity(),
    {
        self.intensity
    }
}

} // verus!
