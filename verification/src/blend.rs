//! Blend modes for clip draw objects.
//!
//! A blend is a mix (color mixing) code and a compose (Porter-Duff
//! composition) code, packed into one 32-bit word in the clip payload.

use vstd::prelude::*;

verus! {

/// Mix code: normal color mixing.
pub const MIX_NORMAL: u8 = 0;

/// Compose code: source-over composition.
pub const COMPOSE_SRC_OVER: u8 = 3;

/// A blend mode: a mix code in the low byte and a compose code above it.
#[derive(Clone, Copy, PartialEq, Eq, Structural, Debug)]
pub struct Blend {
    pub mix: u8,
    pub compose: u8,
}

/// The packed wire form of a blend: mix in bits 0..8, compose in bits 8..16.
pub open spec fn blend_pack_spec(b: Blend) -> u32 {
    (b.mix as u32) | ((b.compose as u32) << 8)
}

/// The packed form of the blend a clip uses when none is given.
pub open spec fn default_blend_pack() -> u32 {
    blend_pack_spec(Blend { mix: MIX_NORMAL, compose: COMPOSE_SRC_OVER })
}

impl Blend {
    /// A blend from its mix and compose codes.
    pub fn new(mix: u8, compose: u8) -> (r: Blend)
        ensures
            r == (Blend { mix, compose }),
    {
        Blend { mix, compose }
    }

    /// Packs the blend into its 32-bit wire form.
    pub fn pack(&self) -> (r: u32)
        ensures
            r == blend_pack_spec(*self),
    {
        (self.mix as u32) | ((self.compose as u32) << 8)
    }
}

impl Default for Blend {
    /// The default blend: normal mix, source-over composition.
    fn default() -> (r: Blend)
        ensures
            r == (Blend { mix: MIX_NORMAL, compose: COMPOSE_SRC_OVER }),
    {
        Blend { mix: MIX_NORMAL, compose: COMPOSE_SRC_OVER }
    }
}

} // verus!
