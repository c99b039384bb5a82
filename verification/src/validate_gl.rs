//! Context-state checks around a draw call.
//!
//! The host expects its context back exactly as it handed it over, so the
//! plugin resets a known set of bindings on every exit path. The driver
//! queries themselves happen in the host-facing glue; the records of what
//! to reset and the decisions over the observed values are here.

use vstd::prelude::*;

verus! {

/// A texture target and the query name for its current binding.
#[derive(Debug, Clone, Copy)]
pub struct TextureType {
    /// Bind target, as the driver numbers it.
    pub target: u32,
    /// Binding query name, as the driver numbers it.
    pub binding: u32,
}

/// Bind target for one-dimensional textures.
pub const GL_TEXTURE_1D: u32 = 0x0DE0;

/// Bind target for two-dimensional textures.
pub const GL_TEXTURE_2D: u32 = 0x0DE1;

/// Binding query name for one-dimensional textures.
pub const GL_TEXTURE_BINDING_1D: u32 = 0x8068;

/// Binding query name for two-dimensional textures.
pub const GL_TEXTURE_BINDING_2D: u32 = 0x8069;

/// The texture targets unbound during a context reset, in order.
pub fn texture_types() -> (r: Vec<TextureType>)
    ensures
        r@.len() == 2,
        r@[0].target == GL_TEXTURE_1D,
        r@[0].binding == GL_TEXTURE_BINDING_1D,
        r@[1].target == GL_TEXTURE_2D,
        r@[1].binding == GL_TEXTURE_BINDING_2D,
{
    let mut types: Vec<TextureType> = Vec::new();
    types.push(TextureType { target: GL_TEXTURE_1D, binding: GL_TEXTURE_BINDING_1D });
    types.push(TextureType { target: GL_TEXTURE_2D, binding: GL_TEXTURE_BINDING_2D });
    types
}

/// The viewport the driver reported matches the expected one and the
/// scissor test is off — the state a host is owed at hand-over.
pub fn validate_viewport(expected: &[i32; 4], observed: &[i32; 4], scissor_enabled: bool) -> (r:
    bool)
    ensures
        r == (!scissor_enabled && expected@ == observed@),
{
    if scissor_enabled {
        return false;
    }
    let mut i: usize = 0;
    while i < 4
        invariant
            i <= 4,
            forall|j: int| 0 <= j < i ==> expected@[j] == observed@[j],
        decreases 4 - i,
    {
        if expected[i] != observed[i] {
            return false;
        }
        i = i + 1;
    }
    proof {
        assert(expected@ =~= observed@);
    }
    true
}

} // verus!
