//! Shading-language version selection.
//!
//! Effects compiled at runtime need a shading-language version the
//! context actually supports. The capability query happens in the
//! host-facing glue; the choice over the reported support is made here,
//! preferring the newer version.

use vstd::prelude::*;

verus! {

/// Supported shading-language transpilation targets.
#[derive(Debug, Clone, Copy, PartialEq, Eq, Structural)]
pub enum GlslVersion {
    /// Version 1.20.
    Glsl120,
    /// Version 1.40.
    Glsl140,
}

/// The best transpilation target among the versions the context reports
/// support for: 1.40 when available, else 1.20, else none.
pub fn get_best_transpilation_target(supports_140: bool, supports_120: bool) -> (r: Option<
    GlslVersion>)
    ensures
        supports_140 ==> r == Some(GlslVersion::Glsl140),
        !supports_140 && supports_120 ==> r == Some(GlslVersion::Glsl120),
        !supports_140 && !supports_120 ==> r is None,
{
    if supports_140 {
        Some(GlslVersion::Glsl140)
    } else if supports_120 {
        Some(GlslVersion::Glsl120)
    } else {
        None
    }
}

} // verus!
