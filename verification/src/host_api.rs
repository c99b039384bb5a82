//! Plain data the host protocol hands the plugin each call.
//!
//! The host describes itself and each frame with small fixed-layout
//! records: plugin identification, the viewport, the input textures and
//! their hardware sizes, and parameter-element addressing. The raw ABI
//! records live with the host-facing glue; these are their plain-value
//! counterparts that the verified logic consumes.

#![allow(non_snake_case)]

use vstd::prelude::*;

verus! {

/// Plugin identification returned to the host.
#[derive(Debug, Clone, Copy)]
pub struct PluginInfoStruct {
    /// Host API major version the plugin targets.
    pub APIMajorVersion: u32,
    /// Host API minor version the plugin targets.
    pub APIMinorVersion: u32,
    /// Four-byte unique plugin identifier.
    pub PluginUniqueID: [i8; 4],
    /// Plugin name, padded to sixteen bytes.
    pub PluginName: [i8; 16],
    /// Whether the plugin is an effect, a source or a mixer.
    pub PluginType: u32,
}

/// The viewport the host instantiated the plugin with.
#[derive(Debug, Clone, Copy)]
pub struct FFGLViewportStruct {
    /// Left edge in pixels.
    pub x: u32,
    /// Top edge in pixels.
    pub y: u32,
    /// Width in pixels.
    pub width: u32,
    /// Height in pixels.
    pub height: u32,
}

impl FFGLViewportStruct {
    /// The viewport's dimensions.
    pub fn dimensions(&self) -> (r: (u32, u32))
        ensures
            r == (self.width, self.height),
    {
        (self.width, self.height)
    }
}

/// One input texture as the host describes it.
#[derive(Debug, Clone, Copy)]
pub struct FFGLTextureStruct {
    /// Used width of the frame in pixels.
    pub Width: u32,
    /// Used height of the frame in pixels.
    pub Height: u32,
    /// Allocated width of the texture.
    pub HardwareWidth: u32,
    /// Allocated height of the texture.
    pub HardwareHeight: u32,
    /// Driver texture name.
    pub Handle: u32,
}

/// Addresses one element of a multi-element parameter by name.
#[derive(Debug, Clone, Copy)]
pub struct GetParameterElementNameStruct {
    /// Parameter index.
    pub ParameterNumber: u32,
    /// Element index within the parameter.
    pub ElementNumber: u32,
}

/// Addresses one element of a multi-element parameter by value.
#[derive(Debug, Clone, Copy)]
pub struct GetParameterElementValueStruct {
    /// Parameter index.
    pub ParameterNumber: u32,
    /// Element index within the parameter.
    pub ElementNumber: u32,
}

/// Texture inputs for one frame: the host's input textures and the
/// framebuffer to draw the result into.
#[derive(Debug)]
pub struct GLInput<'a> {
    /// The input textures, first one the frame to process.
    pub textures: &'a [FFGLTextureStruct],
    /// The host framebuffer receiving the result.
    pub host: u32,
}

/// Fit a zero-terminated string into a host buffer of `max_to_write`
/// bytes: as much of it as fits, still zero-terminated when anything was
/// written. `bytes` must already end in the zero terminator.
pub fn truncate_c_string(bytes: &Vec<u8>, max_to_write: usize) -> (r: Vec<u8>)
    requires
        bytes@.len() > 0,
        bytes@[bytes@.len() - 1] == 0,
    ensures
        max_to_write == 0 ==> r@.len() == 0,
        max_to_write > 0 ==> {
            let n = if bytes@.len() <= max_to_write {
                bytes@.len() as int
            } else {
                max_to_write as int
            };
            &&& r@.len() == n
            &&& forall|i: int| 0 <= i < n - 1 ==> r@[i] == bytes@[i]
            &&& r@[n - 1] == 0
        },
{
    if max_to_write == 0 {
        return Vec::new();
    }
    let to_copy: usize = if bytes.len() <= max_to_write {
        bytes.len()
    } else {
        max_to_write
    };
    let mut out: Vec<u8> = Vec::new();
    let mut i: usize = 0;
    while i < to_copy
        invariant
            i <= to_copy,
            to_copy <= bytes@.len(),
            out@.len() == i,
            forall|j: int| 0 <= j < i ==> out@[j] == bytes@[j],
        decreases to_copy - i,
    {
        out.push(bytes[i]);
        i = i + 1;
    }
    if bytes.len() > max_to_write {
        // Truncated: force the terminator back onto the last byte.
        out.set(to_copy - 1, 0);
    }
    out
}

impl<'a> GLInput<'a> {
    /// The first input texture, if the host supplied any.
    pub fn first_texture(&self) -> (r: Option<&'a FFGLTextureStruct>)
        ensures
            r is Some <==> self.textures@.len() > 0,
            r matches Some(t) ==> *t == self.textures@[0],
    {
        if self.textures.len() > 0 {
            Some(&self.textures[0])
        } else {
            None
        }
    }
}

} // verus!
