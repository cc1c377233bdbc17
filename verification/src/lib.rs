//! A small handle-based rendering core.
//!
//! Applications create vertex buffers, index buffers and shaders through
//! opaque handles, then once per frame hand the engine a list of draw
//! commands.  The engine keeps every resource in generational handle tables,
//! tracks the staging memory behind each resource, and turns the command
//! list into the ordered sequence of copy, barrier, bind and draw operations
//! that a graphics backend must issue for that frame.

use vstd::prelude::*;

pub mod handles;
pub mod upload;
pub mod draw_cmd;
pub mod spirv;
pub mod ops;
pub mod engine;
pub mod laws;

pub use crate::draw_cmd::DrawCmd;
pub use crate::engine::Blend;
pub use crate::engine::Engine;
pub use crate::engine::Primitive;
pub use crate::handles::IndexBuffer;
pub use crate::handles::Shader;
pub use crate::handles::Texture;
pub use crate::handles::VertexBuffer;

verus! {

/// The bit pattern of the 32-bit float 1.0; used for identity matrices.
pub const ONE_BITS: u32 = 0x3F80_0000;

/// A 4x4 transform matrix in row-major order.  Each cell holds the bit
/// pattern of a 32-bit float; the engine never interprets the numeric value,
/// it only stores transforms and hands out their table indices.
pub type Transform = [u32; 16];

/// The cells of the identity transform: ones down the diagonal.
pub open spec fn identity_cells() -> Seq<u32> {
    seq![
        ONE_BITS, 0u32, 0u32, 0u32,
        0u32, ONE_BITS, 0u32, 0u32,
        0u32, 0u32, ONE_BITS, 0u32,
        0u32, 0u32, 0u32, ONE_BITS,
    ]
}

/// The identity transform, stored in slot 0 of every frame's transform table.
pub fn transform_identity() -> (t: Transform)
    ensures
        t@ == identity_cells(),
{
    let t: Transform = [
        ONE_BITS, 0, 0, 0,
        0, ONE_BITS, 0, 0,
        0, 0, ONE_BITS, 0,
        0, 0, 0, ONE_BITS,
    ];
    proof {
        assert(t@ =~= identity_cells());
    }
    t
}

/// One vertex: a position and a colour, each carried as the bit patterns of
/// three 32-bit floats.  The engine treats vertices as opaque payload.
#[derive(Clone, Copy, PartialEq, Eq, Debug)]
pub struct Vertex {
    pub pos: [u32; 3],
    pub color: [u32; 3],
}

/// Everything that can go wrong inside the engine core.
///
/// Device-level failures (allocation, pipeline creation) belong to the
/// graphics backend that consumes the engine's output and are not represented
/// here.
#[derive(Clone, Copy, PartialEq, Eq, Debug)]
pub enum EngineError {
    /// A handle was stale or belongs to another engine instance.
    UnknownHandle,
    /// An update was attempted on a resource created with `dynamic = false`.
    StaticWrite,
    /// An update supplied a different element count than the resource was
    /// created with; lengths are immutable for the life of a handle.
    SizeMismatch,
    /// A frame needed more transform-table slots than the configured maximum.
    TooManyTransforms,
    /// Shader bytecode failed to decode as SPIR-V words.
    InvalidShaderBytes,
    /// The configured MSAA sample count is not a power of two up to 16.
    InvalidMsaa,
}

/// Launch settings for an engine instance.
pub struct Settings<Args = ()> {
    /// MSAA samples. Must be a power of two (up to 16).
    pub msaa_samples: u8,
    /// If true, present in VR.
    pub vr: bool,
    /// Application name.
    pub name: String,
    /// Maximum number of transforms able to be used at once.
    pub max_transforms: usize,
    /// User-defined arguments.
    pub args: Args,
}

impl Default for Settings<()> {
    /// The default configuration: 4x MSAA, no VR, room for 10000 transforms.
    fn default() -> (s: Self)
        ensures
            s.msaa_samples == 4,
            !s.vr,
            s.name@ == "Idek"@,
            s.max_transforms == 10000,
    {
        Settings {
            msaa_samples: 4,
            vr: false,
            name: "Idek".to_owned(),
            max_transforms: 10000,
            args: (),
        }
    }
}

impl<Args> Settings<Args> {
    /// Optionally enable VR.
    pub fn vr(self, vr: bool) -> (s: Self)
        ensures
            s == (Settings { vr, ..self }),
    {
        Settings { vr, ..self }
    }

    /// Set the application name.
    pub fn name(self, name: String) -> (s: Self)
        ensures
            s == (Settings { name, ..self }),
    {
        Settings { name, ..self }
    }

    /// Set the maximum number of transforms usable within one frame.
    pub fn max_transforms(self, max_transforms: usize) -> (s: Self)
        ensures
            s == (Settings { max_transforms, ..self }),
    {
        Settings { max_transforms, ..self }
    }
}

/// Context with which to change the rendering environment from within an
/// application; another name for the engine object.
pub type Context = crate::engine::Engine;

} // verus!
