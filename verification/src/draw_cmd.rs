//! Frame-scoped draw commands.
//!
//! A [`DrawCmd`] is an immutable value describing one drawing operation: a
//! required vertex buffer, and optionally an index buffer, a texture, a
//! shader (falling back to the built-in default pipeline), a transform
//! (falling back to the identity in transform slot 0) and an element-count
//! limit.  A list of them is the whole contract between application logic
//! and the renderer for one frame.

use vstd::prelude::*;
use crate::Transform;
use crate::handles::IndexBuffer;
use crate::handles::Shader;
use crate::handles::Texture;
use crate::handles::VertexBuffer;

verus! {

/// A draw command; flexibly represents a number of different drawing
/// operations.
#[derive(Clone, Copy)]
pub struct DrawCmd {
    pub vertices: VertexBuffer,
    pub indices: Option<IndexBuffer>,
    pub texture: Option<Texture>,
    pub shader: Option<Shader>,
    pub transform: Option<Transform>,
    pub limit: Option<u32>,
}

impl DrawCmd {
    /// A command drawing `vertices` with every optional part left out.
    pub fn new(vertices: VertexBuffer) -> (c: Self)
        ensures
            c.vertices == vertices,
            c.indices is None,
            c.texture is None,
            c.shader is None,
            c.transform is None,
            c.limit is None,
    {
        Self {
            vertices,
            indices: None,
            texture: None,
            shader: None,
            transform: None,
            limit: None,
        }
    }

    /// Draw indexed, using the given index buffer.
    pub fn indices(self, indices: IndexBuffer) -> (c: Self)
        ensures
            c == (Self { indices: Some(indices), ..self }),
    {
        Self { indices: Some(indices), ..self }
    }

    /// Attach a texture handle.
    pub fn texture(self, texture: Texture) -> (c: Self)
        ensures
            c == (Self { texture: Some(texture), ..self }),
    {
        Self { texture: Some(texture), ..self }
    }

    /// Draw with the given shader instead of the built-in default.
    pub fn shader(self, shader: Shader) -> (c: Self)
        ensures
            c == (Self { shader: Some(shader), ..self }),
    {
        Self { shader: Some(shader), ..self }
    }

    /// Apply the given transform instead of the identity.
    pub fn transform(self, transform: Transform) -> (c: Self)
        ensures
            c == (Self { transform: Some(transform), ..self }),
    {
        Self { transform: Some(transform), ..self }
    }

    /// If indices have been defined: limit the indices used to this number.
    /// Otherwise: limit vertex drawing to this number.
    pub fn limit(self, limit: u32) -> (c: Self)
        ensures
            c == (Self { limit: Some(limit), ..self }),
    {
        Self { limit: Some(limit), ..self }
    }
}

} // verus!
