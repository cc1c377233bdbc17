//! The low-level operations a frame emits.
//!
//! Submitting a frame turns the queued uploads and the draw-command list
//! into one ordered sequence of [`Op`] values: copies first, then a single
//! transfer-to-read barrier, the frame's descriptor-set bind, and one block
//! of bind/draw operations per draw command, in the list's own order.  A
//! graphics backend issues them one by one against its device.

use vstd::prelude::*;
use crate::Transform;
use crate::Vertex;
use crate::handles::IndexBuffer;
use crate::handles::Shader;
use crate::handles::VertexBuffer;

verus! {

/// One low-level operation of a frame's command sequence.
#[derive(Clone, PartialEq, Eq, Debug)]
#[allow(inconsistent_fields)]
pub enum Op {
    /// Copy a vertex buffer's current staging contents into its GPU buffer.
    CopyVertex { handle: VertexBuffer, data: Vec<Vertex> },
    /// Copy an index buffer's current staging contents into its GPU buffer.
    CopyIndex { handle: IndexBuffer, data: Vec<u32> },
    /// One transfer-write to shader-read barrier between the copy batch and
    /// the draw batch.
    Barrier,
    /// Bind the frame slot's descriptor set (scene uniform and transform
    /// storage) once, before any draw.
    BindDescriptorSet { frame_slot: usize },
    /// Bind the pipeline behind a shader handle.
    BindPipeline { shader: Shader },
    /// Convey a draw's transform-table index through a push constant.
    PushTransformIndex { index: u32 },
    /// Bind a vertex buffer's GPU buffer.
    BindVertexBuffer { handle: VertexBuffer },
    /// Bind an index buffer's GPU buffer.
    BindIndexBuffer { handle: IndexBuffer },
    /// Issue a non-indexed draw of `count` vertices.
    Draw { count: u32 },
    /// Issue an indexed draw of `count` indices.
    DrawIndexed { count: u32 },
}

/// The mathematical shape of an [`Op`], with sequences for buffer payloads.
#[allow(inconsistent_fields)]
pub enum OpView {
    CopyVertex { handle: VertexBuffer, data: Seq<Vertex> },
    CopyIndex { handle: IndexBuffer, data: Seq<u32> },
    Barrier,
    BindDescriptorSet { frame_slot: usize },
    BindPipeline { shader: Shader },
    PushTransformIndex { index: u32 },
    BindVertexBuffer { handle: VertexBuffer },
    BindIndexBuffer { handle: IndexBuffer },
    Draw { count: u32 },
    DrawIndexed { count: u32 },
}

impl View for Op {
    type V = OpView;

    open spec fn view(&self) -> OpView {
        match self {
            Op::CopyVertex { handle, data } => OpView::CopyVertex { handle: *handle, data: data@ },
            Op::CopyIndex { handle, data } => OpView::CopyIndex { handle: *handle, data: data@ },
            Op::Barrier => OpView::Barrier,
            Op::BindDescriptorSet { frame_slot } => OpView::BindDescriptorSet { frame_slot: *frame_slot },
            Op::BindPipeline { shader } => OpView::BindPipeline { shader: *shader },
            Op::PushTransformIndex { index } => OpView::PushTransformIndex { index: *index },
            Op::BindVertexBuffer { handle } => OpView::BindVertexBuffer { handle: *handle },
            Op::BindIndexBuffer { handle } => OpView::BindIndexBuffer { handle: *handle },
            Op::Draw { count } => OpView::Draw { count: *count },
            Op::DrawIndexed { count } => OpView::DrawIndexed { count: *count },
        }
    }
}

/// The views of a sequence of operations.
pub open spec fn ops_view(s: Seq<Op>) -> Seq<OpView> {
    s.map_values(|op: Op| op@)
}

/// Everything a frame submission hands to the graphics backend: the command
/// sequence, the frame's transform table (slot 0 is the identity), which
/// frame slot's per-frame resources to use, and the camera prefix to fold
/// into the frame's scene uniform.
pub struct FrameOutput {
    pub ops: Vec<Op>,
    pub transforms: Vec<Transform>,
    pub frame_slot: usize,
    pub camera_prefix: Transform,
}

} // verus!
