//! The engine core: resource tables, the upload queue, and frame submission.
//!
//! The engine owns one generational handle table per resource kind, the
//! staging memory behind every resource, and the list of uploads queued for
//! the next frame.  Once per frame it validates the application's draw
//! commands, drains the upload queue, and emits the frame's ordered command
//! sequence together with its transform table.

use vstd::prelude::*;
use crate::EngineError;
use crate::Settings;
use crate::Transform;
use crate::Vertex;
use crate::identity_cells;
use crate::transform_identity;
use crate::draw_cmd::DrawCmd;
use slotmap::DefaultKey;
use crate::handles::HandleTable;
use crate::handles::IndexBuffer;
use crate::handles::Shader;
use crate::handles::VertexBuffer;
use crate::handles::table_entries;
use crate::handles::table_get;
use crate::handles::table_insert;
use crate::handles::table_new;
use crate::ops::FrameOutput;
use crate::ops::Op;
use crate::ops::OpView;
use crate::ops::ops_view;
use crate::spirv::decode_spv;
use crate::spirv::spirv_decodes;
use crate::upload::QueuedUpload;
use crate::upload::SyncMemory;
use crate::upload::UploadBuffer;

verus! {

/// Bytes of one vertex: six 32-bit cells.
pub const VERTEX_BYTES: u64 = 24;

/// Bytes of one index: one 32-bit cell.
pub const INDEX_BYTES: u64 = 4;

/// The primitive topology a pipeline renders.
#[derive(Clone, Copy, PartialEq, Eq, Debug)]
pub enum Primitive {
    Points,
    Lines,
    Triangles,
}

/// The blend mode a pipeline renders with.
#[derive(Clone, Copy, PartialEq, Eq, Debug)]
pub enum Blend {
    Opaque,
    Additive,
}

/// What the engine records about one compiled shader: the fixed-function
/// state its pipeline was built with.  The pipeline object itself lives in
/// the graphics backend, keyed by the shader handle.
#[derive(Clone, Copy, PartialEq, Eq, Debug)]
pub struct ShaderRecord {
    pub primitive: Primitive,
    pub blend: Blend,
}

/// A valid MSAA sample count: a power of two, at most 16.
pub open spec fn msaa_valid(samples: u8) -> bool {
    samples == 1 || samples == 2 || samples == 4 || samples == 8 || samples == 16
}

/// A well-formed handle table over `n` records: finitely many live keys,
/// exactly one per record, each mapping to a distinct record index below `n`.
pub open spec fn table_wf(entries: Map<DefaultKey, usize>, n: nat) -> bool {
    &&& entries.dom().finite()
    &&& entries.dom().len() == n
    &&& forall|k: DefaultKey| entries.dom().contains(k) ==> #[trigger] entries[k] < n
    &&& forall|k1: DefaultKey, k2: DefaultKey|
        entries.dom().contains(k1) && entries.dom().contains(k2) && k1 != k2
            ==> #[trigger] entries[k1] != #[trigger] entries[k2]
}

/// The engine object, also known as the "context" from within application
/// code.
pub struct Engine {
    /// Vertex-buffer handle table and records.
    pub vertex_tab: HandleTable,
    pub vertex_recs: Vec<SyncMemory<Vertex>>,
    /// What each vertex buffer's GPU-resident memory holds, given that the
    /// backend has issued every emitted copy; empty until first uploaded.
    pub vertex_gpu: Ghost<Seq<Seq<Vertex>>>,
    /// Index-buffer handle table and records.
    pub index_tab: HandleTable,
    pub index_recs: Vec<SyncMemory<u32>>,
    /// What each index buffer's GPU-resident memory holds.
    pub index_gpu: Ghost<Seq<Seq<u32>>>,
    /// Shader handle table and records.
    pub shader_tab: HandleTable,
    pub shader_recs: Vec<ShaderRecord>,
    /// The built-in unlit shader, used when a draw command names none.
    pub default_shader_key: Shader,
    /// Number of frame slots cycling through the swapchain.
    pub frames_in_flight: usize,
    /// The frame slot the CPU may write this frame; advances round-robin on
    /// every submitted frame.
    pub frame: usize,
    /// Capacity of each frame's transform table, identity slot included.
    pub max_transforms: usize,
    /// Applied to each vertex before the platform's view and projection.
    pub camera_prefix: Transform,
    /// The current swapchain extent in pixels, as last reported by the
    /// presentation layer: (width, height).
    pub screen: (u32, u32),
    /// Uploads to be issued at the start of the next frame.
    pub queued_uploads: Vec<QueuedUpload>,
}

impl Engine {
    /// The live vertex-buffer table entries.
    pub open spec fn vtab(self) -> Map<DefaultKey, usize> {
        table_entries(self.vertex_tab)
    }

    /// The live index-buffer table entries.
    pub open spec fn itab(self) -> Map<DefaultKey, usize> {
        table_entries(self.index_tab)
    }

    /// The live shader table entries.
    pub open spec fn stab(self) -> Map<DefaultKey, usize> {
        table_entries(self.shader_tab)
    }

    /// Whether `h` is a live vertex-buffer handle of this engine.
    pub open spec fn has_vertex(self, h: VertexBuffer) -> bool {
        self.vtab().dom().contains(h.raw)
    }

    /// Whether `h` is a live index-buffer handle of this engine.
    pub open spec fn has_index(self, h: IndexBuffer) -> bool {
        self.itab().dom().contains(h.raw)
    }

    /// Whether `h` is a live shader handle of this engine.
    pub open spec fn has_shader(self, h: Shader) -> bool {
        self.stab().dom().contains(h.raw)
    }

    /// The record behind a live vertex-buffer handle.
    pub open spec fn vertex_rec(self, h: VertexBuffer) -> SyncMemory<Vertex> {
        self.vertex_recs@[self.vtab()[h.raw] as int]
    }

    /// The record behind a live index-buffer handle.
    pub open spec fn index_rec(self, h: IndexBuffer) -> SyncMemory<u32> {
        self.index_recs@[self.itab()[h.raw] as int]
    }

    /// The modelled GPU-resident contents behind a live vertex-buffer handle.
    pub open spec fn vertex_gpu_of(self, h: VertexBuffer) -> Seq<Vertex> {
        self.vertex_gpu@[self.vtab()[h.raw] as int]
    }

    /// The modelled GPU-resident contents behind a live index-buffer handle.
    pub open spec fn index_gpu_of(self, h: IndexBuffer) -> Seq<u32> {
        self.index_gpu@[self.itab()[h.raw] as int]
    }

    /// Whether a queued upload refers to a live handle of this engine.
    pub open spec fn queued_valid(self, q: QueuedUpload) -> bool {
        match q {
            QueuedUpload::VertexBuffer(h) => self.has_vertex(h),
            QueuedUpload::IndexBuffer(h) => self.has_index(h),
        }
    }

    /// The engine's internal invariant: tables map bijectively onto their
    /// record vectors, every record's staging storage matches its metadata,
    /// the current frame slot is in range, the default shader is live, the
    /// transform capacity fits the 4-byte per-draw tag, and every queued
    /// upload refers to a live resource.
    pub open spec fn wf(self) -> bool {
        &&& table_wf(self.vtab(), self.vertex_recs@.len())
        &&& table_wf(self.itab(), self.index_recs@.len())
        &&& table_wf(self.stab(), self.shader_recs@.len())
        &&& self.vertex_gpu@.len() == self.vertex_recs@.len()
        &&& self.index_gpu@.len() == self.index_recs@.len()
        &&& forall|i: int| 0 <= i < self.vertex_recs@.len()
            ==> (#[trigger] self.vertex_recs@[i]).wf(VERTEX_BYTES as nat, self.frames_in_flight as nat)
        &&& forall|i: int| 0 <= i < self.index_recs@.len()
            ==> (#[trigger] self.index_recs@[i]).wf(INDEX_BYTES as nat, self.frames_in_flight as nat)
        &&& self.frames_in_flight >= 1
        &&& self.frame < self.frames_in_flight
        &&& self.has_shader(self.default_shader_key)
        &&& self.max_transforms <= u32::MAX
        &&& forall|qi: int| 0 <= qi < self.queued_uploads@.len()
            ==> self.queued_valid(#[trigger] self.queued_uploads@[qi])
    }

    /// A freshly constructed engine: empty tables but for the default
    /// shader, an empty upload queue, frame slot 0 and an identity camera
    /// prefix.
    pub open spec fn fresh(self, max_transforms: usize, frames_in_flight: usize) -> bool {
        &&& self.vtab().dom() =~= Set::<DefaultKey>::empty()
        &&& self.itab().dom() =~= Set::<DefaultKey>::empty()
        &&& self.stab() =~= Map::<DefaultKey, usize>::empty().insert(self.default_shader_key.raw, 0)
        &&& self.vertex_recs@.len() == 0
        &&& self.index_recs@.len() == 0
        &&& self.shader_recs@ =~= seq![ShaderRecord { primitive: Primitive::Triangles, blend: Blend::Opaque }]
        &&& self.queued_uploads@.len() == 0
        &&& self.frame == 0
        &&& self.frames_in_flight == frames_in_flight
        &&& self.max_transforms == max_transforms
        &&& self.camera_prefix@ == identity_cells()
        &&& self.screen == (0u32, 0u32)
    }

    /// Create an engine from launch settings.  The built-in default shader
    /// is installed as the first entry of the shader table; its pipeline
    /// state is triangles with opaque blending.
    pub fn new<Args>(settings: &Settings<Args>, frames_in_flight: usize) -> (r: Result<Engine, EngineError>)
        requires
            frames_in_flight >= 1,
            settings.max_transforms <= u32::MAX,
        ensures
            r is Ok <==> msaa_valid(settings.msaa_samples),
            r matches Err(e) ==> e == EngineError::InvalidMsaa,
            r matches Ok(eng) ==> eng.wf() && eng.fresh(settings.max_transforms, frames_in_flight),
    {
        let m = settings.msaa_samples;
        if !(m == 1 || m == 2 || m == 4 || m == 8 || m == 16) {
            return Err(EngineError::InvalidMsaa);
        }
        let mut shader_tab = table_new();
        let default_key = table_insert(&mut shader_tab, 0);
        let mut shader_recs: Vec<ShaderRecord> = Vec::new();
        shader_recs.push(ShaderRecord { primitive: Primitive::Triangles, blend: Blend::Opaque });
        let eng = Engine {
            vertex_tab: table_new(),
            vertex_recs: Vec::new(),
            vertex_gpu: Ghost(Seq::empty()),
            index_tab: table_new(),
            index_recs: Vec::new(),
            index_gpu: Ghost(Seq::empty()),
            shader_tab,
            shader_recs,
            default_shader_key: Shader { raw: default_key },
            frames_in_flight,
            frame: 0,
            max_transforms: settings.max_transforms,
            camera_prefix: transform_identity(),
            screen: (0, 0),
            queued_uploads: Vec::new(),
        };
        Ok(eng)
    }

    /// Set the camera prefix.  This transformation is applied to each vertex
    /// before the platform-supplied view and projection matrices.
    pub fn set_camera_prefix(&mut self, matrix: Transform)
        ensures
            *final(self) == (Engine { camera_prefix: matrix, ..*old(self) }),
    {
        self.camera_prefix = matrix;
    }

    /// Record the new swapchain extent after a resize reported by the
    /// presentation layer.
    pub fn swapchain_resize(&mut self, width: u32, height: u32)
        ensures
            *final(self) == (Engine { screen: (width, height), ..*old(self) }),
    {
        self.screen = (width, height);
    }

    /// The current screen size in pixels: (width, height).
    pub fn screen_size(&self) -> (r: (u32, u32))
        ensures
            r == self.screen,
    {
        self.screen
    }

    /// Everything a vertex-buffer creation leaves untouched.
    pub open spec fn same_but_vertices(self, post: Engine) -> bool {
        &&& post.index_tab == self.index_tab
        &&& post.index_recs == self.index_recs
        &&& post.index_gpu == self.index_gpu
        &&& post.shader_tab == self.shader_tab
        &&& post.shader_recs == self.shader_recs
        &&& post.default_shader_key == self.default_shader_key
        &&& post.frames_in_flight == self.frames_in_flight
        &&& post.frame == self.frame
        &&& post.max_transforms == self.max_transforms
        &&& post.camera_prefix == self.camera_prefix
        &&& post.screen == self.screen
    }

    /// Everything an index-buffer creation leaves untouched.
    pub open spec fn same_but_indices(self, post: Engine) -> bool {
        &&& post.vertex_tab == self.vertex_tab
        &&& post.vertex_recs == self.vertex_recs
        &&& post.vertex_gpu == self.vertex_gpu
        &&& post.shader_tab == self.shader_tab
        &&& post.shader_recs == self.shader_recs
        &&& post.default_shader_key == self.default_shader_key
        &&& post.frames_in_flight == self.frames_in_flight
        &&& post.frame == self.frame
        &&& post.max_transforms == self.max_transforms
        &&& post.camera_prefix == self.camera_prefix
        &&& post.screen == self.screen
    }

    /// How `vertices(data, dynamic)` relates the engine before and after the
    /// call, when it hands out handle `h`: a fresh handle now maps to a new
    /// record whose every staging slot holds `data`, an upload of `h` is
    /// queued, and nothing else changes.
    pub open spec fn created_vertices(
        self,
        post: Engine,
        data: Seq<Vertex>,
        dynamic: bool,
        h: VertexBuffer,
    ) -> bool {
        &&& !self.has_vertex(h)
        &&& post.vtab() == self.vtab().insert(h.raw, self.vertex_recs@.len() as usize)
        &&& post.vertex_recs@.len() == self.vertex_recs@.len() + 1
        &&& post.vertex_recs@.subrange(0, self.vertex_recs@.len() as int) == self.vertex_recs@
        &&& post.vertex_recs@.last().length == data.len()
        &&& post.vertex_recs@.last().size_bytes == data.len() * VERTEX_BYTES
        &&& post.vertex_recs@.last().cpu.is_dynamic() == dynamic
        &&& forall|s: int| 0 <= s < self.frames_in_flight
            ==> post.vertex_recs@.last().cpu.slot_view(s) == data
        &&& post.vertex_gpu@ == self.vertex_gpu@.push(Seq::<Vertex>::empty())
        &&& post.queued_uploads@ == self.queued_uploads@.push(QueuedUpload::VertexBuffer(h))
        &&& self.same_but_vertices(post)
    }

    /// How `indices(data, dynamic)` relates the engine before and after the
    /// call, when it hands out handle `h`.
    pub open spec fn created_indices(
        self,
        post: Engine,
        data: Seq<u32>,
        dynamic: bool,
        h: IndexBuffer,
    ) -> bool {
        &&& !self.has_index(h)
        &&& post.itab() == self.itab().insert(h.raw, self.index_recs@.len() as usize)
        &&& post.index_recs@.len() == self.index_recs@.len() + 1
        &&& post.index_recs@.subrange(0, self.index_recs@.len() as int) == self.index_recs@
        &&& post.index_recs@.last().length == data.len()
        &&& post.index_recs@.last().size_bytes == data.len() * INDEX_BYTES
        &&& post.index_recs@.last().cpu.is_dynamic() == dynamic
        &&& forall|s: int| 0 <= s < self.frames_in_flight
            ==> post.index_recs@.last().cpu.slot_view(s) == data
        &&& post.index_gpu@ == self.index_gpu@.push(Seq::<u32>::empty())
        &&& post.queued_uploads@ == self.queued_uploads@.push(QueuedUpload::IndexBuffer(h))
        &&& self.same_but_indices(post)
    }

    /// Upload a set of vertices.  The backing GPU buffer is sized to the
    /// data; with `dynamic = true` the resource may be rewritten each frame.
    /// An initial upload is queued so the data reaches the GPU buffer before
    /// first use.
    pub fn vertices(&mut self, vertices: &[Vertex], dynamic: bool) -> (r: Result<
        VertexBuffer,
        EngineError,
    >)
        requires
            old(self).wf(),
            old(self).vertex_recs@.len() < 0xFFFF_FFFE,
            vertices@.len() <= u32::MAX,
            vertices@.len() * VERTEX_BYTES <= u64::MAX,
        ensures
            (*final(self)).wf(),
            r is Ok,
            r matches Ok(h) ==> old(self).created_vertices(*final(self), vertices@, dynamic, h),
    {
        let size_bytes = (vertices.len() as u64) * VERTEX_BYTES;
        let length = vertices.len() as u32;
        let cpu = UploadBuffer::new(vertices, self.frames_in_flight, dynamic);
        let idx = self.vertex_recs.len();
        let key = table_insert(&mut self.vertex_tab, idx);
        self.vertex_recs.push(SyncMemory { cpu, size_bytes, length });
        self.vertex_gpu = Ghost(self.vertex_gpu@.push(Seq::<Vertex>::empty()));
        let h = VertexBuffer { raw: key };
        self.queued_uploads.push(QueuedUpload::VertexBuffer(h));
        proof {
            assert(self.vertex_recs@.subrange(0, old(self).vertex_recs@.len() as int)
                =~= old(self).vertex_recs@);
            assert(self.vtab() =~= old(self).vtab().insert(
                h.raw,
                old(self).vertex_recs@.len() as usize,
            ));
        }
        Ok(h)
    }

    /// Upload a set of indices.  The backing GPU buffer is sized to the
    /// data; with `dynamic = true` the resource may be rewritten each frame.
    /// An initial upload is queued so the data reaches the GPU buffer before
    /// first use.
    pub fn indices(&mut self, indices: &[u32], dynamic: bool) -> (r: Result<
        IndexBuffer,
        EngineError,
    >)
        requires
            old(self).wf(),
            old(self).index_recs@.len() < 0xFFFF_FFFE,
            indices@.len() <= u32::MAX,
            indices@.len() * INDEX_BYTES <= u64::MAX,
        ensures
            (*final(self)).wf(),
            r is Ok,
            r matches Ok(h) ==> old(self).created_indices(*final(self), indices@, dynamic, h),
    {
        let size_bytes = (indices.len() as u64) * INDEX_BYTES;
        let length = indices.len() as u32;
        let cpu = UploadBuffer::new(indices, self.frames_in_flight, dynamic);
        let idx = self.index_recs.len();
        let key = table_insert(&mut self.index_tab, idx);
        self.index_recs.push(SyncMemory { cpu, size_bytes, length });
        self.index_gpu = Ghost(self.index_gpu@.push(Seq::<u32>::empty()));
        let h = IndexBuffer { raw: key };
        self.queued_uploads.push(QueuedUpload::IndexBuffer(h));
        proof {
            assert(self.index_recs@.subrange(0, old(self).index_recs@.len() as int)
                =~= old(self).index_recs@);
            assert(self.itab() =~= old(self).itab().insert(
                h.raw,
                old(self).index_recs@.len() as usize,
            ));
        }
        Ok(h)
    }

    /// How `update_vertices(h, data)` relates the engine before and after
    /// the call: rejected outright for a stale handle, a static resource or
    /// a changed element count; otherwise the staging buffer of the current
    /// frame slot now holds `data`, an upload of `h` is queued, and nothing
    /// else changes.
    pub open spec fn updated_vertices(
        self,
        post: Engine,
        h: VertexBuffer,
        data: Seq<Vertex>,
        r: Result<(), EngineError>,
    ) -> bool {
        if !self.has_vertex(h) {
            r == Err::<(), EngineError>(EngineError::UnknownHandle) && post == self
        } else if !self.vertex_rec(h).cpu.is_dynamic() {
            r == Err::<(), EngineError>(EngineError::StaticWrite) && post == self
        } else if data.len() != self.vertex_rec(h).length {
            r == Err::<(), EngineError>(EngineError::SizeMismatch) && post == self
        } else {
            let i = self.vtab()[h.raw] as int;
            &&& r == Ok::<(), EngineError>(())
            &&& post.vertex_recs@.len() == self.vertex_recs@.len()
            &&& forall|j: int| 0 <= j < self.vertex_recs@.len() && j != i
                ==> post.vertex_recs@[j] == self.vertex_recs@[j]
            &&& post.vertex_recs@[i].length == self.vertex_recs@[i].length
            &&& post.vertex_recs@[i].size_bytes == self.vertex_recs@[i].size_bytes
            &&& post.vertex_recs@[i].cpu.is_dynamic()
            &&& post.vertex_recs@[i].cpu.slot_view(self.frame as int) == data
            &&& forall|s: int| 0 <= s < self.frames_in_flight && s != self.frame
                ==> post.vertex_recs@[i].cpu.slot_view(s) == self.vertex_recs@[i].cpu.slot_view(s)
            &&& post.vertex_gpu == self.vertex_gpu
            &&& post.vertex_tab == self.vertex_tab
            &&& post.queued_uploads@ == self.queued_uploads@.push(QueuedUpload::VertexBuffer(h))
            &&& self.same_but_vertices(post)
        }
    }

    /// How `update_indices(h, data)` relates the engine before and after the
    /// call.
    pub open spec fn updated_indices(
        self,
        post: Engine,
        h: IndexBuffer,
        data: Seq<u32>,
        r: Result<(), EngineError>,
    ) -> bool {
        if !self.has_index(h) {
            r == Err::<(), EngineError>(EngineError::UnknownHandle) && post == self
        } else if !self.index_rec(h).cpu.is_dynamic() {
            r == Err::<(), EngineError>(EngineError::StaticWrite) && post == self
        } else if data.len() != self.index_rec(h).length {
            r == Err::<(), EngineError>(EngineError::SizeMismatch) && post == self
        } else {
            let i = self.itab()[h.raw] as int;
            &&& r == Ok::<(), EngineError>(())
            &&& post.index_recs@.len() == self.index_recs@.len()
            &&& forall|j: int| 0 <= j < self.index_recs@.len() && j != i
                ==> post.index_recs@[j] == self.index_recs@[j]
            &&& post.index_recs@[i].length == self.index_recs@[i].length
            &&& post.index_recs@[i].size_bytes == self.index_recs@[i].size_bytes
            &&& post.index_recs@[i].cpu.is_dynamic()
            &&& post.index_recs@[i].cpu.slot_view(self.frame as int) == data
            &&& forall|s: int| 0 <= s < self.frames_in_flight && s != self.frame
                ==> post.index_recs@[i].cpu.slot_view(s) == self.index_recs@[i].cpu.slot_view(s)
            &&& post.index_gpu == self.index_gpu
            &&& post.index_tab == self.index_tab
            &&& post.queued_uploads@ == self.queued_uploads@.push(QueuedUpload::IndexBuffer(h))
            &&& self.same_but_indices(post)
        }
    }

    /// Dynamically rewrite a vertex buffer's data for the current frame
    /// slot.  Fails for a stale or foreign handle, for a buffer created with
    /// `dynamic = false`, and for data whose element count differs from the
    /// count the buffer was created with.
    pub fn update_vertices(&mut self, handle: VertexBuffer, vertices: &[Vertex]) -> (r: Result<
        (),
        EngineError,
    >)
        requires
            old(self).wf(),
        ensures
            (*final(self)).wf(),
            old(self).updated_vertices(*final(self), handle, vertices@, r),
    {
        let frame = self.frame;
        let idx = match table_get(&self.vertex_tab, handle.raw) {
            None => {
                return Err(EngineError::UnknownHandle);
            },
            Some(i) => i,
        };
        let is_dynamic = match &self.vertex_recs[idx].cpu {
            UploadBuffer::Dynamic { .. } => true,
            UploadBuffer::Static { .. } => false,
        };
        if !is_dynamic {
            return Err(EngineError::StaticWrite);
        }
        if vertices.len() != self.vertex_recs[idx].length as usize {
            return Err(EngineError::SizeMismatch);
        }
        let w = self.vertex_recs[idx].cpu.write(frame, vertices);
        match w {
            Ok(()) => {
                self.queued_uploads.push(QueuedUpload::VertexBuffer(handle));
                Ok(())
            },
            Err(e) => {
                proof {
                    assert(false);
                }
                Err(e)
            },
        }
    }

    /// Dynamically rewrite an index buffer's data for the current frame
    /// slot.  Fails for a stale or foreign handle, for a buffer created with
    /// `dynamic = false`, and for data whose element count differs from the
    /// count the buffer was created with.
    pub fn update_indices(&mut self, handle: IndexBuffer, indices: &[u32]) -> (r: Result<
        (),
        EngineError,
    >)
        requires
            old(self).wf(),
        ensures
            (*final(self)).wf(),
            old(self).updated_indices(*final(self), handle, indices@, r),
    {
        let frame = self.frame;
        let idx = match table_get(&self.index_tab, handle.raw) {
            None => {
                return Err(EngineError::UnknownHandle);
            },
            Some(i) => i,
        };
        let is_dynamic = match &self.index_recs[idx].cpu {
            UploadBuffer::Dynamic { .. } => true,
            UploadBuffer::Static { .. } => false,
        };
        if !is_dynamic {
            return Err(EngineError::StaticWrite);
        }
        if indices.len() != self.index_recs[idx].length as usize {
            return Err(EngineError::SizeMismatch);
        }
        let w = self.index_recs[idx].cpu.write(frame, indices);
        match w {
            Ok(()) => {
                self.queued_uploads.push(QueuedUpload::IndexBuffer(handle));
                Ok(())
            },
            Err(e) => {
                proof {
                    assert(false);
                }
                Err(e)
            },
        }
    }

    /// Everything a shader creation leaves untouched.
    pub open spec fn same_but_shaders(self, post: Engine) -> bool {
        &&& post.vertex_tab == self.vertex_tab
        &&& post.vertex_recs == self.vertex_recs
        &&& post.vertex_gpu == self.vertex_gpu
        &&& post.index_tab == self.index_tab
        &&& post.index_recs == self.index_recs
        &&& post.index_gpu == self.index_gpu
        &&& post.default_shader_key == self.default_shader_key
        &&& post.frames_in_flight == self.frames_in_flight
        &&& post.frame == self.frame
        &&& post.max_transforms == self.max_transforms
        &&& post.camera_prefix == self.camera_prefix
        &&& post.screen == self.screen
        &&& post.queued_uploads == self.queued_uploads
    }

    /// How `shader(..)` relates the engine before and after the call when it
    /// hands out handle `h`.
    pub open spec fn created_shader(
        self,
        post: Engine,
        primitive: Primitive,
        blend: Blend,
        h: Shader,
    ) -> bool {
        &&& !self.has_shader(h)
        &&& post.stab() == self.stab().insert(h.raw, self.shader_recs@.len() as usize)
        &&& post.shader_recs@ == self.shader_recs@.push(ShaderRecord { primitive, blend })
        &&& self.same_but_shaders(post)
    }

    /// Upload a shader: validate that both byte blobs decode as SPIR-V, then
    /// record a pipeline with the given topology and blend mode under a
    /// fresh handle.  Malformed bytecode is a reported error.
    pub fn shader(
        &mut self,
        vertex: &[u8],
        fragment: &[u8],
        primitive: Primitive,
        blend: Blend,
    ) -> (r: Result<Shader, EngineError>)
        requires
            old(self).wf(),
            old(self).shader_recs@.len() < 0xFFFF_FFFE,
        ensures
            (*final(self)).wf(),
            r is Ok <==> spirv_decodes(vertex@) && spirv_decodes(fragment@),
            r is Err ==> r == Err::<Shader, EngineError>(EngineError::InvalidShaderBytes)
                && *final(self) == *old(self),
            r matches Ok(h) ==> old(self).created_shader(*final(self), primitive, blend, h),
    {
        match decode_spv(vertex) {
            Ok(_) => (),
            Err(_) => {
                return Err(EngineError::InvalidShaderBytes);
            },
        }
        match decode_spv(fragment) {
            Ok(_) => (),
            Err(_) => {
                return Err(EngineError::InvalidShaderBytes);
            },
        }
        let idx = self.shader_recs.len();
        let key = table_insert(&mut self.shader_tab, idx);
        self.shader_recs.push(ShaderRecord { primitive, blend });
        proof {
            assert(self.stab() =~= old(self).stab().insert(
                key,
                old(self).shader_recs@.len() as usize,
            ));
        }
        Ok(Shader { raw: key })
    }
}

/// The transforms supplied by a command list, in list order.
pub open spec fn some_transforms(cmds: Seq<DrawCmd>) -> Seq<Transform>
    decreases cmds.len(),
{
    if cmds.len() == 0 {
        Seq::empty()
    } else {
        let rest = some_transforms(cmds.drop_last());
        match cmds.last().transform {
            Some(t) => rest.push(t),
            None => rest,
        }
    }
}

/// The transform-table index command `i` draws with: 0 (the identity) when
/// it supplies no transform, else one slot past the transforms supplied by
/// the commands before it.
pub open spec fn transform_index(cmds: Seq<DrawCmd>, i: int) -> u32 {
    if cmds[i].transform is Some {
        (1 + some_transforms(cmds.take(i)).len()) as u32
    } else {
        0u32
    }
}

/// The element count a draw issues: the buffer's element count, capped by
/// the command's limit when one is given.
pub open spec fn spec_draw_count(len: u32, limit: Option<u32>) -> u32 {
    match limit {
        Some(l) => if l < len {
            l
        } else {
            len
        },
        None => len,
    }
}

/// Extending a command list by one command appends its transform, if any.
pub proof fn lemma_some_transforms_step(cmds: Seq<DrawCmd>, n: int)
    requires
        0 <= n < cmds.len(),
    ensures
        some_transforms(cmds.take(n + 1)) == (match cmds[n].transform {
            Some(t) => some_transforms(cmds.take(n)).push(t),
            None => some_transforms(cmds.take(n)),
        }),
{
    assert(cmds.take(n + 1).drop_last() =~= cmds.take(n));
    assert(cmds.take(n + 1).last() == cmds[n]);
}

/// A prefix of a command list supplies at most as many transforms as the
/// whole list.
pub proof fn lemma_some_transforms_prefix_len(cmds: Seq<DrawCmd>, n: int)
    requires
        0 <= n <= cmds.len(),
    ensures
        some_transforms(cmds.take(n)).len() <= some_transforms(cmds).len(),
    decreases cmds.len() - n,
{
    if n == cmds.len() {
        assert(cmds.take(n) =~= cmds);
    } else {
        lemma_some_transforms_step(cmds, n);
        lemma_some_transforms_prefix_len(cmds, n + 1);
    }
}

impl Engine {
    /// Whether one draw command refers only to live handles of this engine.
    pub open spec fn cmd_valid(self, c: DrawCmd) -> bool {
        &&& self.has_vertex(c.vertices)
        &&& (c.indices matches Some(ib) ==> self.has_index(ib))
        &&& (c.shader matches Some(s) ==> self.has_shader(s))
    }

    /// Whether every command of a frame refers only to live handles.
    pub open spec fn cmds_valid(self, cmds: Seq<DrawCmd>) -> bool {
        forall|i: int| 0 <= i < cmds.len() ==> self.cmd_valid(#[trigger] cmds[i])
    }

    /// Whether a frame's transform table fits the configured capacity,
    /// counting the identity in slot 0.
    pub open spec fn frame_fits(self, cmds: Seq<DrawCmd>) -> bool {
        1 + some_transforms(cmds).len() <= self.max_transforms
    }

    /// Whether a frame submission succeeds.
    pub open spec fn frame_ok(self, cmds: Seq<DrawCmd>) -> bool {
        self.cmds_valid(cmds) && self.frame_fits(cmds)
    }

    /// The pipeline a command draws with: its own shader, or the built-in
    /// default when it names none.
    pub open spec fn resolve_shader(self, c: DrawCmd) -> Shader {
        match c.shader {
            Some(s) => s,
            None => self.default_shader_key,
        }
    }

    /// The operations emitted for command `i`: bind its pipeline, push its
    /// transform index, bind its vertex buffer, then either an indexed draw
    /// (index buffer bound first) or a plain draw, with the count capped by
    /// its limit.
    pub open spec fn draw_block_view(self, cmds: Seq<DrawCmd>, i: int) -> Seq<OpView> {
        let c = cmds[i];
        let head = seq![
            OpView::BindPipeline { shader: self.resolve_shader(c) },
            OpView::PushTransformIndex { index: transform_index(cmds, i) },
            OpView::BindVertexBuffer { handle: c.vertices },
        ];
        match c.indices {
            Some(ib) => head + seq![
                OpView::BindIndexBuffer { handle: ib },
                OpView::DrawIndexed { count: spec_draw_count(self.index_rec(ib).length, c.limit) },
            ],
            None => head.push(
                OpView::Draw { count: spec_draw_count(self.vertex_rec(c.vertices).length, c.limit) },
            ),
        }
    }

    /// The operations emitted for the first `n` commands, in list order.
    pub open spec fn draw_ops_view(self, cmds: Seq<DrawCmd>, n: int) -> Seq<OpView>
        decreases n,
    {
        if n <= 0 {
            Seq::empty()
        } else {
            self.draw_ops_view(cmds, n - 1) + self.draw_block_view(cmds, n - 1)
        }
    }

    /// The copy emitted for one queued upload: the staging contents of the
    /// current frame slot, bound for the resource's GPU buffer.
    pub open spec fn upload_op_view(self, q: QueuedUpload) -> OpView {
        match q {
            QueuedUpload::VertexBuffer(h) => OpView::CopyVertex {
                handle: h,
                data: self.vertex_rec(h).cpu.slot_view(self.frame as int),
            },
            QueuedUpload::IndexBuffer(h) => OpView::CopyIndex {
                handle: h,
                data: self.index_rec(h).cpu.slot_view(self.frame as int),
            },
        }
    }

    /// The copies emitted for the first `n` queued uploads, in queue order.
    pub open spec fn upload_ops_view(self, n: int) -> Seq<OpView> {
        Seq::new(n as nat, |qi: int| self.upload_op_view(self.queued_uploads@[qi]))
    }

    /// The whole command sequence of a frame: every queued copy, one
    /// barrier, the frame's descriptor-set bind, then one block per draw
    /// command in the list's order.
    pub open spec fn frame_ops_view(self, cmds: Seq<DrawCmd>) -> Seq<OpView> {
        self.upload_ops_view(self.queued_uploads@.len() as int)
            + seq![OpView::Barrier, OpView::BindDescriptorSet { frame_slot: self.frame }]
            + self.draw_ops_view(cmds, cmds.len() as int)
    }

    /// Whether one of the first `n` queued uploads copies into vertex
    /// record `i`.
    pub open spec fn vertex_uploaded_upto(self, i: int, n: int) -> bool {
        exists|qi: int|
            0 <= qi < n && ((#[trigger] self.queued_uploads@[qi]) matches QueuedUpload::VertexBuffer(h)
                && self.has_vertex(h) && self.vtab()[h.raw] == i)
    }

    /// Whether any queued upload copies into vertex record `i`.
    pub open spec fn vertex_uploaded(self, i: int) -> bool {
        self.vertex_uploaded_upto(i, self.queued_uploads@.len() as int)
    }

    /// Whether one of the first `n` queued uploads copies into index
    /// record `i`.
    pub open spec fn index_uploaded_upto(self, i: int, n: int) -> bool {
        exists|qi: int|
            0 <= qi < n && ((#[trigger] self.queued_uploads@[qi]) matches QueuedUpload::IndexBuffer(h)
                && self.has_index(h) && self.itab()[h.raw] == i)
    }

    /// Whether any queued upload copies into index record `i`.
    pub open spec fn index_uploaded(self, i: int) -> bool {
        self.index_uploaded_upto(i, self.queued_uploads@.len() as int)
    }

    /// How a successful frame submission advances the engine: the upload
    /// queue is drained, the frame slot moves round-robin, the GPU-resident
    /// contents of every uploaded resource now equal the staging contents
    /// that were copied, and everything else is untouched.
    pub open spec fn frame_advanced(self, post: Engine) -> bool {
        &&& post.vertex_tab == self.vertex_tab
        &&& post.vertex_recs == self.vertex_recs
        &&& post.index_tab == self.index_tab
        &&& post.index_recs == self.index_recs
        &&& post.shader_tab == self.shader_tab
        &&& post.shader_recs == self.shader_recs
        &&& post.default_shader_key == self.default_shader_key
        &&& post.frames_in_flight == self.frames_in_flight
        &&& post.max_transforms == self.max_transforms
        &&& post.camera_prefix == self.camera_prefix
        &&& post.screen == self.screen
        &&& post.queued_uploads@.len() == 0
        &&& post.frame == if self.frame + 1 == self.frames_in_flight {
            0int
        } else {
            self.frame + 1
        }
        &&& post.vertex_gpu@.len() == self.vertex_recs@.len()
        &&& forall|i: int| 0 <= i < self.vertex_recs@.len() ==> #[trigger] post.vertex_gpu@[i] == (
            if self.vertex_uploaded(i) {
                self.vertex_recs@[i].cpu.slot_view(self.frame as int)
            } else {
                self.vertex_gpu@[i]
            })
        &&& post.index_gpu@.len() == self.index_recs@.len()
        &&& forall|i: int| 0 <= i < self.index_recs@.len() ==> #[trigger] post.index_gpu@[i] == (
            if self.index_uploaded(i) {
                self.index_recs@[i].cpu.slot_view(self.frame as int)
            } else {
                self.index_gpu@[i]
            })
    }

    /// Submit one frame.
    ///
    /// The command list is validated first: a stale handle or a transform
    /// table over capacity fails the whole frame before anything is emitted,
    /// leaving the engine — and so the GPU — exactly as the prior frame left
    /// it.  On success the queued uploads are drained into copy operations,
    /// followed by one barrier, the frame's descriptor-set bind, and one
    /// bind/draw block per command in the list's own order; the frame's
    /// transform table and the frame slot round-robin advance complete the
    /// submission.
    #[verifier::loop_isolation(false)]
    pub fn frame(&mut self, packet: Vec<DrawCmd>) -> (r: Result<FrameOutput, EngineError>)
        requires
            old(self).wf(),
        ensures
            (*final(self)).wf(),
            r is Ok <==> old(self).frame_ok(packet@),
            !old(self).cmds_valid(packet@) ==> r == Err::<FrameOutput, EngineError>(
                EngineError::UnknownHandle,
            ) && *final(self) == *old(self),
            old(self).cmds_valid(packet@) && !old(self).frame_fits(packet@) ==> r == Err::<
                FrameOutput,
                EngineError,
            >(EngineError::TooManyTransforms) && *final(self) == *old(self),
            r matches Ok(out) ==> {
                &&& ops_view(out.ops@) == old(self).frame_ops_view(packet@)
                &&& out.transforms@.len() == 1 + some_transforms(packet@).len()
                &&& out.transforms@[0]@ == identity_cells()
                &&& out.transforms@.subrange(1, out.transforms@.len() as int) == some_transforms(
                    packet@,
                )
                &&& out.frame_slot == old(self).frame
                &&& out.camera_prefix == old(self).camera_prefix
                &&& old(self).frame_advanced(*final(self))
            },
    {
        // Validation: every handle must be live and the transform table,
        // identity included, must fit the configured capacity.  Nothing is
        // emitted and nothing changes if it does not.
        let mut count: usize = 0;
        let mut ci: usize = 0;
        while ci < packet.len()
            invariant
                ci <= packet@.len(),
                count == some_transforms(packet@.take(ci as int)).len(),
                count <= ci,
                forall|j: int| 0 <= j < ci ==> self.cmd_valid(#[trigger] packet@[j]),
            decreases packet@.len() - ci,
        {
            let c = packet[ci];
            if table_get(&self.vertex_tab, c.vertices.raw).is_none() {
                return Err(EngineError::UnknownHandle);
            }
            match c.indices {
                Some(ib) => {
                    if table_get(&self.index_tab, ib.raw).is_none() {
                        return Err(EngineError::UnknownHandle);
                    }
                },
                None => (),
            }
            match c.shader {
                Some(s) => {
                    if table_get(&self.shader_tab, s.raw).is_none() {
                        return Err(EngineError::UnknownHandle);
                    }
                },
                None => (),
            }
            proof {
                lemma_some_transforms_step(packet@, ci as int);
            }
            match c.transform {
                Some(_) => {
                    count = count + 1;
                },
                None => (),
            }
            ci = ci + 1;
        }
        proof {
            assert(packet@.take(packet@.len() as int) =~= packet@);
        }
        if count >= self.max_transforms {
            return Err(EngineError::TooManyTransforms);
        }

        // Drain the upload queue: one full-buffer copy per queued job, from
        // the staging buffer of the current frame slot.
        let frame_slot = self.frame;
        let mut ops: Vec<Op> = Vec::new();
        let queue_len = self.queued_uploads.len();
        let mut qi: usize = 0;
        while qi < queue_len
            invariant
                qi <= queue_len,
                self.queued_uploads == old(self).queued_uploads,
                self.vertex_tab == old(self).vertex_tab,
                self.vertex_recs == old(self).vertex_recs,
                self.index_tab == old(self).index_tab,
                self.index_recs == old(self).index_recs,
                self.shader_tab == old(self).shader_tab,
                self.shader_recs == old(self).shader_recs,
                self.default_shader_key == old(self).default_shader_key,
                self.frames_in_flight == old(self).frames_in_flight,
                self.frame == old(self).frame,
                self.max_transforms == old(self).max_transforms,
                self.camera_prefix == old(self).camera_prefix,
                self.screen == old(self).screen,
                self.vertex_gpu@.len() == old(self).vertex_gpu@.len(),
                self.index_gpu@.len() == old(self).index_gpu@.len(),
                forall|i: int| 0 <= i < old(self).vertex_recs@.len()
                    ==> #[trigger] self.vertex_gpu@[i] == (
                    if old(self).vertex_uploaded_upto(i, qi as int) {
                        old(self).vertex_recs@[i].cpu.slot_view(old(self).frame as int)
                    } else {
                        old(self).vertex_gpu@[i]
                    }),
                forall|i: int| 0 <= i < old(self).index_recs@.len()
                    ==> #[trigger] self.index_gpu@[i] == (
                    if old(self).index_uploaded_upto(i, qi as int) {
                        old(self).index_recs@[i].cpu.slot_view(old(self).frame as int)
                    } else {
                        old(self).index_gpu@[i]
                    }),
                ops_view(ops@) == old(self).upload_ops_view(qi as int),
            decreases queue_len - qi,
        {
            let q = self.queued_uploads[qi];
            match q {
                QueuedUpload::VertexBuffer(h) => {
                    let idx = match table_get(&self.vertex_tab, h.raw) {
                        Some(i) => i,
                        None => {
                            proof {
                                assert(false);
                            }
                            return Err(EngineError::UnknownHandle);
                        },
                    };
                    let data = vstd::slice::slice_to_vec(
                        self.vertex_recs[idx].cpu.buffer(frame_slot).as_slice(),
                    );
                    self.vertex_gpu = Ghost(
                        self.vertex_gpu@.update(
                            idx as int,
                            self.vertex_recs@[idx as int].cpu.slot_view(frame_slot as int),
                        ),
                    );
                    ops.push(Op::CopyVertex { handle: h, data });
                    proof {
                        assert(ops@.len() == qi + 1);
                        assert(ops@[qi as int]@ == old(self).upload_op_view(
                            old(self).queued_uploads@[qi as int],
                        ));
                        assert forall|i: int| 0 <= i < qi as int implies ops_view(ops@)[i]
                            == old(self).upload_ops_view(qi as int)[i] by {
                            assert(ops@[i] == ops@.subrange(0, qi as int)[i]);
                        }
                        assert forall|i: int| 0 <= i < old(self).vertex_recs@.len() implies
                            #[trigger] self.vertex_gpu@[i] == (
                            if old(self).vertex_uploaded_upto(i, qi as int + 1) {
                                old(self).vertex_recs@[i].cpu.slot_view(old(self).frame as int)
                            } else {
                                old(self).vertex_gpu@[i]
                            }) by {
                            if i == idx as int {
                                assert(old(self).vertex_uploaded_upto(i, qi as int + 1));
                            } else {
                                if old(self).vertex_uploaded_upto(i, qi as int) {
                                    assert(old(self).vertex_uploaded_upto(i, qi as int + 1));
                                }
                                if old(self).vertex_uploaded_upto(i, qi as int + 1) {
                                    let wqi = choose|wqi: int|
                                        0 <= wqi < qi as int + 1 && ((#[trigger] old(
                                            self,
                                        ).queued_uploads@[wqi]) matches QueuedUpload::VertexBuffer(
                                            wh,
                                        ) && old(self).has_vertex(wh) && old(self).vtab()[wh.raw]
                                            == i);
                                    assert(wqi != qi as int);
                                    assert(old(self).vertex_uploaded_upto(i, qi as int));
                                }
                            }
                        }
                        assert forall|i: int| 0 <= i < old(self).index_recs@.len() implies
                            #[trigger] self.index_gpu@[i] == (
                            if old(self).index_uploaded_upto(i, qi as int + 1) {
                                old(self).index_recs@[i].cpu.slot_view(old(self).frame as int)
                            } else {
                                old(self).index_gpu@[i]
                            }) by {
                            if old(self).index_uploaded_upto(i, qi as int) {
                                assert(old(self).index_uploaded_upto(i, qi as int + 1));
                            }
                            if old(self).index_uploaded_upto(i, qi as int + 1) {
                                let wqi = choose|wqi: int|
                                    0 <= wqi < qi as int + 1 && ((#[trigger] old(
                                        self,
                                    ).queued_uploads@[wqi]) matches QueuedUpload::IndexBuffer(wh)
                                        && old(self).has_index(wh) && old(self).itab()[wh.raw]
                                        == i);
                                assert(wqi != qi as int);
                                assert(old(self).index_uploaded_upto(i, qi as int));
                            }
                        }
                        assert(ops_view(ops@) =~= old(self).upload_ops_view(qi as int + 1));
                    }
                },
                QueuedUpload::IndexBuffer(h) => {
                    let idx = match table_get(&self.index_tab, h.raw) {
                        Some(i) => i,
                        None => {
                            proof {
                                assert(false);
                            }
                            return Err(EngineError::UnknownHandle);
                        },
                    };
                    let data = vstd::slice::slice_to_vec(
                        self.index_recs[idx].cpu.buffer(frame_slot).as_slice(),
                    );
                    self.index_gpu = Ghost(
                        self.index_gpu@.update(
                            idx as int,
                            self.index_recs@[idx as int].cpu.slot_view(frame_slot as int),
                        ),
                    );
                    ops.push(Op::CopyIndex { handle: h, data });
                    proof {
                        assert(ops@.len() == qi + 1);
                        assert(ops@[qi as int]@ == old(self).upload_op_view(
                            old(self).queued_uploads@[qi as int],
                        ));
                        assert forall|i: int| 0 <= i < qi as int implies ops_view(ops@)[i]
                            == old(self).upload_ops_view(qi as int)[i] by {
                            assert(ops@[i] == ops@.subrange(0, qi as int)[i]);
                        }
                        assert forall|i: int| 0 <= i < old(self).index_recs@.len() implies
                            #[trigger] self.index_gpu@[i] == (
                            if old(self).index_uploaded_upto(i, qi as int + 1) {
                                old(self).index_recs@[i].cpu.slot_view(old(self).frame as int)
                            } else {
                                old(self).index_gpu@[i]
                            }) by {
                            if i == idx as int {
                                assert(old(self).index_uploaded_upto(i, qi as int + 1));
                            } else {
                                if old(self).index_uploaded_upto(i, qi as int) {
                                    assert(old(self).index_uploaded_upto(i, qi as int + 1));
                                }
                                if old(self).index_uploaded_upto(i, qi as int + 1) {
                                    let wqi = choose|wqi: int|
                                        0 <= wqi < qi as int + 1 && ((#[trigger] old(
                                            self,
                                        ).queued_uploads@[wqi]) matches QueuedUpload::IndexBuffer(
                                            wh,
                                        ) && old(self).has_index(wh) && old(self).itab()[wh.raw]
                                            == i);
                                    assert(wqi != qi as int);
                                    assert(old(self).index_uploaded_upto(i, qi as int));
                                }
                            }
                        }
                        assert forall|i: int| 0 <= i < old(self).vertex_recs@.len() implies
                            #[trigger] self.vertex_gpu@[i] == (
                            if old(self).vertex_uploaded_upto(i, qi as int + 1) {
                                old(self).vertex_recs@[i].cpu.slot_view(old(self).frame as int)
                            } else {
                                old(self).vertex_gpu@[i]
                            }) by {
                            if old(self).vertex_uploaded_upto(i, qi as int) {
                                assert(old(self).vertex_uploaded_upto(i, qi as int + 1));
                            }
                            if old(self).vertex_uploaded_upto(i, qi as int + 1) {
                                let wqi = choose|wqi: int|
                                    0 <= wqi < qi as int + 1 && ((#[trigger] old(
                                        self,
                                    ).queued_uploads@[wqi]) matches QueuedUpload::VertexBuffer(wh)
                                        && old(self).has_vertex(wh) && old(self).vtab()[wh.raw]
                                        == i);
                                assert(wqi != qi as int);
                                assert(old(self).vertex_uploaded_upto(i, qi as int));
                            }
                        }
                        assert(ops_view(ops@) =~= old(self).upload_ops_view(qi as int + 1));
                    }
                },
            }
            qi = qi + 1;
        }
        self.queued_uploads.clear();

        // One transfer-write to shader-read barrier synchronizes every copy
        // with every draw, then the frame's global state is bound once.
        ops.push(Op::Barrier);
        ops.push(Op::BindDescriptorSet { frame_slot });

        // Walk the draw commands in the list's order — the draw order is the
        // list order, there is no reordering or batching.
        let mut transforms: Vec<Transform> = Vec::new();
        transforms.push(transform_identity());
        let ghost mid = old(self).upload_ops_view(old(self).queued_uploads@.len() as int) + seq![
            OpView::Barrier,
            OpView::BindDescriptorSet { frame_slot: old(self).frame },
        ];
        proof {
            assert(ops_view(ops@) =~= mid + old(self).draw_ops_view(packet@, 0));
        }
        let mut ci: usize = 0;
        while ci < packet.len()
            invariant
                ci <= packet@.len(),
                transforms@.len() == 1 + some_transforms(packet@.take(ci as int)).len(),
                transforms@.len() <= old(self).max_transforms,
                transforms@[0]@ == identity_cells(),
                transforms@.subrange(1, transforms@.len() as int) == some_transforms(
                    packet@.take(ci as int),
                ),
                ops_view(ops@) == mid + old(self).draw_ops_view(packet@, ci as int),
            decreases packet@.len() - ci,
        {
            let ghost ops0 = ops@;
            let c = packet[ci];
            let pl = match c.shader {
                Some(s) => s,
                None => self.default_shader_key,
            };
            ops.push(Op::BindPipeline { shader: pl });
            proof {
                lemma_some_transforms_step(packet@, ci as int);
                lemma_some_transforms_prefix_len(packet@, ci as int + 1);
            }
            let tindex: u32;
            match c.transform {
                Some(t) => {
                    tindex = transforms.len() as u32;
                    transforms.push(t);
                },
                None => {
                    tindex = 0;
                },
            }
            ops.push(Op::PushTransformIndex { index: tindex });
            ops.push(Op::BindVertexBuffer { handle: c.vertices });
            match c.indices {
                Some(ib) => {
                    let idx = match table_get(&self.index_tab, ib.raw) {
                        Some(i) => i,
                        None => {
                            proof {
                                assert(false);
                            }
                            return Err(EngineError::UnknownHandle);
                        },
                    };
                    let len = self.index_recs[idx].length;
                    let cnt = match c.limit {
                        Some(l) => if l < len {
                            l
                        } else {
                            len
                        },
                        None => len,
                    };
                    ops.push(Op::BindIndexBuffer { handle: ib });
                    ops.push(Op::DrawIndexed { count: cnt });
                },
                None => {
                    let idx = match table_get(&self.vertex_tab, c.vertices.raw) {
                        Some(i) => i,
                        None => {
                            proof {
                                assert(false);
                            }
                            return Err(EngineError::UnknownHandle);
                        },
                    };
                    let len = self.vertex_recs[idx].length;
                    let cnt = match c.limit {
                        Some(l) => if l < len {
                            l
                        } else {
                            len
                        },
                        None => len,
                    };
                    ops.push(Op::Draw { count: cnt });
                },
            }
            proof {
                let blk = old(self).draw_block_view(packet@, ci as int);
                let base = ops0.len() as int;
                assert(ops@[base]@ == blk[0]);
                assert(ops@[base + 1]@ == blk[1]);
                assert(ops@[base + 2]@ == blk[2]);
                if c.indices is Some {
                    assert(ops@.len() == ops0.len() + 5);
                    assert(ops@[base + 3]@ == blk[3]);
                    assert(ops@[base + 4]@ == blk[4]);
                } else {
                    assert(ops@.len() == ops0.len() + 4);
                    assert(ops@[base + 3]@ == blk[3]);
                }
                assert(blk.len() == (if c.indices is Some { 5int } else { 4int }));
                assert(old(self).draw_ops_view(packet@, ci as int + 1) == old(self).draw_ops_view(
                    packet@,
                    ci as int,
                ) + blk);
                let whole = mid + old(self).draw_ops_view(packet@, ci as int + 1);
                assert(whole.len() == ops@.len());
                assert forall|i: int| 0 <= i < ops@.len() implies ops_view(ops@)[i] == whole[i]
                    by {
                    if i < base {
                        assert(ops@[i] == ops0[i]);
                        assert(ops_view(ops0)[i] == (mid + old(self).draw_ops_view(
                            packet@,
                            ci as int,
                        ))[i]);
                        assert(whole[i] == (mid + old(self).draw_ops_view(packet@, ci as int))[i]);
                    } else {
                        assert(whole[i] == blk[i - base]);
                    }
                }
                assert(ops_view(ops@) =~= whole);
                assert(transforms@.subrange(1, transforms@.len() as int) =~= some_transforms(
                    packet@.take(ci as int + 1),
                ));
            }
            ci = ci + 1;
        }

        // Advance the frame slot round-robin and hand the frame over.
        let next_frame = if self.frame + 1 == self.frames_in_flight {
            0
        } else {
            self.frame + 1
        };
        self.frame = next_frame;
        proof {
            assert(packet@.take(packet@.len() as int) =~= packet@);
            assert(ops_view(ops@) =~= old(self).frame_ops_view(packet@));
        }
        Ok(FrameOutput { ops, transforms, frame_slot, camera_prefix: self.camera_prefix })
    }
}

} // verus!
