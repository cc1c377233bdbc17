//! The engine's guarantees, each stated once and proved for all inputs.
//!
//! These theorems tie the contracts of resource creation, resource updates
//! and frame submission together: handles are never reused, uploaded data is
//! what the GPU sees, static resources reject writes, transform slots are
//! assigned in order with slot 0 reserved for the identity, the emitted
//! operations follow the command list exactly, and draw counts respect the
//! per-command limit.

use vstd::prelude::*;
use vstd::seq_lib::group_seq_properties;
use crate::EngineError;
use crate::Transform;
use crate::Vertex;
use crate::draw_cmd::DrawCmd;
use crate::engine::Engine;
use crate::engine::lemma_some_transforms_step;
use crate::engine::some_transforms;
use crate::engine::spec_draw_count;
use crate::engine::transform_index;
use crate::handles::IndexBuffer;
use crate::handles::Shader;
use crate::handles::VertexBuffer;
use crate::ops::OpView;
use crate::upload::QueuedUpload;

verus! {

/// Creating two vertex buffers, one after the other, hands out two distinct
/// handles: the second creation's handle is fresh with respect to every
/// handle live before it.
pub proof fn lemma_vertex_handles_distinct(
    e0: Engine,
    e1: Engine,
    e2: Engine,
    d1: Seq<Vertex>,
    dy1: bool,
    h1: VertexBuffer,
    d2: Seq<Vertex>,
    dy2: bool,
    h2: VertexBuffer,
)
    requires
        e0.created_vertices(e1, d1, dy1, h1),
        e1.created_vertices(e2, d2, dy2, h2),
    ensures
        h1 != h2,
{
    assert(e1.vtab().dom().contains(h1.raw));
}

/// Creating two index buffers, one after the other, hands out two distinct
/// handles.
pub proof fn lemma_index_handles_distinct(
    e0: Engine,
    e1: Engine,
    e2: Engine,
    d1: Seq<u32>,
    dy1: bool,
    h1: IndexBuffer,
    d2: Seq<u32>,
    dy2: bool,
    h2: IndexBuffer,
)
    requires
        e0.created_indices(e1, d1, dy1, h1),
        e1.created_indices(e2, d2, dy2, h2),
    ensures
        h1 != h2,
{
    assert(e1.itab().dom().contains(h1.raw));
}

/// Creating two shaders, one after the other, hands out two distinct
/// handles.
pub proof fn lemma_shader_handles_distinct(
    e0: Engine,
    e1: Engine,
    e2: Engine,
    prim1: crate::engine::Primitive,
    blend1: crate::engine::Blend,
    h1: Shader,
    prim2: crate::engine::Primitive,
    blend2: crate::engine::Blend,
    h2: Shader,
)
    requires
        e0.created_shader(e1, prim1, blend1, h1),
        e1.created_shader(e2, prim2, blend2, h2),
    ensures
        h1 != h2,
{
    assert(e1.stab().dom().contains(h1.raw));
}

/// Upload freshness for updates: after `update_vertices(h, data)` succeeds
/// and the next frame is submitted, the GPU-resident contents modelled for
/// `h` equal `data` exactly.
pub proof fn lemma_update_then_frame_fresh(
    e0: Engine,
    e1: Engine,
    e2: Engine,
    h: VertexBuffer,
    data: Seq<Vertex>,
)
    requires
        e0.wf(),
        e0.updated_vertices(e1, h, data, Ok::<(), EngineError>(())),
        e1.frame_advanced(e2),
    ensures
        e2.vertex_gpu_of(h) == data,
{
    let i = e0.vtab()[h.raw] as int;
    assert(e1.queued_uploads@.last() == QueuedUpload::VertexBuffer(h)) by {
        assert(e1.queued_uploads@ == e0.queued_uploads@.push(QueuedUpload::VertexBuffer(h)));
    }
    assert(e1.vertex_uploaded(i)) by {
        let qi = e1.queued_uploads@.len() - 1;
        assert(e1.queued_uploads@[qi] == QueuedUpload::VertexBuffer(h));
    }
}

/// Upload freshness for creation: after `vertices(data, dynamic)` hands out
/// `h` and the next frame is submitted, the GPU-resident contents modelled
/// for `h` equal `data` exactly.
pub proof fn lemma_create_then_frame_fresh(
    e0: Engine,
    e1: Engine,
    e2: Engine,
    data: Seq<Vertex>,
    dynamic: bool,
    h: VertexBuffer,
)
    requires
        e0.wf(),
        e0.created_vertices(e1, data, dynamic, h),
        e1.frame_advanced(e2),
    ensures
        e2.vertex_gpu_of(h) == data,
{
    assert(e0.vertex_recs@.len() <= usize::MAX) by {
        assert(e0.vertex_recs.len() == e0.vertex_recs@.len());
    }
    let i = e0.vertex_recs@.len() as int;
    assert(e1.vtab() == e0.vtab().insert(h.raw, e0.vertex_recs@.len() as usize));
    assert(e1.vtab()[h.raw] == i);
    assert(e1.vertex_uploaded(i)) by {
        let qi = e1.queued_uploads@.len() - 1;
        assert(e1.queued_uploads@[qi] == QueuedUpload::VertexBuffer(h));
    }
    assert(e1.vertex_recs@[i].cpu.slot_view(e1.frame as int) == data);
}

/// Upload freshness for index updates: after `update_indices(h, data)`
/// succeeds and the next frame is submitted, the GPU-resident contents
/// modelled for `h` equal `data` exactly.
pub proof fn lemma_update_indices_then_frame_fresh(
    e0: Engine,
    e1: Engine,
    e2: Engine,
    h: IndexBuffer,
    data: Seq<u32>,
)
    requires
        e0.wf(),
        e0.updated_indices(e1, h, data, Ok::<(), EngineError>(())),
        e1.frame_advanced(e2),
    ensures
        e2.index_gpu_of(h) == data,
{
    let i = e0.itab()[h.raw] as int;
    assert(e1.queued_uploads@.last() == QueuedUpload::IndexBuffer(h)) by {
        assert(e1.queued_uploads@ == e0.queued_uploads@.push(QueuedUpload::IndexBuffer(h)));
    }
    assert(e1.index_uploaded(i)) by {
        let qi = e1.queued_uploads@.len() - 1;
        assert(e1.queued_uploads@[qi] == QueuedUpload::IndexBuffer(h));
    }
}

/// Static-write rejection: updating a vertex buffer that was created with
/// `dynamic = false` fails with the static-write error, whatever frame slot
/// the engine has meanwhile advanced to.
pub proof fn lemma_static_write_rejected(
    e0: Engine,
    e1: Engine,
    data: Seq<Vertex>,
    h: VertexBuffer,
    slot: usize,
    em: Engine,
    e2: Engine,
    data2: Seq<Vertex>,
    r: Result<(), EngineError>,
)
    requires
        e0.created_vertices(e1, data, false, h),
        em == (Engine { frame: slot, ..e1 }),
        em.updated_vertices(e2, h, data2, r),
    ensures
        r == Err::<(), EngineError>(EngineError::StaticWrite),
{
    assert(e0.vertex_recs@.len() <= usize::MAX) by {
        assert(e0.vertex_recs.len() == e0.vertex_recs@.len());
    }
    assert(em.vtab() == e0.vtab().insert(h.raw, e0.vertex_recs@.len() as usize));
    assert(em.vtab()[h.raw] == e0.vertex_recs@.len());
    assert(!em.vertex_rec(h).cpu.is_dynamic());
}

/// The number of transform-table entries a frame builds: one per command
/// that supplies a transform, plus the identity in slot 0.
pub proof fn lemma_transform_count(cmds: Seq<DrawCmd>)
    ensures
        some_transforms(cmds).len() == cmds.filter(|c: DrawCmd| c.transform is Some).len(),
    decreases cmds.len(),
{
    reveal(Seq::filter);
    if cmds.len() > 0 {
        lemma_transform_count(cmds.drop_last());
    }
}

/// Every command that supplies no transform draws with transform index 0,
/// the identity slot.
pub proof fn lemma_no_transform_uses_identity(cmds: Seq<DrawCmd>, i: int)
    requires
        0 <= i < cmds.len(),
        cmds[i].transform is None,
    ensures
        transform_index(cmds, i) == 0,
{
}

/// The transforms of a command-list prefix are a prefix of the transforms
/// of the whole list.
pub proof fn lemma_some_transforms_prefix(cmds: Seq<DrawCmd>, n: int, m: int)
    requires
        0 <= n <= m <= cmds.len(),
    ensures
        some_transforms(cmds.take(n)).is_prefix_of(some_transforms(cmds.take(m))),
    decreases m - n,
{
    if m == n {
        assert(some_transforms(cmds.take(n)) =~= some_transforms(cmds.take(m)).subrange(
            0,
            some_transforms(cmds.take(n)).len() as int,
        ));
    } else {
        lemma_some_transforms_prefix(cmds, n, m - 1);
        lemma_some_transforms_step(cmds, m - 1);
        let a = some_transforms(cmds.take(n));
        let b = some_transforms(cmds.take(m - 1));
        let c = some_transforms(cmds.take(m));
        assert(a =~= c.subrange(0, a.len() as int)) by {
            assert(a =~= b.subrange(0, a.len() as int));
        }
    }
}

/// Transform indexing: a command that supplies a transform draws with the
/// index of the slot where the frame's transform table holds exactly that
/// transform.  Slots are handed out in command order, starting at 1.
pub proof fn lemma_transform_slot(cmds: Seq<DrawCmd>, i: int, table: Seq<Transform>)
    requires
        0 <= i < cmds.len(),
        cmds[i].transform is Some,
        1 + some_transforms(cmds).len() <= u32::MAX,
        table.len() == 1 + some_transforms(cmds).len(),
        table.subrange(1, table.len() as int) == some_transforms(cmds),
    ensures
        1 <= transform_index(cmds, i) < table.len(),
        table[transform_index(cmds, i) as int] == cmds[i].transform->0,
{
    let t = cmds[i].transform->0;
    let pos = some_transforms(cmds.take(i)).len() as int;
    lemma_some_transforms_step(cmds, i);
    lemma_some_transforms_prefix(cmds, i + 1, cmds.len() as int);
    assert(cmds.take(cmds.len() as int) =~= cmds);
    let upto = some_transforms(cmds.take(i + 1));
    assert(upto[pos] == t);
    assert(upto =~= some_transforms(cmds).subrange(0, upto.len() as int));
    assert(some_transforms(cmds)[pos] == t);
    assert(table[pos + 1] == t) by {
        assert(table.subrange(1, table.len() as int)[pos] == t);
    }
}

/// The blocks of bind/draw operations a frame emits, one per command, in
/// the command list's own order.
pub open spec fn draw_blocks(e: Engine, cmds: Seq<DrawCmd>) -> Seq<Seq<OpView>> {
    Seq::new(cmds.len(), |i: int| e.draw_block_view(cmds, i))
}

/// The (pipeline, vertex buffer, index buffer) triple a block of emitted
/// operations binds and draws with.
pub open spec fn block_triple(b: Seq<OpView>) -> (Shader, VertexBuffer, Option<IndexBuffer>) {
    (
        b[0]->BindPipeline_shader,
        b[2]->BindVertexBuffer_handle,
        if b.len() == 5 {
            Some(b[3]->BindIndexBuffer_handle)
        } else {
            None
        },
    )
}

/// The draw section of a frame is exactly the concatenation of its
/// per-command blocks, in order.
pub proof fn lemma_draw_ops_are_blocks(e: Engine, cmds: Seq<DrawCmd>, n: int)
    requires
        0 <= n <= cmds.len(),
    ensures
        e.draw_ops_view(cmds, n) == draw_blocks(e, cmds).take(n).flatten(),
    decreases n,
{
    broadcast use group_seq_properties;
    broadcast use Seq::lemma_flatten_push;

    if n == 0 {
        assert(draw_blocks(e, cmds).take(0) =~= Seq::<Seq<OpView>>::empty());
        assert(e.draw_ops_view(cmds, 0) =~= Seq::<Seq<OpView>>::empty().flatten());
    } else {
        lemma_draw_ops_are_blocks(e, cmds, n - 1);
        assert(draw_blocks(e, cmds).take(n) =~= draw_blocks(e, cmds).take(n - 1).push(
            e.draw_block_view(cmds, n - 1),
        ));
        assert(e.draw_ops_view(cmds, n) =~= draw_blocks(e, cmds).take(n).flatten());
    }
}

/// Order preservation: the frame's draw section, projected block by block to
/// the (pipeline, vertex buffer, index buffer) it binds, is exactly the
/// command list, in the same order.  No reordering or batching happens.
pub proof fn lemma_order_preserved(e: Engine, cmds: Seq<DrawCmd>)
    requires
        1 + some_transforms(cmds).len() <= u32::MAX,
    ensures
        e.draw_ops_view(cmds, cmds.len() as int) == draw_blocks(e, cmds).flatten(),
        draw_blocks(e, cmds).len() == cmds.len(),
        forall|i: int| 0 <= i < cmds.len() ==> #[trigger] block_triple(draw_blocks(e, cmds)[i])
            == (e.resolve_shader(cmds[i]), cmds[i].vertices, cmds[i].indices),
{
    lemma_draw_ops_are_blocks(e, cmds, cmds.len() as int);
    assert(draw_blocks(e, cmds).take(cmds.len() as int) =~= draw_blocks(e, cmds));
    assert forall|i: int| 0 <= i < cmds.len() implies #[trigger] block_triple(
        draw_blocks(e, cmds)[i],
    ) == (e.resolve_shader(cmds[i]), cmds[i].vertices, cmds[i].indices) by {
        let b = e.draw_block_view(cmds, i);
        match cmds[i].indices {
            Some(ib) => {
                assert(b.len() == 5);
                assert(b[0] == OpView::BindPipeline { shader: e.resolve_shader(cmds[i]) });
                assert(b[2] == OpView::BindVertexBuffer { handle: cmds[i].vertices });
                assert(b[3] == OpView::BindIndexBuffer { handle: ib });
            },
            None => {
                assert(b.len() == 4);
                assert(b[0] == OpView::BindPipeline { shader: e.resolve_shader(cmds[i]) });
                assert(b[2] == OpView::BindVertexBuffer { handle: cmds[i].vertices });
            },
        }
    }
}

/// Capacity enforcement: a frame whose commands supply at least
/// `max_transforms` transforms (so that the table, identity included, would
/// overflow) is not accepted; the submission contract then guarantees a
/// reported error and an unchanged engine, so nothing reaches the GPU.
pub proof fn lemma_capacity_enforced(e: Engine, cmds: Seq<DrawCmd>)
    requires
        cmds.filter(|c: DrawCmd| c.transform is Some).len() >= e.max_transforms,
    ensures
        !e.frame_ok(cmds),
{
    lemma_transform_count(cmds);
}

/// Draw-count limiting: an indexed draw with limit `L` over an index buffer
/// of length `N` draws `L` indices when `L < N` and `N` indices otherwise;
/// the last operation of the command's block carries exactly that count.
pub proof fn lemma_draw_count_limited(e: Engine, cmds: Seq<DrawCmd>, i: int)
    requires
        0 <= i < cmds.len(),
        cmds[i].indices is Some,
        cmds[i].limit is Some,
    ensures
        e.draw_block_view(cmds, i).last() == (OpView::DrawIndexed {
            count: spec_draw_count(e.index_rec(cmds[i].indices->0).length, cmds[i].limit),
        }),
        (cmds[i].limit->0 < e.index_rec(cmds[i].indices->0).length ==> e.draw_block_view(
            cmds,
            i,
        ).last()->DrawIndexed_count == cmds[i].limit->0),
        (cmds[i].limit->0 >= e.index_rec(cmds[i].indices->0).length ==> e.draw_block_view(
            cmds,
            i,
        ).last()->DrawIndexed_count == e.index_rec(cmds[i].indices->0).length),
{
}

} // verus!
