//! Opaque resource handles and the generational tables behind them.
//!
//! Each resource kind (vertex buffers, index buffers, shaders) gets its own
//! handle type wrapping a generational `slotmap` key.  The tables themselves
//! map each live key to a dense index into a record vector owned by the
//! engine; stale or foreign keys are rejected by the lookup.

use vstd::prelude::*;
use slotmap::DefaultKey;
use slotmap::SlotMap;

verus! {

#[verifier::external_type_specification]
#[verifier::external_body]
pub struct ExDefaultKey(slotmap::DefaultKey);

/// A generational handle table.  It wraps a `slotmap::SlotMap` whose keys are
/// the opaque identities inside the public handle types and whose values are
/// dense indices into a record vector owned by the engine.
#[verifier::external_body]
pub struct HandleTable {
    inner: SlotMap<DefaultKey, usize>,
}

/// The live entries of a handle table: every key the table has handed out
/// and not removed, mapped to the dense record index stored under it.
pub uninterp spec fn table_entries(m: HandleTable) -> Map<DefaultKey, usize>;

/// Relies on slotmap::SlotMap::with_key: a freshly created map holds no entries.
#[verifier::external_body]
pub(crate) fn table_new() -> (m: HandleTable)
    ensures
        table_entries(m).dom().finite(),
        table_entries(m).dom().len() == 0,
        forall|k: DefaultKey| !table_entries(m).dom().contains(k),
{
    HandleTable { inner: SlotMap::with_key() }
}

/// Relies on slotmap::SlotMap::insert: stores the value under a key distinct
/// from every live key and returns that key.  Insertion panics only when the
/// map is full (close to `u32::MAX` slots), which the precondition rules out.
#[verifier::external_body]
pub(crate) fn table_insert(m: &mut HandleTable, v: usize) -> (k: DefaultKey)
    requires
        table_entries(*old(m)).dom().finite(),
        table_entries(*old(m)).dom().len() < 0xFFFF_FFFE,
    ensures
        !table_entries(*old(m)).dom().contains(k),
        table_entries(*final(m)) == table_entries(*old(m)).insert(k, v),
{
    m.inner.insert(v)
}

/// Relies on slotmap::SlotMap::get: returns the value stored under a live
/// key, and nothing for a stale or foreign key.
#[verifier::external_body]
pub(crate) fn table_get(m: &HandleTable, k: DefaultKey) -> (r: Option<usize>)
    ensures
        r == (if table_entries(*m).dom().contains(k) {
            Some(table_entries(*m)[k])
        } else {
            None::<usize>
        }),
{
    m.inner.get(k).copied()
}

/// A handle to a vertex buffer resource.
#[derive(Clone, Copy, PartialEq, Eq, Hash, Debug)]
pub struct VertexBuffer {
    pub raw: DefaultKey,
}

/// A handle to an index buffer resource.
#[derive(Clone, Copy, PartialEq, Eq, Hash, Debug)]
pub struct IndexBuffer {
    pub raw: DefaultKey,
}

/// A handle to a compiled shader/pipeline resource.
#[derive(Clone, Copy, PartialEq, Eq, Hash, Debug)]
pub struct Shader {
    pub raw: DefaultKey,
}

/// A handle to a texture resource.  Textures are not managed by this core;
/// the handle exists so draw commands can carry one.
#[derive(Clone, Copy, PartialEq, Eq, Hash, Debug)]
pub struct Texture {
    pub raw: DefaultKey,
}

} // verus!
