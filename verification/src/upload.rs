//! CPU-side staging storage for GPU-resident buffers.
//!
//! An [`UploadBuffer`] is either *static* — one staging buffer written once
//! at creation — or *dynamic* — one staging buffer per frame in flight, so
//! that rewriting frame N+1's data never races the GPU's reads of frame N.
//! A [`SyncMemory`] pairs the staging storage with the modelled contents of
//! the GPU-resident buffer it feeds.

use vstd::prelude::*;
use crate::EngineError;
use crate::handles::IndexBuffer;
use crate::handles::VertexBuffer;

verus! {

/// Staging storage for one resource.
pub enum UploadBuffer<T> {
    /// One staging buffer, written exactly once at creation.
    Static { data: Vec<T> },
    /// One staging buffer per frame in flight; writes target the buffer of
    /// the current frame slot only.
    Dynamic { bufs: Vec<Vec<T>> },
}

impl<T> UploadBuffer<T> {
    /// Whether writes after creation are allowed.
    pub open spec fn is_dynamic(&self) -> bool {
        self matches UploadBuffer::Dynamic { .. }
    }

    /// The staging contents read for frame slot `s`.  A static buffer has a
    /// single copy of the data, whatever the slot.
    pub open spec fn slot_view(&self, s: int) -> Seq<T> {
        match self {
            UploadBuffer::Static { data } => data@,
            UploadBuffer::Dynamic { bufs } => bufs@[s]@,
        }
    }

    /// Well-formed staging storage for `len` elements over `frames` frame
    /// slots: every staging buffer holds exactly `len` elements and a
    /// dynamic buffer has one per slot.
    pub open spec fn wf(&self, len: nat, frames: nat) -> bool {
        match self {
            UploadBuffer::Static { data } => data@.len() == len,
            UploadBuffer::Dynamic { bufs } => {
                &&& bufs@.len() == frames
                &&& forall|s: int| 0 <= s < frames ==> (#[trigger] bufs@[s])@.len() == len
            },
        }
    }
}

/// A vector holding `len` copies of `fill`.
fn fill_vec<T: Copy>(fill: T, len: usize) -> (v: Vec<T>)
    ensures
        v@ == Seq::new(len as nat, |i: int| fill),
{
    let mut v: Vec<T> = Vec::new();
    let mut i: usize = 0;
    while i < len
        invariant
            i <= len,
            v@ == Seq::new(i as nat, |j: int| fill),
        decreases len - i,
    {
        v.push(fill);
        i = i + 1;
        proof {
            assert(v@ =~= Seq::new(i as nat, |j: int| fill));
        }
    }
    proof {
        assert(v@ =~= Seq::new(len as nat, |i: int| fill));
    }
    v
}

impl<T: Copy> UploadBuffer<T> {
    /// Create staging storage pre-filled with `data` in every slot.
    pub fn new(data: &[T], frames: usize, dynamic: bool) -> (r: Self)
        requires
            frames >= 1,
        ensures
            r.is_dynamic() == dynamic,
            r.wf(data@.len(), frames as nat),
            forall|s: int| 0 <= s < frames ==> r.slot_view(s) == data@,
    {
        if dynamic {
            let mut bufs: Vec<Vec<T>> = Vec::new();
            let mut i: usize = 0;
            while i < frames
                invariant
                    i <= frames,
                    bufs@.len() == i,
                    forall|s: int| 0 <= s < i ==> (#[trigger] bufs@[s])@ == data@,
                decreases frames - i,
            {
                bufs.push(vstd::slice::slice_to_vec(data));
                i = i + 1;
            }
            UploadBuffer::Dynamic { bufs }
        } else {
            UploadBuffer::Static { data: vstd::slice::slice_to_vec(data) }
        }
    }

    /// Create staging storage holding `len` copies of `fill` in every slot.
    pub fn new_empty(fill: T, len: usize, frames: usize, dynamic: bool) -> (r: Self)
        requires
            frames >= 1,
        ensures
            r.is_dynamic() == dynamic,
            r.wf(len as nat, frames as nat),
            forall|s: int| 0 <= s < frames ==> r.slot_view(s) == Seq::new(len as nat, |i: int| fill),
    {
        if dynamic {
            let mut bufs: Vec<Vec<T>> = Vec::new();
            let mut i: usize = 0;
            while i < frames
                invariant
                    i <= frames,
                    bufs@.len() == i,
                    forall|s: int| 0 <= s < i ==> (#[trigger] bufs@[s])@ == Seq::new(len as nat, |j: int| fill),
                decreases frames - i,
            {
                bufs.push(fill_vec(fill, len));
                i = i + 1;
            }
            UploadBuffer::Dynamic { bufs }
        } else {
            UploadBuffer::Static { data: fill_vec(fill, len) }
        }
    }

    /// Overwrite the staging buffer of frame slot `frame`.  Writing to a
    /// static buffer is a contract violation and is reported, not performed.
    pub fn write(&mut self, frame: usize, data: &[T]) -> (r: Result<(), EngineError>)
        requires
            (*old(self)) matches UploadBuffer::Dynamic { bufs } ==> {
                &&& frame < bufs@.len()
                &&& data@.len() == bufs@[frame as int]@.len()
            },
        ensures
            (*old(self)) is Static ==> r == Err::<(), EngineError>(EngineError::StaticWrite)
                && *final(self) == *old(self),
            (*old(self)) is Dynamic ==> {
                &&& r == Ok::<(), EngineError>(())
                &&& (*final(self)) is Dynamic
                &&& (*final(self)).slot_view(frame as int) == data@
                &&& forall|s: int| 0 <= s < (*old(self))->Dynamic_bufs@.len() && s != frame
                    ==> (*final(self)).slot_view(s) == (*old(self)).slot_view(s)
                &&& (*final(self))->Dynamic_bufs@.len() == (*old(self))->Dynamic_bufs@.len()
                &&& forall|n: nat, f: nat|
                    (*old(self)).wf(n, f) && data@.len() == n ==> (*final(self)).wf(n, f)
            },
    {
        match self {
            UploadBuffer::Static { .. } => Err(EngineError::StaticWrite),
            UploadBuffer::Dynamic { bufs } => {
                bufs[frame] = vstd::slice::slice_to_vec(data);
                Ok(())
            }
        }
    }

    /// The staging buffer read for frame slot `frame`: the single buffer of
    /// a static resource, or the slot's own buffer of a dynamic one.
    pub fn buffer(&self, frame: usize) -> (r: &Vec<T>)
        requires
            (*self) matches UploadBuffer::Dynamic { bufs } ==> frame < bufs@.len(),
        ensures
            r@ == self.slot_view(frame as int),
    {
        match self {
            UploadBuffer::Static { data } => data,
            UploadBuffer::Dynamic { bufs } => &bufs[frame],
        }
    }
}

/// CPU/GPU synchronized memory for one resource: the staging storage that
/// feeds a GPU-resident buffer, and immutable size metadata.  The modelled
/// contents of the GPU buffer itself are tracked by the engine.
pub struct SyncMemory<T> {
    /// CPU-side staging storage.
    pub cpu: UploadBuffer<T>,
    /// Size in bytes of one copy of the data.
    pub size_bytes: u64,
    /// Element count (vertices or indices).
    pub length: u32,
}

impl<T> SyncMemory<T> {
    /// Well-formed record for elements of `elem_bytes` bytes over `frames`
    /// frame slots.
    pub open spec fn wf(&self, elem_bytes: nat, frames: nat) -> bool {
        &&& self.cpu.wf(self.length as nat, frames)
        &&& self.size_bytes == self.length * elem_bytes
    }
}

/// A pending copy from staging storage to the GPU-resident buffer, recorded
/// when a resource is created or updated and drained by the next frame.
#[derive(Clone, Copy)]
pub enum QueuedUpload {
    VertexBuffer(VertexBuffer),
    IndexBuffer(IndexBuffer),
}

} // verus!
