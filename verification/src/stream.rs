//! Staging of per-frame vertex and index data.
//!
//! A stream gathers bytes on the CPU while a frame is prepared. When the
//! frame is drawn the stream hands the bytes over for upload and says
//! whether the GPU-side buffer can be used again or has to be replaced by a
//! larger one.

use vstd::prelude::*;

verus! {

/// What the GPU-side buffer of a stream is bound as.
#[derive(Debug, Clone, Copy, PartialEq, Eq, Structural)]
pub enum StreamUsage {
    Vertex,
    Index,
}

/// A range of bytes within the data of one frame.
#[derive(Debug, Clone, Copy, PartialEq, Eq, Structural)]
pub struct StreamRange {
    pub start: u64,
    pub end: u64,
}

/// Request for a new GPU-side buffer.
#[derive(Debug, Clone, Copy, PartialEq, Eq)]
pub struct BufferAllocation {
    pub label: Option<&'static str>,
    pub usage: StreamUsage,
    pub size: u64,
}

/// Read-only view over the bytes that a stream uploaded for a frame: the
/// first `len` bytes of its GPU-side buffer.
#[derive(Debug, Clone, Copy, PartialEq, Eq, Structural)]
pub struct StreamBuffer {
    pub usage: StreamUsage,
    pub len: u64,
}

/// What a stream hands over when a frame is drawn.
#[derive(Debug)]
pub struct StreamUpload {
    /// The buffer to create before the upload, where the one at hand is
    /// missing or too small.
    pub allocate: Option<BufferAllocation>,
    /// The bytes to write at the start of the buffer.
    pub bytes: Vec<u8>,
    /// The view that the draw pass binds.
    pub buffer: StreamBuffer,
}

/// Whether a GPU-side allocation of the given size, if any, is too small for
/// `len` bytes.
pub open spec fn must_grow(allocated: Option<u64>, len: u64) -> bool {
    match allocated {
        Some(size) => size < len,
        None => true,
    }
}

/// The size of the GPU-side allocation after `len` bytes were uploaded: it is
/// kept where it is large enough and replaced by one of exactly `len` bytes
/// where it is not.
pub open spec fn allocation_after(allocated: Option<u64>, len: u64) -> Option<u64> {
    if must_grow(allocated, len) {
        Some(len)
    } else {
        allocated
    }
}

/// What a stream holds.
pub struct StreamView {
    /// Debug label of the GPU-side buffer.
    pub label: Option<&'static str>,
    pub usage: StreamUsage,
    /// Bytes gathered since the last upload.
    pub data: Seq<u8>,
    /// Size of the GPU-side buffer, or nothing before the first upload.
    pub allocated: Option<u64>,
}

impl StreamView {
    /// The stream before anything was written or uploaded.
    pub open spec fn fresh(label: Option<&'static str>, usage: StreamUsage) -> StreamView {
        StreamView { label, usage, data: Seq::empty(), allocated: None }
    }

    /// The stream after `bytes` were appended.
    pub open spec fn written(self, bytes: Seq<u8>) -> StreamView {
        StreamView { data: self.data + bytes, ..self }
    }

    /// The stream after its bytes were handed over for upload.
    pub open spec fn finished(self) -> StreamView {
        StreamView {
            data: Seq::empty(),
            allocated: allocation_after(self.allocated, self.data.len() as u64),
            ..self
        }
    }

    /// The buffer that has to be created before the bytes are uploaded, if
    /// any.
    pub open spec fn allocation(self) -> Option<BufferAllocation> {
        if must_grow(self.allocated, self.data.len() as u64) {
            Some(
                BufferAllocation {
                    label: self.label,
                    usage: self.usage,
                    size: self.data.len() as u64,
                },
            )
        } else {
            None
        }
    }

    /// The view that a draw pass binds once the bytes are uploaded.
    pub open spec fn buffer(self) -> StreamBuffer {
        StreamBuffer { usage: self.usage, len: self.data.len() as u64 }
    }
}

/// Whether `upload` is what a stream in state `stream` hands over.
pub open spec fn is_upload_of(upload: StreamUpload, stream: StreamView) -> bool {
    &&& upload.bytes@ == stream.data
    &&& upload.allocate == stream.allocation()
    &&& upload.buffer == stream.buffer()
}

/// CPU-side accumulation of bytes next to the size of their GPU-side buffer.
pub struct BufferStream {
    label: Option<&'static str>,
    usage: StreamUsage,
    data: Vec<u8>,
    allocated: Option<u64>,
}

impl View for BufferStream {
    type V = StreamView;

    closed spec fn view(&self) -> StreamView {
        StreamView {
            label: self.label,
            usage: self.usage,
            data: self.data@,
            allocated: self.allocated,
        }
    }
}

impl BufferStream {
    pub fn new(label: Option<&'static str>, usage: StreamUsage) -> (stream: Self)
        ensures
            stream@ == StreamView::fresh(label, usage),
    {
        Self { label, usage, data: Vec::new(), allocated: None }
    }

    /// Number of bytes gathered since the last upload.
    pub fn len(&self) -> (len: usize)
        ensures
            len == self@.data.len(),
    {
        self.data.len()
    }

    pub fn is_empty(&self) -> (empty: bool)
        ensures
            empty == (self@.data.len() == 0),
    {
        self.data.len() == 0
    }

    /// Size of the GPU-side buffer, or nothing before the first upload.
    pub fn allocated_size(&self) -> (size: Option<u64>)
        ensures
            size == self@.allocated,
    {
        self.allocated
    }

    /// Appends bytes and returns where they lie within the frame's data.
    pub fn write(&mut self, bytes: &[u8]) -> (range: StreamRange)
        ensures
            final(self)@ == old(self)@.written(bytes@),
            range.start == old(self)@.data.len(),
            range.end == old(self)@.data.len() + bytes@.len(),
            range.end == final(self)@.data.len(),
    {
        let start: usize = self.data.len();
        self.data.extend_from_slice(bytes);
        let end: usize = self.data.len();
        assert(self.data@ =~= old(self).data@ + bytes@);
        StreamRange { start: start as u64, end: end as u64 }
    }

    /// Hands the gathered bytes over for upload and starts an empty frame.
    ///
    /// The GPU-side buffer is kept where it holds the bytes and is replaced
    /// by one of exactly their length where it does not, so it never
    /// shrinks. A stream without bytes still yields a view, of length zero.
    pub fn finish(&mut self) -> (upload: StreamUpload)
        ensures
            is_upload_of(upload, old(self)@),
            final(self)@ == old(self)@.finished(),
    {
        let len: u64 = self.data.len() as u64;
        let grow: bool = match self.allocated {
            Some(size) => size < len,
            None => true,
        };
        let allocate: Option<BufferAllocation> = if grow {
            self.allocated = Some(len);
            Some(BufferAllocation { label: self.label, usage: self.usage, size: len })
        } else {
            None
        };
        let mut bytes: Vec<u8> = Vec::new();
        std::mem::swap(&mut self.data, &mut bytes);
        StreamUpload { allocate, bytes, buffer: StreamBuffer { usage: self.usage, len } }
    }
}

/// The GPU-side buffer of a stream never shrinks, is only replaced where it
/// is too small, and after an upload holds the uploaded bytes.
pub proof fn lemma_allocation_only_grows(stream: StreamView)
    ensures
        stream.finished().allocated is Some,
        stream.finished().allocated->0 >= stream.data.len() as u64,
        stream.allocated is Some ==> stream.finished().allocated->0 >= stream.allocated->0,
        stream.allocation() is None ==> stream.finished().allocated == stream.allocated,
        stream.finished().data.len() == 0,
{
}

} // verus!
