//! Array buffers and vertex arrays: handles to GPU objects and the driver
//! calls that bind, fill and release them.

use vstd::prelude::*;

verus! {

/// A driver call on a buffer or a vertex array.
#[derive(Clone, Copy, Debug, PartialEq, Eq, Structural)]
pub enum BufferCall {
    /// Make `buffer` the current array buffer; zero for none.
    BindArrayBuffer { buffer: u32 },
    /// Upload `size` bytes to the current array buffer, for static drawing.
    ArrayBufferStaticData { size: isize },
    /// Delete the buffer object.
    DeleteBuffer { buffer: u32 },
    /// Make `array` the current vertex array; zero for none.
    BindVertexArray { array: u32 },
    /// Delete the vertex array object.
    DeleteVertexArray { array: u32 },
}

/// An array buffer. The value is the only handle to its GPU object: it
/// cannot be copied, and `release` uses it up.
#[derive(Debug)]
pub struct ArrayBuffer {
    vbo: u32,
}

impl ArrayBuffer {
    /// The id of the GPU object.
    pub closed spec fn id(&self) -> u32 {
        self.vbo
    }

    /// Takes charge of the buffer object `vbo` that the driver generated.
    pub fn new(vbo: u32) -> (r: ArrayBuffer)
        ensures
            r.id() == vbo,
    {
        ArrayBuffer { vbo }
    }

    /// The call that makes this buffer the current one.
    pub fn bind(&self) -> (r: BufferCall)
        ensures
            r == (BufferCall::BindArrayBuffer { buffer: self.id() }),
    {
        BufferCall::BindArrayBuffer { buffer: self.vbo }
    }

    /// The call that leaves no array buffer current.
    pub fn unbind(&self) -> (r: BufferCall)
        ensures
            r == (BufferCall::BindArrayBuffer { buffer: 0 }),
    {
        BufferCall::BindArrayBuffer { buffer: 0 }
    }

    /// The call that uploads `len` elements of `element_size` bytes each to
    /// the current buffer: all their bytes.
    pub fn static_draw_data(&self, len: usize, element_size: usize) -> (r: BufferCall)
        requires
            len * element_size <= isize::MAX,
        ensures
            r matches BufferCall::ArrayBufferStaticData { size } && size == len * element_size,
    {
        let bytes: usize = len * element_size;
        BufferCall::ArrayBufferStaticData { size: bytes as isize }
    }

    /// Gives the buffer up: its object is to be deleted.
    pub fn release(self) -> (r: BufferCall)
        ensures
            r == (BufferCall::DeleteBuffer { buffer: self.id() }),
    {
        BufferCall::DeleteBuffer { buffer: self.vbo }
    }
}

/// A vertex array. The value is the only handle to its GPU object: it cannot
/// be copied, and `release` uses it up.
#[derive(Debug)]
pub struct VertexArray {
    vao: u32,
}

impl VertexArray {
    /// The id of the GPU object.
    pub closed spec fn id(&self) -> u32 {
        self.vao
    }

    /// Takes charge of the vertex array object `vao` that the driver
    /// generated.
    pub fn new(vao: u32) -> (r: VertexArray)
        ensures
            r.id() == vao,
    {
        VertexArray { vao }
    }

    /// The call that makes this vertex array the current one.
    pub fn bind(&self) -> (r: BufferCall)
        ensures
            r == (BufferCall::BindVertexArray { array: self.id() }),
    {
        BufferCall::BindVertexArray { array: self.vao }
    }

    /// The call that leaves no vertex array current.
    pub fn unbind(&self) -> (r: BufferCall)
        ensures
            r == (BufferCall::BindVertexArray { array: 0 }),
    {
        BufferCall::BindVertexArray { array: 0 }
    }

    /// Gives the vertex array up: its object is to be deleted.
    pub fn release(self) -> (r: BufferCall)
        ensures
            r == (BufferCall::DeleteVertexArray { array: self.id() }),
    {
        BufferCall::DeleteVertexArray { array: self.vao }
    }
}

} // verus!
