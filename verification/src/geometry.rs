//! Geometry arrays and the byte-size accounting of uploads.
//!
//! Vertex attribute data is held as raw 32-bit words: the bit patterns of
//! the host's scalars, stored column-major (one column of 2 or 3 words per
//! vertex). The library never interprets the words numerically — what it
//! owns is the counting: how many vertices an array holds, how many bytes
//! it occupies in the driver's buffer, and at which byte offset each array
//! lands in the interleaved layout.

use vstd::prelude::*;

verus! {

/// The number of bytes one 32-bit word occupies in a driver buffer.
pub const WORD_BYTES: usize = 4;

/// The largest byte size or byte offset the driver's 32-bit signed API can
/// address.
pub const MAX_BUFFER_BYTES: usize = 0x7fff_ffff;

/// Something that occupies a known number of bytes in a driver buffer.
pub trait SizeInBytes {
    /// The byte size as a mathematical value.
    spec fn spec_size_in_bytes(&self) -> int;

    /// The byte size.
    fn size_in_bytes(&self) -> (bytes: usize)
        ensures
            bytes == self.spec_size_in_bytes(),
    ;
}

/// Something whose payload can be handed over as a contiguous slice.
pub trait AsSlice<T> {
    /// The payload as a mathematical sequence.
    spec fn slice_view(&self) -> Seq<T>;

    /// The payload as a slice.
    fn as_slice(&self) -> (slice: &[T])
        ensures
            slice@ == self.slice_view(),
    ;
}

/// An array of 3-component vertex attributes (positions or normals),
/// column-major, each scalar a raw 32-bit word.
pub struct AttribArray3 {
    words: Vec<u32>,
}

/// An array of 2-component vertex attributes (texture coordinates),
/// column-major, each scalar a raw 32-bit word.
pub struct AttribArray2 {
    words: Vec<u32>,
}

/// An array of triangular faces: three 0-based vertex indices per face,
/// column-major.
pub struct FaceArray {
    indices: Vec<i32>,
}

impl AttribArray3 {
    /// The words are whole 3-word columns and fit the driver's addressing.
    #[verifier::type_invariant]
    pub open spec fn wf(&self) -> bool {
        &&& self.view_words().len() % 3 == 0
        &&& WORD_BYTES * self.view_words().len() <= MAX_BUFFER_BYTES
    }

    /// The payload, column-major, one 3-word column per vertex.
    pub closed spec fn view_words(&self) -> Seq<u32> {
        self.words@
    }

    /// How many vertices (columns) the array holds.
    pub open spec fn spec_vertex_count(&self) -> int {
        self.view_words().len() as int / 3
    }

    /// Wrap a column-major payload of whole 3-word columns.
    pub fn new(words: Vec<u32>) -> (array: AttribArray3)
        requires
            words@.len() % 3 == 0,
            WORD_BYTES * words@.len() <= MAX_BUFFER_BYTES,
        ensures
            array.view_words() == words@,
    {
        AttribArray3 { words }
    }

    /// An array of no vertices.
    pub fn empty() -> (array: AttribArray3)
        ensures
            array.view_words() =~= Seq::<u32>::empty(),
    {
        AttribArray3 { words: Vec::new() }
    }

    /// How many vertices (columns) the array holds.
    pub fn vertex_count(&self) -> (count: usize)
        ensures
            count == self.spec_vertex_count(),
    {
        proof {
            use_type_invariant(&*self);
        }
        self.words.len() / 3
    }
}

impl SizeInBytes for AttribArray3 {
    open spec fn spec_size_in_bytes(&self) -> int {
        WORD_BYTES * self.view_words().len()
    }

    fn size_in_bytes(&self) -> (bytes: usize)
        ensures
            bytes == self.spec_size_in_bytes(),
    {
        proof {
            use_type_invariant(&*self);
        }
        WORD_BYTES * self.words.len()
    }
}

impl AsSlice<u32> for AttribArray3 {
    open spec fn slice_view(&self) -> Seq<u32> {
        self.view_words()
    }

    fn as_slice(&self) -> (slice: &[u32])
        ensures
            slice@ == self.slice_view(),
    {
        self.words.as_slice()
    }
}

impl AttribArray2 {
    /// The words are whole 2-word columns and fit the driver's addressing.
    #[verifier::type_invariant]
    pub open spec fn wf(&self) -> bool {
        &&& self.view_words().len() % 2 == 0
        &&& WORD_BYTES * self.view_words().len() <= MAX_BUFFER_BYTES
    }

    /// The payload, column-major, one 2-word column per vertex.
    pub closed spec fn view_words(&self) -> Seq<u32> {
        self.words@
    }

    /// How many vertices (columns) the array holds.
    pub open spec fn spec_vertex_count(&self) -> int {
        self.view_words().len() as int / 2
    }

    /// Wrap a column-major payload of whole 2-word columns.
    pub fn new(words: Vec<u32>) -> (array: AttribArray2)
        requires
            words@.len() % 2 == 0,
            WORD_BYTES * words@.len() <= MAX_BUFFER_BYTES,
        ensures
            array.view_words() == words@,
    {
        AttribArray2 { words }
    }

    /// An array of no vertices.
    pub fn empty() -> (array: AttribArray2)
        ensures
            array.view_words() =~= Seq::<u32>::empty(),
    {
        AttribArray2 { words: Vec::new() }
    }

    /// How many vertices (columns) the array holds.
    pub fn vertex_count(&self) -> (count: usize)
        ensures
            count == self.spec_vertex_count(),
    {
        proof {
            use_type_invariant(&*self);
        }
        self.words.len() / 2
    }
}

impl SizeInBytes for AttribArray2 {
    open spec fn spec_size_in_bytes(&self) -> int {
        WORD_BYTES * self.view_words().len()
    }

    fn size_in_bytes(&self) -> (bytes: usize)
        ensures
            bytes == self.spec_size_in_bytes(),
    {
        proof {
            use_type_invariant(&*self);
        }
        WORD_BYTES * self.words.len()
    }
}

impl AsSlice<u32> for AttribArray2 {
    open spec fn slice_view(&self) -> Seq<u32> {
        self.view_words()
    }

    fn as_slice(&self) -> (slice: &[u32])
        ensures
            slice@ == self.slice_view(),
    {
        self.words.as_slice()
    }
}

impl FaceArray {
    /// The indices are whole 3-index columns and fit the driver's
    /// addressing, both as an index payload and as a per-triangle index
    /// count in a draw call.
    #[verifier::type_invariant]
    pub open spec fn wf(&self) -> bool {
        &&& self.view_indices().len() % 3 == 0
        &&& WORD_BYTES * self.view_indices().len() <= MAX_BUFFER_BYTES
    }

    /// The indices, column-major, one 3-index column per face.
    pub closed spec fn view_indices(&self) -> Seq<i32> {
        self.indices@
    }

    /// How many faces (columns) the array holds.
    pub open spec fn spec_face_count(&self) -> int {
        self.view_indices().len() as int / 3
    }

    /// Wrap a column-major payload of whole 3-index columns.
    pub fn new(indices: Vec<i32>) -> (array: FaceArray)
        requires
            indices@.len() % 3 == 0,
            WORD_BYTES * indices@.len() <= MAX_BUFFER_BYTES,
        ensures
            array.view_indices() == indices@,
    {
        FaceArray { indices }
    }

    /// How many faces (columns) the array holds.
    pub fn face_count(&self) -> (count: usize)
        ensures
            count == self.spec_face_count(),
    {
        proof {
            use_type_invariant(&*self);
        }
        self.indices.len() / 3
    }
}

impl SizeInBytes for FaceArray {
    open spec fn spec_size_in_bytes(&self) -> int {
        WORD_BYTES * self.view_indices().len()
    }

    fn size_in_bytes(&self) -> (bytes: usize)
        ensures
            bytes == self.spec_size_in_bytes(),
    {
        proof {
            use_type_invariant(&*self);
        }
        WORD_BYTES * self.indices.len()
    }
}

impl AsSlice<i32> for FaceArray {
    open spec fn slice_view(&self) -> Seq<i32> {
        self.view_indices()
    }

    fn as_slice(&self) -> (slice: &[i32])
        ensures
            slice@ == self.slice_view(),
    {
        self.indices.as_slice()
    }
}

} // verus!
