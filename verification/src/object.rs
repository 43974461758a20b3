//! The unit of drawable geometry storage: one vertex array plus two buffers.
//!
//! A [`GLObject`] owns one vertex-array handle, one vertex-data buffer handle
//! and one index buffer handle. The three handles are requested from the
//! driver together; if any request is denied the construction fails as a
//! whole, reporting which allocation kind failed, and no partial object is
//! produced. The handles are drawn from the context's counter, so they are
//! distinct and never reused. Releasing the object releases all three
//! handles together, exactly once, because release consumes the object.

use vstd::prelude::*;

use crate::command::{CommandView, GlCommand};
use crate::context::GL;

verus! {

/// Why a [`GLObject`] could not be constructed.
#[derive(Debug, Clone, Copy, PartialEq, Eq, Structural)]
pub enum GLObjectError {
    /// The driver denied the vertex-array allocation.
    CreateVAOError,
    /// The driver denied one of the two buffer allocations.
    CreateBufferError,
}

/// The driver's replies to the three allocation requests a [`GLObject`]
/// construction makes, in request order. `true` means the request is
/// granted. The unverified shell obtains these by performing the requests;
/// tests script them.
#[derive(Debug, Clone, Copy, PartialEq, Eq, Structural)]
pub struct AllocationReplies {
    pub vertex_array: bool,
    pub data_buffer: bool,
    pub index_buffer: bool,
}

impl AllocationReplies {
    /// Replies for a driver that grants every request.
    pub fn all_granted() -> (replies: AllocationReplies)
        ensures
            replies == (AllocationReplies {
                vertex_array: true,
                data_buffer: true,
                index_buffer: true,
            }),
    {
        AllocationReplies { vertex_array: true, data_buffer: true, index_buffer: true }
    }

    /// Whether every request is granted.
    pub open spec fn all_ok(self) -> bool {
        self.vertex_array && self.data_buffer && self.index_buffer
    }
}

/// The allocation conversation [`GLObject::try_new`] records: one request
/// per needed handle, stopping at the first denial. Granted handles are
/// `first_handle`, `first_handle + 1`, `first_handle + 2` in request order.
pub open spec fn allocation_trace(replies: AllocationReplies, first_handle: u64) -> Seq<CommandView> {
    if !replies.vertex_array {
        seq![CommandView::CreateVertexArray { result: None }]
    } else if !replies.data_buffer {
        seq![
            CommandView::CreateVertexArray { result: Some(first_handle) },
            CommandView::CreateBuffer { result: None },
        ]
    } else if !replies.index_buffer {
        seq![
            CommandView::CreateVertexArray { result: Some(first_handle) },
            CommandView::CreateBuffer { result: Some(((first_handle + 1) as u64)) },
            CommandView::CreateBuffer { result: None },
        ]
    } else {
        seq![
            CommandView::CreateVertexArray { result: Some(first_handle) },
            CommandView::CreateBuffer { result: Some(((first_handle + 1) as u64)) },
            CommandView::CreateBuffer { result: Some(((first_handle + 2) as u64)) },
        ]
    }
}

/// One drawable object's driver-side storage; see the module documentation.
pub struct GLObject {
    vao: u64,
    data_buffer: u64,
    index_buffer: u64,
}

impl GLObject {
    /// The vertex-array handle.
    pub closed spec fn spec_vao(&self) -> u64 {
        self.vao
    }

    /// The vertex-data buffer handle.
    pub closed spec fn spec_data(&self) -> u64 {
        self.data_buffer
    }

    /// The index buffer handle.
    pub closed spec fn spec_indices(&self) -> u64 {
        self.index_buffer
    }

    /// The vertex-array handle.
    #[verifier::when_used_as_spec(spec_vao)]
    pub fn vao(&self) -> (handle: u64)
        ensures
            handle == self.spec_vao(),
    {
        self.vao
    }

    /// The vertex-data buffer handle.
    #[verifier::when_used_as_spec(spec_data)]
    pub fn data(&self) -> (handle: u64)
        ensures
            handle == self.spec_data(),
    {
        self.data_buffer
    }

    /// The index buffer handle.
    #[verifier::when_used_as_spec(spec_indices)]
    pub fn indices(&self) -> (handle: u64)
        ensures
            handle == self.spec_indices(),
    {
        self.index_buffer
    }

    /// Request one vertex-array handle and two buffer handles from the
    /// driver. Succeeds exactly when every request is granted; the first
    /// denial aborts the construction and names the allocation kind that
    /// failed. The recorded conversation is [`allocation_trace`].
    pub fn try_new(gl: &mut GL, replies: &AllocationReplies) -> (result: Result<
        GLObject,
        GLObjectError,
    >)
        requires
            old(gl).next_handle() + 3 <= u64::MAX,
        ensures
            final(gl).trace() =~= old(gl).trace() + allocation_trace(
                *replies,
                old(gl).next_handle(),
            ),
            final(gl).state() == old(gl).state(),
            final(gl).next_program_uid() == old(gl).next_program_uid(),
            result is Ok <==> replies.all_ok(),
            result matches Ok(object) ==> {
                &&& object.vao() == old(gl).next_handle()
                &&& object.data() == old(gl).next_handle() + 1
                &&& object.indices() == old(gl).next_handle() + 2
                &&& final(gl).next_handle() == old(gl).next_handle() + 3
            },
            !replies.vertex_array ==> result == Err::<GLObject, GLObjectError>(
                GLObjectError::CreateVAOError,
            ),
            replies.vertex_array && !(replies.data_buffer && replies.index_buffer)
                ==> result == Err::<GLObject, GLObjectError>(GLObjectError::CreateBufferError),
    {
        if !replies.vertex_array {
            gl.issue(GlCommand::CreateVertexArray { result: None });
            return Err(GLObjectError::CreateVAOError);
        }
        let vao = gl.take_handle();
        gl.issue(GlCommand::CreateVertexArray { result: Some(vao) });
        if !replies.data_buffer {
            gl.issue(GlCommand::CreateBuffer { result: None });
            return Err(GLObjectError::CreateBufferError);
        }
        let data_buffer = gl.take_handle();
        gl.issue(GlCommand::CreateBuffer { result: Some(data_buffer) });
        if !replies.index_buffer {
            gl.issue(GlCommand::CreateBuffer { result: None });
            return Err(GLObjectError::CreateBufferError);
        }
        let index_buffer = gl.take_handle();
        gl.issue(GlCommand::CreateBuffer { result: Some(index_buffer) });
        Ok(GLObject { vao, data_buffer, index_buffer })
    }

    /// Release all three handles, in the order data buffer, index buffer,
    /// vertex array. Consuming the object makes the release happen exactly
    /// once.
    pub fn delete(self, gl: &mut GL)
        ensures
            final(gl).trace() =~= old(gl).trace() + seq![
                CommandView::DeleteBuffer { buffer: self.data() },
                CommandView::DeleteBuffer { buffer: self.indices() },
                CommandView::DeleteVertexArray { vao: self.vao() },
            ],
            final(gl).state() == old(gl).state(),
            final(gl).next_handle() == old(gl).next_handle(),
            final(gl).next_program_uid() == old(gl).next_program_uid(),
    {
        gl.issue(GlCommand::DeleteBuffer { buffer: self.data_buffer });
        gl.issue(GlCommand::DeleteBuffer { buffer: self.index_buffer });
        gl.issue(GlCommand::DeleteVertexArray { vao: self.vao });
    }
}

} // verus!
