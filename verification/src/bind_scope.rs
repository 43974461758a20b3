//! The bind scope: a scoped binding session over one GPU object.
//!
//! Constructing the scope makes the object's vertex array and both buffers
//! current. While it is live, buffer uploads and attribute-pointer
//! configuration are valid; each attribute slot the scope enables is
//! recorded in the scope. Teardown — reached through [`BindedObjCtx::end`]
//! or by the draw call that consumes the scope — disables every recorded
//! slot exactly once, then clears the vertex-data buffer, index buffer and
//! vertex-array bindings to none, in that order, so the next scope on any
//! other object starts from a clean slate. The lemmas at the end of this
//! module state that guarantee over the abstract driver state, for every
//! starting state and every recorded slot list.

use vstd::prelude::*;
use vstd::seq_lib::lemma_seq_contains_after_push;

use crate::command::{apply, fold_trace, lemma_fold_trace_push, CommandView, DriverState, GlCommand};
use crate::context::GL;
use crate::geometry::{AsSlice, MAX_BUFFER_BYTES};
use crate::locations::AttribLocation;
use crate::object::GLObject;
use crate::shader_use_ctx::ShaderUseCtx;

verus! {

/// The binding conversation opening a scope records: the object's vertex
/// array, vertex-data buffer and index buffer are made current, in that
/// order.
pub open spec fn bind_trace(vao: u64, data: u64, indices: u64) -> Seq<CommandView> {
    seq![
        CommandView::BindVertexArray { vao: Some(vao) },
        CommandView::BindArrayBuffer { buffer: Some(data) },
        CommandView::BindElementArrayBuffer { buffer: Some(indices) },
    ]
}

/// One disable call per recorded slot, in record order.
pub open spec fn disable_trace(slots: Seq<u32>) -> Seq<CommandView> {
    slots.map_values(|slot: u32| CommandView::DisableVertexAttribArray { slot })
}

/// The teardown conversation a scope records on exit: every recorded slot
/// disabled, then the vertex-data buffer, index buffer and vertex-array
/// bindings cleared to none, in that order.
pub open spec fn teardown_trace(slots: Seq<u32>) -> Seq<CommandView> {
    disable_trace(slots) + seq![
        CommandView::BindArrayBuffer { buffer: None },
        CommandView::BindElementArrayBuffer { buffer: None },
        CommandView::BindVertexArray { vao: None },
    ]
}

/// A scoped binding session over one GPU object; see the module
/// documentation.
pub struct BindedObjCtx {
    vao: u64,
    data_buffer: u64,
    index_buffer: u64,
    enabled_attributes: Vec<u32>,
}

impl BindedObjCtx {
    /// Open a scope over `object`: the same as [`GLObject::bind`].
    pub fn new(gl: &mut GL, object: &GLObject) -> (scope: BindedObjCtx)
        ensures
            final(gl).trace() =~= old(gl).trace() + bind_trace(
                object.vao(),
                object.data(),
                object.indices(),
            ),
            final(gl).state() == (DriverState {
                bound_vertex_array: Some(object.vao()),
                bound_array_buffer: Some(object.data()),
                bound_element_array_buffer: Some(object.indices()),
                ..old(gl).state()
            }),
            final(gl).next_handle() == old(gl).next_handle(),
            final(gl).next_program_uid() == old(gl).next_program_uid(),
            scope.spec_vao() == object.vao(),
            scope.spec_data() == object.data(),
            scope.spec_indices() == object.indices(),
            scope.enabled() =~= Seq::<u32>::empty(),
            scope.is_active(final(gl).state()),
    {
        object.bind(gl)
    }

    /// The bound object's vertex-array handle.
    pub closed spec fn spec_vao(&self) -> u64 {
        self.vao
    }

    /// The bound object's vertex-data buffer handle.
    pub closed spec fn spec_data(&self) -> u64 {
        self.data_buffer
    }

    /// The bound object's index buffer handle.
    pub closed spec fn spec_indices(&self) -> u64 {
        self.index_buffer
    }

    /// The attribute slots this scope has enabled, in enable order.
    pub closed spec fn enabled(&self) -> Seq<u32> {
        self.enabled_attributes@
    }

    /// Whether the scope's object is what `state` has bound: the scope is
    /// live and its operations talk to the right buffers.
    pub open spec fn is_active(&self, state: DriverState) -> bool {
        &&& state.bound_vertex_array == Some(self.spec_vao())
        &&& state.bound_array_buffer == Some(self.spec_data())
        &&& state.bound_element_array_buffer == Some(self.spec_indices())
    }

    /// Upload a complete static vertex payload to the bound data buffer.
    pub fn upload_static_array_buffer<A: AsSlice<u32>>(&self, gl: &mut GL, array: &A)
        requires
            self.is_active(old(gl).state()),
        ensures
            final(gl).trace() =~= old(gl).trace() + seq![
                CommandView::UploadArrayData { words: array.slice_view() },
            ],
            final(gl).state() == old(gl).state(),
            final(gl).next_handle() == old(gl).next_handle(),
            final(gl).next_program_uid() == old(gl).next_program_uid(),
    {
        let words = vstd::slice::slice_to_vec(array.as_slice());
        gl.issue(GlCommand::UploadArrayData { words });
    }

    /// Upload a complete static index payload to the bound index buffer.
    pub fn upload_static_elem_buffer<A: AsSlice<i32>>(&self, gl: &mut GL, array: &A)
        requires
            self.is_active(old(gl).state()),
        ensures
            final(gl).trace() =~= old(gl).trace() + seq![
                CommandView::UploadElementData { indices: array.slice_view() },
            ],
            final(gl).state() == old(gl).state(),
            final(gl).next_handle() == old(gl).next_handle(),
            final(gl).next_program_uid() == old(gl).next_program_uid(),
    {
        let indices = vstd::slice::slice_to_vec(array.as_slice());
        gl.issue(GlCommand::UploadElementData { indices });
    }

    /// Allocate an uninitialized dynamic vertex buffer of `size` bytes,
    /// for later partial updates.
    pub fn init_dyn_array_buffer(&self, gl: &mut GL, size: usize)
        requires
            self.is_active(old(gl).state()),
            size <= MAX_BUFFER_BYTES,
        ensures
            final(gl).trace() =~= old(gl).trace() + seq![
                CommandView::AllocateArrayData { byte_size: size },
            ],
            final(gl).state() == old(gl).state(),
            final(gl).next_handle() == old(gl).next_handle(),
            final(gl).next_program_uid() == old(gl).next_program_uid(),
    {
        gl.issue(GlCommand::AllocateArrayData { byte_size: size });
    }

    /// Overwrite a sub-range of the bound data buffer at `offset` bytes,
    /// without reallocating it.
    pub fn upload_sub_array<A: AsSlice<u32>>(&self, gl: &mut GL, array: &A, offset: usize)
        requires
            self.is_active(old(gl).state()),
            offset + 4 * array.slice_view().len() <= MAX_BUFFER_BYTES,
        ensures
            final(gl).trace() =~= old(gl).trace() + seq![
                CommandView::UploadArraySubData { byte_offset: offset, words: array.slice_view() },
            ],
            final(gl).state() == old(gl).state(),
            final(gl).next_handle() == old(gl).next_handle(),
            final(gl).next_program_uid() == old(gl).next_program_uid(),
    {
        let words = vstd::slice::slice_to_vec(array.as_slice());
        gl.issue(GlCommand::UploadArraySubData { byte_offset: offset, words });
    }

    /// Configure one vertex attribute slot: resolve `attribute` against
    /// the program the use scope keeps current; when it yields a slot,
    /// enable the slot, describe its layout, and record it for teardown.
    /// When the attribute was resolved against a different program, or its
    /// name found no slot, nothing is issued and nothing is recorded.
    pub fn vertex_attrib_pointer(
        &mut self,
        gl: &mut GL,
        shader_use: &ShaderUseCtx<'_>,
        attribute: AttribLocation,
        size: usize,
        stride: usize,
        offset: usize,
    )
        requires
            old(self).is_active(old(gl).state()),
            shader_use.is_current(old(gl).state()),
            1 <= size <= 4,
            stride <= MAX_BUFFER_BYTES,
            offset <= MAX_BUFFER_BYTES,
        ensures
            final(self).spec_vao() == old(self).spec_vao(),
            final(self).spec_data() == old(self).spec_data(),
            final(self).spec_indices() == old(self).spec_indices(),
            match attribute.spec_resolved_for(shader_use.spec_program_uid()) {
                Some(slot) => {
                    &&& final(gl).trace() =~= old(gl).trace() + seq![
                        CommandView::EnableVertexAttribArray { slot },
                        CommandView::VertexAttribPointer {
                            slot,
                            components: size as u32,
                            stride: stride as u32,
                            byte_offset: offset as u32,
                        },
                    ]
                    &&& final(gl).state() == (DriverState {
                        enabled_attributes: old(gl).state().enabled_attributes.insert(slot),
                        ..old(gl).state()
                    })
                    &&& final(self).enabled() =~= old(self).enabled().push(slot)
                },
                None => {
                    &&& final(gl).trace() == old(gl).trace()
                    &&& final(gl).state() == old(gl).state()
                    &&& final(self).enabled() == old(self).enabled()
                },
            },
            final(gl).next_handle() == old(gl).next_handle(),
            final(gl).next_program_uid() == old(gl).next_program_uid(),
            final(self).is_active(final(gl).state()),
    {
        if let Some(slot) = attribute.try_inner_for(shader_use.as_program()) {
            gl.issue(GlCommand::EnableVertexAttribArray { slot });
            gl.issue(
                GlCommand::VertexAttribPointer {
                    slot,
                    components: size as u32,
                    stride: stride as u32,
                    byte_offset: offset as u32,
                },
            );
            self.enabled_attributes.push(slot);
        }
    }

    /// Issue an instanced triangle draw over the bound index buffer —
    /// `triangle_count` triangles as three indices each, `instance_count`
    /// instances — then tear the scope down. Consuming the scope makes the
    /// teardown happen exactly once.
    pub fn draw_triangles(
        self,
        gl: &mut GL,
        shader_use: &ShaderUseCtx<'_>,
        triangle_count: usize,
        instance_count: u32,
    )
        requires
            self.is_active(old(gl).state()),
            shader_use.is_current(old(gl).state()),
            3 * triangle_count <= MAX_BUFFER_BYTES,
        ensures
            final(gl).trace() =~= old(gl).trace() + seq![
                CommandView::DrawTrianglesInstanced {
                    index_count: (3 * triangle_count) as u32,
                    instance_count,
                },
            ] + teardown_trace(self.enabled()),
            final(gl).state() == (DriverState {
                bound_vertex_array: None,
                bound_array_buffer: None,
                bound_element_array_buffer: None,
                enabled_attributes: old(gl).state().enabled_attributes.difference(
                    self.enabled().to_set(),
                ),
                ..old(gl).state()
            }),
            final(gl).next_handle() == old(gl).next_handle(),
            final(gl).next_program_uid() == old(gl).next_program_uid(),
    {
        gl.issue(
            GlCommand::DrawTrianglesInstanced {
                index_count: (3 * triangle_count) as u32,
                instance_count,
            },
        );
        self.end(gl);
    }

    /// Tear the scope down without drawing: disable every recorded slot,
    /// then clear all three bindings to none. Consuming the scope makes
    /// the teardown happen exactly once.
    pub fn end(self, gl: &mut GL)
        ensures
            final(gl).trace() =~= old(gl).trace() + teardown_trace(self.enabled()),
            final(gl).state() == (DriverState {
                bound_vertex_array: None,
                bound_array_buffer: None,
                bound_element_array_buffer: None,
                enabled_attributes: old(gl).state().enabled_attributes.difference(
                    self.enabled().to_set(),
                ),
                ..old(gl).state()
            }),
            final(gl).next_handle() == old(gl).next_handle(),
            final(gl).next_program_uid() == old(gl).next_program_uid(),
    {
        let ghost base = gl.trace();
        let ghost initial = gl.state();
        let ghost slots = self.enabled_attributes@;
        let mut i: usize = 0;
        while i < self.enabled_attributes.len()
            invariant
                base == old(gl).trace(),
                initial == old(gl).state(),
                slots == self.enabled_attributes@,
                i <= slots.len(),
                gl.trace() =~= base + disable_trace(slots.take(i as int)),
                gl.state() == (DriverState {
                    enabled_attributes: initial.enabled_attributes.difference(
                        slots.take(i as int).to_set(),
                    ),
                    ..initial
                }),
                gl.next_handle() == old(gl).next_handle(),
                gl.next_program_uid() == old(gl).next_program_uid(),
            decreases slots.len() - i,
        {
            let slot = self.enabled_attributes[i];
            gl.issue(GlCommand::DisableVertexAttribArray { slot });
            proof {
                assert(slots.take(i + 1) =~= slots.take(i as int).push(slot));
                assert(disable_trace(slots.take(i + 1)) =~= disable_trace(
                    slots.take(i as int),
                ).push(CommandView::DisableVertexAttribArray { slot }));
                assert forall|x: u32|
                    slots.take(i + 1).to_set().contains(x) <==> (slots.take(
                        i as int,
                    ).to_set().contains(x) || x == slot) by {
                    lemma_seq_contains_after_push(slots.take(i as int), slot, x);
                }
                assert(initial.enabled_attributes.difference(slots.take(i as int).to_set()).remove(
                    slot,
                ) =~= initial.enabled_attributes.difference(slots.take(i + 1).to_set()));
            }
            i = i + 1;
        }
        proof {
            assert(slots.take(i as int) =~= slots);
        }
        gl.issue(GlCommand::BindArrayBuffer { buffer: None });
        gl.issue(GlCommand::BindElementArrayBuffer { buffer: None });
        gl.issue(GlCommand::BindVertexArray { vao: None });
    }
}

impl GLObject {
    /// Open a bind scope over this object: make its vertex array and both
    /// buffers current. The scope starts with no recorded attribute slots.
    #[must_use]
    pub fn bind(&self, gl: &mut GL) -> (scope: BindedObjCtx)
        ensures
            final(gl).trace() =~= old(gl).trace() + bind_trace(
                self.vao(),
                self.data(),
                self.indices(),
            ),
            final(gl).state() == (DriverState {
                bound_vertex_array: Some(self.vao()),
                bound_array_buffer: Some(self.data()),
                bound_element_array_buffer: Some(self.indices()),
                ..old(gl).state()
            }),
            final(gl).next_handle() == old(gl).next_handle(),
            final(gl).next_program_uid() == old(gl).next_program_uid(),
            scope.spec_vao() == self.vao(),
            scope.spec_data() == self.data(),
            scope.spec_indices() == self.indices(),
            scope.enabled() =~= Seq::<u32>::empty(),
            scope.is_active(final(gl).state()),
    {
        gl.issue(GlCommand::BindVertexArray { vao: Some(self.vao()) });
        gl.issue(GlCommand::BindArrayBuffer { buffer: Some(self.data()) });
        gl.issue(GlCommand::BindElementArrayBuffer { buffer: Some(self.indices()) });
        BindedObjCtx {
            vao: self.vao(),
            data_buffer: self.data(),
            index_buffer: self.indices(),
            enabled_attributes: Vec::new(),
        }
    }
}

/// How often `trace` disables `slot`.
pub open spec fn count_disables(trace: Seq<CommandView>, slot: u32) -> int
    decreases trace.len(),
{
    if trace.len() == 0 {
        0
    } else {
        count_disables(trace.drop_last(), slot) + if trace.last()
            == (CommandView::DisableVertexAttribArray { slot }) {
            1int
        } else {
            0int
        }
    }
}

/// How often `slot` occurs in a slot list.
pub open spec fn count_slot(slots: Seq<u32>, slot: u32) -> int
    decreases slots.len(),
{
    if slots.len() == 0 {
        0
    } else {
        count_slot(slots.drop_last(), slot) + if slots.last() == slot {
            1int
        } else {
            0int
        }
    }
}

/// Applying a scope's disable calls to any driver state removes exactly
/// the recorded slots from the enabled set and touches nothing else.
proof fn lemma_disable_trace_clears(state: DriverState, slots: Seq<u32>)
    ensures
        fold_trace(state, disable_trace(slots)) == (DriverState {
            enabled_attributes: state.enabled_attributes.difference(slots.to_set()),
            ..state
        }),
    decreases slots.len(),
{
    if slots.len() == 0 {
        assert(disable_trace(slots) =~= Seq::<CommandView>::empty());
        assert(state.enabled_attributes.difference(slots.to_set()) =~= state.enabled_attributes);
    } else {
        let prefix = slots.drop_last();
        let slot = slots.last();
        lemma_disable_trace_clears(state, prefix);
        assert(disable_trace(slots) =~= disable_trace(prefix).push(
            CommandView::DisableVertexAttribArray { slot },
        ));
        lemma_fold_trace_push(
            state,
            disable_trace(prefix),
            CommandView::DisableVertexAttribArray { slot },
        );
        assert(prefix.push(slot) =~= slots);
        assert forall|x: u32|
            slots.to_set().contains(x) <==> (prefix.to_set().contains(x) || x == slot) by {
            lemma_seq_contains_after_push(prefix, slot, x);
        }
        assert(state.enabled_attributes.difference(prefix.to_set()).remove(slot)
            =~= state.enabled_attributes.difference(slots.to_set()));
    }
}

/// Teardown, applied to any driver state, leaves the vertex-data buffer,
/// index buffer and vertex-array bindings all cleared to none, removes the
/// recorded slots from the enabled set, and leaves the current program and
/// depth test alone — whatever the state was and whatever the scope had
/// enabled.
pub proof fn lemma_teardown_restores_clean_state(state: DriverState, slots: Seq<u32>)
    ensures
        fold_trace(state, teardown_trace(slots)) == (DriverState {
            bound_vertex_array: None,
            bound_array_buffer: None,
            bound_element_array_buffer: None,
            enabled_attributes: state.enabled_attributes.difference(slots.to_set()),
            current_program: state.current_program,
            depth_test: state.depth_test,
        }),
{
    lemma_disable_trace_clears(state, slots);
    let unbinds = seq![
        CommandView::BindArrayBuffer { buffer: None },
        CommandView::BindElementArrayBuffer { buffer: None },
        CommandView::BindVertexArray { vao: None },
    ];
    let after_disables = fold_trace(state, disable_trace(slots));
    crate::command::lemma_fold_trace_concat(state, disable_trace(slots), unbinds);
    assert(fold_trace(after_disables, unbinds) == apply(
        apply(apply(after_disables, unbinds[0]), unbinds[1]),
        unbinds[2],
    )) by {
        reveal_with_fuel(fold_trace, 4);
        assert(unbinds.drop_last().drop_last().drop_last() =~= Seq::<CommandView>::empty());
        assert(unbinds.drop_last().drop_last() =~= seq![unbinds[0]]);
        assert(unbinds.drop_last() =~= seq![unbinds[0], unbinds[1]]);
    }
}

/// Teardown disables every slot the scope recorded exactly as often as it
/// was recorded — each enabled attribute is disabled exactly once — and
/// never touches a slot the scope did not record.
pub proof fn lemma_teardown_disables_each_slot_once(slots: Seq<u32>, slot: u32)
    ensures
        count_disables(teardown_trace(slots), slot) == count_slot(slots, slot),
{
    lemma_count_disables_of_disable_trace(slots, slot);
    let unbinds = seq![
        CommandView::BindArrayBuffer { buffer: None },
        CommandView::BindElementArrayBuffer { buffer: None },
        CommandView::BindVertexArray { vao: None },
    ];
    lemma_count_disables_concat(disable_trace(slots), unbinds, slot);
    assert(count_disables(unbinds, slot) == 0) by {
        reveal_with_fuel(count_disables, 4);
        assert(unbinds.drop_last().drop_last().drop_last() =~= Seq::<CommandView>::empty());
        assert(unbinds.drop_last().drop_last() =~= seq![unbinds[0]]);
        assert(unbinds.drop_last() =~= seq![unbinds[0], unbinds[1]]);
    }
}

/// The disable calls alone count exactly the slot list.
proof fn lemma_count_disables_of_disable_trace(slots: Seq<u32>, slot: u32)
    ensures
        count_disables(disable_trace(slots), slot) == count_slot(slots, slot),
    decreases slots.len(),
{
    if slots.len() == 0 {
        assert(disable_trace(slots) =~= Seq::<CommandView>::empty());
    } else {
        lemma_count_disables_of_disable_trace(slots.drop_last(), slot);
        assert(disable_trace(slots).drop_last() =~= disable_trace(slots.drop_last()));
        assert(disable_trace(slots).last() == (CommandView::DisableVertexAttribArray {
            slot: slots.last(),
        }));
    }
}

/// Disable counts add up over concatenation.
proof fn lemma_count_disables_concat(first: Seq<CommandView>, second: Seq<CommandView>, slot: u32)
    ensures
        count_disables(first + second, slot) == count_disables(first, slot) + count_disables(
            second,
            slot,
        ),
    decreases second.len(),
{
    if second.len() == 0 {
        assert(first + second =~= first);
    } else {
        lemma_count_disables_concat(first, second.drop_last(), slot);
        assert((first + second).drop_last() =~= first + second.drop_last());
        assert((first + second).last() == second.last());
    }
}

} // verus!
