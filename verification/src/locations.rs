//! Resolved shader slots: typed uniform locations and guarded attribute
//! locations.
//!
//! A uniform location is a wrapper around an optional driver handle,
//! parameterized by the value type it is meant to receive; "invalid"
//! (handle absent) is an ordinary, non-fatal state, and setting through an
//! invalid location is a no-op. An attribute location is a raw slot
//! integer guarded by the identity of the program it was resolved against:
//! it only ever yields its slot while that same program is asked about,
//! so a stale location can never configure another program's attributes.

use vstd::prelude::*;

use core::marker::PhantomData;

use crate::program::ShaderProgram;

verus! {

/// A resolved uniform slot; `valid` says whether setting through it will
/// reach the driver at all.
pub trait UniformLocation: Sized {
    /// Whether the location resolved to an actual driver slot.
    spec fn valid(&self) -> bool;

    /// Whether the location resolved to an actual driver slot.
    fn is_valid(&self) -> (valid: bool)
        ensures
            valid == self.valid(),
    ;
}

/// A uniform location for a single driver slot, typed by the value kind it
/// was resolved for, so a location resolved for one kind can never be fed
/// to another kind's setter.
pub struct SimpleUniformLocation<V> {
    loc: Option<u64>,
    value_kind: PhantomData<V>,
}

impl<V> SimpleUniformLocation<V> {
    /// The driver slot, if the name resolved to one.
    pub closed spec fn spec_loc(&self) -> Option<u64> {
        self.loc
    }

    /// The driver slot this location stands for; meaningful only when the
    /// location is valid.
    pub open spec fn spec_handle(&self) -> u64 {
        self.spec_loc()->Some_0
    }

    /// Wrap the driver's reply to a name lookup.
    pub(crate) fn from_reply(loc: Option<u64>) -> (location: SimpleUniformLocation<V>)
        ensures
            location.spec_loc() == loc,
    {
        SimpleUniformLocation { loc, value_kind: PhantomData }
    }

    /// The driver slot; callable only on a valid location.
    pub fn handle(&self) -> (handle: u64)
        requires
            self.spec_loc() is Some,
        ensures
            handle == self.spec_handle(),
    {
        self.loc.unwrap()
    }
}

impl<V> UniformLocation for SimpleUniformLocation<V> {
    open spec fn valid(&self) -> bool {
        self.spec_loc() is Some
    }

    fn is_valid(&self) -> (valid: bool)
        ensures
            valid == self.valid(),
    {
        self.loc.is_some()
    }
}

/// An attribute slot guarded by the identity of the owning program.
pub struct AttribLocation {
    program_uid: u64,
    location: Option<u32>,
}

impl AttribLocation {
    /// The identity of the program this location was resolved against.
    pub closed spec fn spec_program_uid(&self) -> u64 {
        self.program_uid
    }

    /// The raw slot, if the name resolved to one.
    pub closed spec fn spec_slot(&self) -> Option<u32> {
        self.location
    }

    /// The slot this location yields while the program with identity
    /// `program_uid` is asked about: its own slot for its own program,
    /// nothing for any other program, nothing when unresolved.
    pub open spec fn spec_resolved_for(&self, program_uid: u64) -> Option<u32> {
        if self.spec_program_uid() == program_uid {
            self.spec_slot()
        } else {
            None
        }
    }

    /// A location for a known slot of `program`.
    pub fn new(program: &ShaderProgram, location: u32) -> (attrib: AttribLocation)
        ensures
            attrib.spec_program_uid() == program.uid(),
            attrib.spec_slot() == Some(location),
    {
        AttribLocation { program_uid: program.uid(), location: Some(location) }
    }

    /// A location for a name the driver found no slot for in `program`.
    pub(crate) fn missing(program: &ShaderProgram) -> (attrib: AttribLocation)
        ensures
            attrib.spec_program_uid() == program.uid(),
            attrib.spec_slot() == None::<u32>,
    {
        AttribLocation { program_uid: program.uid(), location: None }
    }

    /// The slot, provided `program` is the program this location was
    /// resolved against and the name did resolve; `None` otherwise.
    pub fn try_inner_for(&self, program: &ShaderProgram) -> (slot: Option<u32>)
        ensures
            slot == self.spec_resolved_for(program.uid()),
    {
        if self.program_uid == program.uid() {
            self.location
        } else {
            None
        }
    }
}

/// Resolving an attribute location against one program and querying it
/// while a program with any other identity is asked about yields no slot:
/// neither the owner's slot value nor anything of the other program.
pub proof fn lemma_attrib_location_guard(location: AttribLocation, other_uid: u64)
    requires
        location.spec_program_uid() != other_uid,
    ensures
        location.spec_resolved_for(other_uid) is None,
{
}

} // verus!
