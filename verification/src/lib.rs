//! A verified core for managing GPU resources and their binding discipline.
//!
//! The library owns the decisions of a small rendering stack — which driver
//! calls to make, in which order, with which handles and byte offsets — and
//! proves the state-machine discipline those calls must follow: scoped
//! binding sessions that restore a clean slate, program-identity guards on
//! attribute locations, type-directed uniform dispatch that never touches the
//! driver through an invalid location, and the byte layout of interleaved
//! mesh buffers.
//!
//! The driver itself is an external collaborator. Every call the library
//! decides on is recorded as a [`command::GlCommand`] in a [`context::GL`]
//! context, and the driver's replies (allocation grants, compile results,
//! name lookups) enter as plain values. An unverified shell executes the
//! recorded calls against the real driver and feeds the replies back.

pub mod bind_scope;
pub mod camera;
pub mod command;
pub mod context;
pub mod geometry;
pub mod gl_error;
pub mod locations;
pub mod mesh;
pub mod object;
pub mod program;
pub mod shader_error;
pub mod shader_type;
pub mod shader_use_ctx;
pub mod uniform_value;
