//! The failures a shader-program build can report.
//!
//! Allocation, compile and link failures are fatal to the enclosing build
//! and always propagated; the compile and link variants carry the driver's
//! diagnostic text so the caller can see what the driver's compiler said.

use vstd::prelude::*;
use vstd::string::StringExecFns;

use crate::shader_type::ShaderType;

verus! {

/// Why a shader-program build failed.
#[derive(Debug, Clone)]
pub enum ShaderError {
    /// The driver denied the stage-object allocation for this stage kind.
    ShaderCreateError(ShaderType),
    /// A stage failed to compile: the driver's diagnostic log, and which
    /// stage kind failed.
    CompileError(String, ShaderType),
    /// The driver denied the program-object allocation.
    ProgramCreateError,
    /// The program failed to link: the driver's diagnostic log.
    LinkError(String),
}

/// The mathematical image of a [`ShaderError`]: log texts become character
/// sequences.
#[verifier::ext_equal]
pub ghost enum ShaderErrorView {
    ShaderCreateError(ShaderType),
    CompileError(Seq<char>, ShaderType),
    ProgramCreateError,
    LinkError(Seq<char>),
}

impl View for ShaderError {
    type V = ShaderErrorView;

    open spec fn view(&self) -> ShaderErrorView {
        match self {
            ShaderError::ShaderCreateError(kind) => ShaderErrorView::ShaderCreateError(*kind),
            ShaderError::CompileError(log, kind) => ShaderErrorView::CompileError(log@, *kind),
            ShaderError::ProgramCreateError => ShaderErrorView::ProgramCreateError,
            ShaderError::LinkError(log) => ShaderErrorView::LinkError(log@),
        }
    }
}

/// The text a diagnostic stands for when the driver returned no log.
pub open spec fn spec_log_text(log: Option<Seq<char>>) -> Seq<char> {
    match log {
        Some(text) => text,
        None => "Unknown error"@,
    }
}

/// The driver's diagnostic log, or the fallback text when it returned none.
pub fn log_text(log: &Option<String>) -> (text: String)
    ensures
        text@ == spec_log_text(
            match log {
                Some(t) => Some(t@),
                None => None,
            },
        ),
{
    match log {
        Some(text) => text.clone(),
        None => String::from_str("Unknown error"),
    }
}

/// A short lower-case name for a stage kind, as used in diagnostics.
pub fn simple_shader_type_name(t: &ShaderType) -> (name: String)
    ensures
        t is Vertex ==> name@ == "vertex"@,
        t is Fragment ==> name@ == "fragment"@,
{
    match *t {
        ShaderType::Vertex => String::from_str("vertex"),
        ShaderType::Fragment => String::from_str("fragment"),
    }
}

} // verus!
