//! Shader stages and the error vocabulary of the library.

use vstd::prelude::*;

verus! {

/// The two programmable stages a program is linked from.
#[derive(Clone, Copy, PartialEq, Eq, Structural, Debug)]
pub enum ShaderStage {
    Vertex,
    Fragment,
}

/// Why a compile run failed.
///
/// `Stage` carries the backend's diagnostic log for the stage that failed
/// to compile; `Link` carries the log of a failed link; `AlreadyCompiled`
/// is returned when a compile run is begun on a program whose earlier run
/// already succeeded (compiling is a one-way ratchet).
pub enum CompileError {
    Stage(ShaderStage, String),
    Link(String),
    AlreadyCompiled,
}

/// Mathematical image of a [`CompileError`]: logs as character sequences.
pub enum CompileErrorView {
    Stage(ShaderStage, Seq<char>),
    Link(Seq<char>),
    AlreadyCompiled,
}

impl View for CompileError {
    type V = CompileErrorView;

    open spec fn view(&self) -> CompileErrorView {
        match self {
            CompileError::Stage(stage, log) => CompileErrorView::Stage(*stage, log@),
            CompileError::Link(log) => CompileErrorView::Link(log@),
            CompileError::AlreadyCompiled => CompileErrorView::AlreadyCompiled,
        }
    }
}

/// Why a program could not be built from file paths: one of the two
/// source files could not be read. Carries the offending path.
pub enum SourceError {
    SourceNotFound(String),
}

/// Mathematical image of a [`SourceError`].
pub enum SourceErrorView {
    SourceNotFound(Seq<char>),
}

impl View for SourceError {
    type V = SourceErrorView;

    open spec fn view(&self) -> SourceErrorView {
        match self {
            SourceError::SourceNotFound(path) => SourceErrorView::SourceNotFound(path@),
        }
    }
}

} // verus!
