//! The shader program: source text for the two stages, the program
//! handle the backend allocated for it, and the one-way `compiled`
//! ratchet.
//!
//! A program is built from in-memory source text (the handle comes
//! from the backend, through the host), compiled once through a
//! [`CompileSession`], and, once compiled, applied to a context and
//! written to through the uniform setters. Applying or setting before
//! a compile run has succeeded is a precondition violation, so the
//! verified library rules it out instead of guessing what the backend
//! would do.

use vstd::prelude::*;

use crate::compile::CompileAction;
use crate::compile::CompileActionView;
use crate::compile::CompilePhase;
use crate::compile::CompileSession;
use crate::compile::CompileSessionView;
use crate::context::apply_spec;
use crate::context::GraphicsContext;
use crate::shader::CompileError;
use crate::shader::CompileErrorView;
use crate::shader::ShaderStage;
use crate::shader::SourceError;
use crate::shader::SourceErrorView;
use crate::uniforms::uniform_write;
use crate::uniforms::UniformStore;

verus! {

/// A vertex stage and a fragment stage, owned as source text, with the
/// backend handle of the program they will be linked into.
pub struct ShaderProgram {
    vertex_shader_source: String,
    fragment_shader_source: String,
    id: u32,
    compiled: bool,
}

/// Mathematical image of a [`ShaderProgram`].
#[verifier::ext_equal]
pub struct ShaderProgramView {
    pub vertex_shader_source: Seq<char>,
    pub fragment_shader_source: Seq<char>,
    pub id: u32,
    pub compiled: bool,
}

impl View for ShaderProgram {
    type V = ShaderProgramView;

    closed spec fn view(&self) -> ShaderProgramView {
        ShaderProgramView {
            vertex_shader_source: self.vertex_shader_source@,
            fragment_shader_source: self.fragment_shader_source@,
            id: self.id,
            compiled: self.compiled,
        }
    }
}

impl ShaderProgram {
    /// Build a program from in-memory source text, taken verbatim.
    /// `id` is the handle the backend allocated for the program; the
    /// backend spells "no program" as `0`, so a real handle is never
    /// `0`. Nothing is compiled yet.
    pub fn from_source(
        vertex_shader_source: &str,
        fragment_shader_source: &str,
        id: u32,
    ) -> (program: Self)
        requires
            id != 0,
        ensures
            program@ == (ShaderProgramView {
                vertex_shader_source: vertex_shader_source@,
                fragment_shader_source: fragment_shader_source@,
                id,
                compiled: false,
            }),
    {
        ShaderProgram {
            vertex_shader_source: String::from_str(vertex_shader_source),
            fragment_shader_source: String::from_str(fragment_shader_source),
            id,
            compiled: false,
        }
    }

    /// The decision inside path-based construction, once the host has
    /// tried to read both files: fail with the path that could not be
    /// read — the vertex file is read first, so it is named first —
    /// or build the program from the two texts.
    pub fn from_loaded_sources(
        vertex_shader_source: Option<String>,
        fragment_shader_source: Option<String>,
        vertex_shader_path: &str,
        fragment_shader_path: &str,
        id: u32,
    ) -> (result: Result<Self, SourceError>)
        requires
            id != 0,
        ensures
            vertex_shader_source is None ==> (result matches Err(error) && error@
                == SourceErrorView::SourceNotFound(vertex_shader_path@)),
            vertex_shader_source is Some && fragment_shader_source is None ==> (result matches Err(
                error,
            ) && error@ == SourceErrorView::SourceNotFound(fragment_shader_path@)),
            vertex_shader_source is Some && fragment_shader_source is Some ==> (result
                matches Ok(program) && program@ == (ShaderProgramView {
                vertex_shader_source: vertex_shader_source->Some_0@,
                fragment_shader_source: fragment_shader_source->Some_0@,
                id,
                compiled: false,
            })),
    {
        match (vertex_shader_source, fragment_shader_source) {
            (None, _) => Err(
                SourceError::SourceNotFound(String::from_str(vertex_shader_path)),
            ),
            (Some(_), None) => Err(
                SourceError::SourceNotFound(String::from_str(fragment_shader_path)),
            ),
            (Some(vertex), Some(fragment)) => Ok(
                ShaderProgram {
                    vertex_shader_source: vertex,
                    fragment_shader_source: fragment,
                    id,
                    compiled: false,
                },
            ),
        }
    }

    /// The backend handle of this program.
    pub fn id(&self) -> (id: u32)
        ensures
            id == self@.id,
    {
        self.id
    }

    /// The vertex stage's source text.
    pub fn vertex_shader_source(&self) -> (source: &str)
        ensures
            source@ == self@.vertex_shader_source,
    {
        self.vertex_shader_source.as_str()
    }

    /// The fragment stage's source text.
    pub fn fragment_shader_source(&self) -> (source: &str)
        ensures
            source@ == self@.fragment_shader_source,
    {
        self.fragment_shader_source.as_str()
    }

    /// Has a compile run succeeded for this program?
    pub fn is_compiled(&self) -> (compiled: bool)
        ensures
            compiled == self@.compiled,
    {
        self.compiled
    }

    /// Open a compile run for this program. Compiling is single-shot:
    /// once a run has succeeded, a further run is refused with
    /// `AlreadyCompiled` instead of leaking fresh units onto the same
    /// handle. On success the host performs the returned request —
    /// compile the vertex stage — and drives the session with the
    /// backend's replies until it delivers a verdict.
    pub fn begin_compile(&self) -> (result: Result<
        (CompileSession, CompileAction),
        CompileError,
    >)
        ensures
            self@.compiled ==> (result matches Err(error) && error@
                == CompileErrorView::AlreadyCompiled),
            !self@.compiled ==> (result matches Ok(opened) && opened.0@ == (CompileSessionView {
                program_id: self@.id,
                fragment_source: self@.fragment_shader_source,
                phase: CompilePhase::VertexPending,
            }) && opened.1@ == CompileActionView::CompileStage(
                ShaderStage::Vertex,
                self@.vertex_shader_source,
            )),
    {
        if self.compiled {
            Err(CompileError::AlreadyCompiled)
        } else {
            let session = CompileSession::open(self.id, self.fragment_shader_source.clone());
            let action = CompileAction::CompileStage(
                ShaderStage::Vertex,
                self.vertex_shader_source.clone(),
            );
            Ok((session, action))
        }
    }

    /// Record that this program's run linked: the one-way ratchet to
    /// `compiled`. Only a session opened for this very program, and
    /// only one that ended `Succeeded`, is accepted.
    pub fn finish_compile(&mut self, session: &CompileSession)
        requires
            session@.program_id == old(self)@.id,
            session@.phase is Succeeded,
        ensures
            final(self)@ == (ShaderProgramView { compiled: true, ..old(self)@ }),
    {
        self.compiled = true;
    }

    /// Make this program the context's current one, superseding
    /// whatever was bound: the next draw call on the context uses it.
    /// Only a compiled program may be applied.
    pub fn apply(&self, context: &mut GraphicsContext)
        requires
            self@.compiled,
        ensures
            final(context)@ == apply_spec(old(context)@, self@.id),
    {
        context.bind_program(self.id);
    }

    /// Write an integer uniform of this program. `location` is the
    /// backend's answer for the uniform's name; a name absent from the
    /// program yields the not-found location, and the write then
    /// changes nothing — by design, no error is raised. Only a
    /// compiled program has uniforms to write.
    pub fn set_int(&self, uniforms: &mut UniformStore, location: i32, value: i32)
        requires
            self@.compiled,
        ensures
            final(uniforms)@ == uniform_write(old(uniforms)@, location, value),
    {
        uniforms.set(location, value);
    }

    /// Write a boolean uniform of this program, stored backend-side as
    /// the integer `1` or `0`. The not-found location is a silent
    /// no-op, as for [`Self::set_int`].
    pub fn set_bool(&self, uniforms: &mut UniformStore, location: i32, value: bool)
        requires
            self@.compiled,
        ensures
            final(uniforms)@ == uniform_write(
                old(uniforms)@,
                location,
                if value {
                    1
                } else {
                    0
                },
            ),
    {
        uniforms.set(location, if value { 1 } else { 0 });
    }
}

/// The pipeline end to end, at the model level: when a program's
/// compile run is answered with two compiled stages and a successful
/// link, the run ends `Succeeded`; and applying that program then
/// makes its handle the context's current program, whatever was bound
/// before.
pub proof fn lemma_compiled_program_becomes_current(
    s: CompileSessionView,
    vertex_unit: u32,
    fragment_unit: u32,
    current: u32,
)
    requires
        s.phase is VertexPending,
    ensures
        ({
            let events = seq![
                crate::compile::CompileEventView::StageOk(vertex_unit),
                crate::compile::CompileEventView::StageOk(fragment_unit),
                crate::compile::CompileEventView::LinkOk,
            ];
            &&& crate::compile::run_spec(s, events).session.phase is Succeeded
            &&& apply_spec(current, s.program_id) == s.program_id
        }),
{
    crate::compile::lemma_success_run(s, vertex_unit, fragment_unit);
}

} // verus!
