//! A verified core for an OpenGL-style shader-program lifecycle.
//!
//! A [`shader_program::ShaderProgram`] owns the source text of a vertex
//! stage and a fragment stage. Compiling and linking are performed by a
//! graphics backend that this library never calls directly: the library
//! decides, step by step, which request to hand to the backend next
//! ([`compile::CompileAction`]), and classifies each backend reply
//! ([`compile::CompileEvent`]) until the program is linked or a
//! [`shader::CompileError`] is produced. An unverified host performs the
//! actual backend calls and feeds the replies back in.
//!
//! Backend state that the contracts speak about is modelled explicitly:
//! the context's current-program slot ([`context::GraphicsContext`]) and a
//! program's uniform bank ([`uniforms::UniformStore`]).

pub mod compile;
pub mod context;
pub mod shader;
pub mod shader_program;
pub mod uniforms;
