//! Shader objects.

use crate::command::{submit, Command};
use crate::constants::{
    GL_COMPILE_STATUS, GL_FRAGMENT_SHADER, GL_INFO_LOG_LENGTH, GL_VERTEX_SHADER,
};
use crate::gl;
use crate::glesv2_raii::error::{
    diagnostic, diagnostic_text, lemma_source_too_long_not_empty, source_too_long, Error,
    ErrorView,
};
use vstd::prelude::*;
use vstd::string::StringExecFns;

verus! {

/// The stage that a shader is written for.
#[derive(Clone, Copy, Debug, PartialEq, Eq, Structural)]
pub enum ShaderKind {
    Vertex,
    Fragment,
}

impl ShaderKind {
    /// The API's enumerant for this stage.
    pub open spec fn spec_gl_enum(self) -> u32 {
        match self {
            ShaderKind::Vertex => GL_VERTEX_SHADER,
            ShaderKind::Fragment => GL_FRAGMENT_SHADER,
        }
    }

    /// The API's enumerant for this stage.
    pub fn gl_enum(&self) -> (value: u32)
        ensures
            value == self.spec_gl_enum(),
    {
        match *self {
            ShaderKind::Vertex => GL_VERTEX_SHADER,
            ShaderKind::Fragment => GL_FRAGMENT_SHADER,
        }
    }
}

/// A shader object that this value alone owns.
///
/// The handle is deleted when the value is dropped.
pub struct Shader {
    handle: u32,
}

impl Shader {
    /// The handle owned.
    pub closed spec fn id(&self) -> u32 {
        self.handle
    }

    /// The handle, for attaching the shader to a program.
    pub fn handle(&self) -> (handle: u32)
        ensures
            handle == self.id(),
    {
        self.handle
    }

    /// Reads the compiler's answer: a status other than zero says that the
    /// shader compiled; a status of zero fails with the compiler's log, or
    /// with a fixed text where the log is missing or empty.
    pub fn compile_verdict(status: i32, log: Option<String>) -> (result: Result<(), Error>)
        ensures
            match result {
                Ok(()) => status != 0,
                Err(e) => status == 0 && e@ == ErrorView::Compile(diagnostic(log)),
            },
    {
        if status != 0 {
            Ok(())
        } else {
            Err(Error::Compile(diagnostic_text(log)))
        }
    }

    /// Creates a shader of the given stage and compiles `source`.
    ///
    /// A source of more bytes than the API can be told the length of is not
    /// handed over: it fails as one that does not compile, with a fixed text,
    /// and no shader is created. Whether any other source compiles is for the
    /// graphics context to say. If it does not, the result is a
    /// [`Error::Compile`] whose text is not empty; the shader is dropped, which
    /// deletes its handle.
    pub fn from_source(kind: ShaderKind, source: &[u8]) -> (result: Result<Shader, Error>)
        ensures
            source@.len() > i32::MAX ==> (result matches Err(e) && e@ == ErrorView::Compile(
                source_too_long(),
            )),
            result matches Err(e) ==> e@ is Compile && e@->Compile_0.len() > 0,
    {
        proof {
            lemma_source_too_long_not_empty();
        }
        if source.len() > 0x7fff_ffff {
            return Err(
                Error::Compile(String::from_str("the source is too long to hand to the compiler")),
            );
        }
        let handle = gl::create_shader(kind.gl_enum());
        let shader = Shader { handle };
        gl::shader_source(handle, source);
        submit(&Command::CompileShader { shader: handle });
        let status = gl::get_shaderiv(handle, GL_COMPILE_STATUS);
        let log = if status == 0 {
            let length = gl::get_shaderiv(handle, GL_INFO_LOG_LENGTH);
            if length > 0 {
                gl::get_shader_info_log(handle, length)
            } else {
                None
            }
        } else {
            None
        };
        proof {
            crate::glesv2_raii::error::lemma_diagnostic_not_empty(log);
        }
        match Shader::compile_verdict(status, log) {
            Ok(()) => Ok(shader),
            Err(e) => Err(e),
        }
    }

    /// The command that dropping this value submits: it deletes the handle
    /// owned, and nothing else.
    pub fn deletion(&self) -> (command: Command)
        ensures
            command == (Command::DeleteShader { shader: self.id() }),
        opens_invariants none
        no_unwind
    {
        Command::DeleteShader { shader: self.handle }
    }
}

impl Drop for Shader {
    fn drop(&mut self)
        opens_invariants none
        no_unwind
    {
        submit(&self.deletion());
    }
}

} // verus!
