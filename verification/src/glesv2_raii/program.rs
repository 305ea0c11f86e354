//! Program objects.

use crate::command::{run, submit, Command};
use crate::constants::{GL_INFO_LOG_LENGTH, GL_LINK_STATUS};
use crate::gl;
use crate::glesv2_raii::error::{diagnostic, diagnostic_text, source_too_long, Error, ErrorView};
use crate::glesv2_raii::shader::{Shader, ShaderKind};
use crate::text::{c_string, has_nul, no_nul};
use vstd::prelude::*;
use vstd::string::StringSliceAdditionalSpecFns;

verus! {

/// The commands that attach `shaders` to `program`, in order, and link it.
pub open spec fn link_plan(program: u32, shaders: Seq<u32>) -> Seq<Command> {
    Seq::new(shaders.len(), |i: int| Command::AttachShader { program, shader: shaders[i] }).push(
        Command::LinkProgram { program },
    )
}

/// What a location that the API returned means: a negative one says that the
/// program has no such active name.
pub open spec fn found_location(raw: i32) -> Option<i32> {
    if raw >= 0 {
        Some(raw)
    } else {
        None
    }
}

/// A linked program object that this value alone owns.
///
/// The handle is deleted when the value is dropped. The shaders that it was
/// linked from are not kept.
pub struct Program {
    handle: u32,
}

impl Program {
    /// The handle owned.
    pub closed spec fn id(&self) -> u32 {
        self.handle
    }

    /// The handle, for calls that use the program.
    pub fn handle(&self) -> (handle: u32)
        ensures
            handle == self.id(),
    {
        self.handle
    }

    /// The commands that attach `shaders` to `program`, in order, and link it.
    pub fn link_commands(program: u32, shaders: &[u32]) -> (commands: Vec<Command>)
        ensures
            commands@ == link_plan(program, shaders@),
    {
        let mut commands: Vec<Command> = Vec::new();
        let mut i: usize = 0;
        while i < shaders.len()
            invariant
                i <= shaders.len(),
                commands@ == Seq::new(
                    i as nat,
                    |k: int| Command::AttachShader { program, shader: shaders@[k] },
                ),
            decreases shaders.len() - i,
        {
            commands.push(Command::AttachShader { program, shader: shaders[i] });
            i += 1;
            assert(commands@ =~= Seq::new(
                i as nat,
                |k: int| Command::AttachShader { program, shader: shaders@[k] },
            ));
        }
        commands.push(Command::LinkProgram { program });
        commands
    }

    /// Reads the linker's answer: a status other than zero says that the
    /// program linked; a status of zero fails with the linker's log, or with a
    /// fixed text where the log is missing or empty.
    pub fn link_verdict(status: i32, log: Option<String>) -> (result: Result<(), Error>)
        ensures
            match result {
                Ok(()) => status != 0,
                Err(e) => status == 0 && e@ == ErrorView::Link(diagnostic(log)),
            },
    {
        if status != 0 {
            Ok(())
        } else {
            Err(Error::Link(diagnostic_text(log)))
        }
    }

    /// Creates a program and links the compiled shaders named by `shaders`.
    ///
    /// Whether they link is for the graphics context to say. If they do not,
    /// the result is a [`Error::Link`] whose text is not empty; the program is
    /// dropped, which deletes its handle.
    pub fn from_shaders(shaders: &[u32]) -> (result: Result<Program, Error>)
        ensures
            result matches Err(e) ==> e@ is Link && e@->Link_0.len() > 0,
    {
        let handle = gl::create_program();
        let program = Program { handle };
        run(&Program::link_commands(handle, shaders));
        let status = gl::get_programiv(handle, GL_LINK_STATUS);
        let log = if status == 0 {
            let length = gl::get_programiv(handle, GL_INFO_LOG_LENGTH);
            if length > 0 {
                gl::get_program_info_log(handle, length)
            } else {
                None
            }
        } else {
            None
        };
        proof {
            crate::glesv2_raii::error::lemma_diagnostic_not_empty(log);
        }
        match Program::link_verdict(status, log) {
            Ok(()) => Ok(program),
            Err(e) => Err(e),
        }
    }

    /// Compiles a vertex and a fragment shader and links them.
    ///
    /// The first failure is returned: of the vertex shader, of the fragment
    /// shader, then of the linker; a vertex shader too long to hand over
    /// fails before anything is created. The two shaders are dropped before
    /// this returns, whatever the outcome.
    pub fn from_sources(vertex: &[u8], fragment: &[u8]) -> (result: Result<Program, Error>)
        ensures
            vertex@.len() > i32::MAX ==> (result matches Err(e) && e@ == ErrorView::Compile(
                source_too_long(),
            )),
            result matches Err(e) ==> (e@ is Compile && e@->Compile_0.len() > 0) || (e@ is Link
                && e@->Link_0.len() > 0),
    {
        let vertex_shader = match Shader::from_source(ShaderKind::Vertex, vertex) {
            Ok(shader) => shader,
            Err(e) => {
                return Err(e);
            },
        };
        let fragment_shader = match Shader::from_source(ShaderKind::Fragment, fragment) {
            Ok(shader) => shader,
            Err(e) => {
                return Err(e);
            },
        };
        let mut handles: Vec<u32> = Vec::new();
        handles.push(vertex_shader.handle());
        handles.push(fragment_shader.handle());
        Program::from_shaders(handles.as_slice())
    }

    /// Reads a location that the API returned.
    pub fn location(raw: i32) -> (location: Option<i32>)
        ensures
            location == found_location(raw),
    {
        if raw >= 0 {
            Some(raw)
        } else {
            None
        }
    }

    /// The location of the active attribute `name`, if the program has one.
    ///
    /// A name that holds a zero byte is not looked up: no attribute has it.
    pub fn attrib_location(&self, name: &str) -> (location: Option<i32>)
        ensures
            !no_nul(name.spec_bytes()) ==> location is None,
            location matches Some(index) ==> index >= 0,
    {
        if has_nul(name) {
            None
        } else {
            Program::location(gl::get_attrib_location(self.handle, name))
        }
    }

    /// The location of the active uniform `name`, if the program has one.
    ///
    /// A name that holds a zero byte is not looked up: no uniform has it.
    pub fn uniform_location(&self, name: &str) -> (location: Option<i32>)
        ensures
            !no_nul(name.spec_bytes()) ==> location is None,
            location matches Some(index) ==> index >= 0,
    {
        if has_nul(name) {
            None
        } else {
            let bytes = c_string(name);
            Program::location(gl::get_uniform_location(self.handle, &bytes))
        }
    }

    /// The command that dropping this value submits: it deletes the handle
    /// owned, and nothing else.
    pub fn deletion(&self) -> (command: Command)
        ensures
            command == (Command::DeleteProgram { program: self.id() }),
        opens_invariants none
        no_unwind
    {
        Command::DeleteProgram { program: self.handle }
    }
}

impl Drop for Program {
    fn drop(&mut self)
        opens_invariants none
        no_unwind
    {
        submit(&self.deletion());
    }
}

} // verus!
