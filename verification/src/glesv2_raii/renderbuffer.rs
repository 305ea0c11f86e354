//! Renderbuffer objects.

use crate::command::{run, submit, Command};
use crate::constants::GL_RENDERBUFFER;
use crate::gl;
use vstd::prelude::*;

verus! {

/// A renderbuffer object that this value alone owns.
///
/// The handle is deleted when the value is dropped.
pub struct Renderbuffer {
    handle: u32,
}

impl Renderbuffer {
    /// The handle owned.
    pub closed spec fn id(&self) -> u32 {
        self.handle
    }

    /// Creates a renderbuffer object.
    pub fn new() -> (renderbuffer: Renderbuffer) {
        let handles = gl::gen_renderbuffers(1);
        Renderbuffer { handle: handles[0] }
    }

    /// The handle, for calls that bind or attach the renderbuffer.
    pub fn handle(&self) -> (handle: u32)
        ensures
            handle == self.id(),
    {
        self.handle
    }

    /// The commands that bind this renderbuffer and allocate its storage.
    pub fn storage_commands(&self, internal_format: u32, width: i32, height: i32) -> (commands:
        Vec<Command>)
        ensures
            commands@ == seq![
                Command::BindRenderbuffer { target: GL_RENDERBUFFER, renderbuffer: self.id() },
                Command::RenderbufferStorage {
                    target: GL_RENDERBUFFER,
                    internal_format,
                    width,
                    height,
                },
            ],
    {
        let mut commands: Vec<Command> = Vec::new();
        commands.push(
            Command::BindRenderbuffer { target: GL_RENDERBUFFER, renderbuffer: self.handle },
        );
        commands.push(
            Command::RenderbufferStorage { target: GL_RENDERBUFFER, internal_format, width, height },
        );
        assert(commands@ =~= seq![
            Command::BindRenderbuffer { target: GL_RENDERBUFFER, renderbuffer: self.id() },
            Command::RenderbufferStorage { target: GL_RENDERBUFFER, internal_format, width, height },
        ]);
        commands
    }

    /// Binds this renderbuffer and allocates its storage.
    pub fn storage(&self, internal_format: u32, width: i32, height: i32) {
        run(&self.storage_commands(internal_format, width, height));
    }

    /// The command that dropping this value submits: it deletes the handle
    /// owned, and nothing else.
    pub fn deletion(&self) -> (command: Command)
        ensures
            command == (Command::DeleteRenderbuffer { renderbuffer: self.id() }),
        opens_invariants none
        no_unwind
    {
        Command::DeleteRenderbuffer { renderbuffer: self.handle }
    }
}

impl Drop for Renderbuffer {
    fn drop(&mut self)
        opens_invariants none
        no_unwind
    {
        submit(&self.deletion());
    }
}

} // verus!
