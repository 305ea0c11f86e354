//! Buffer objects.

use crate::command::{submit, Command};
use crate::constants::GL_ARRAY_BUFFER;
use crate::gl;
use vstd::prelude::*;

verus! {

/// A buffer object that this value alone owns.
///
/// The handle is deleted when the value is dropped.
pub struct Buffer {
    handle: u32,
}

impl Buffer {
    /// The handle owned.
    pub closed spec fn id(&self) -> u32 {
        self.handle
    }

    /// Creates a buffer object.
    pub fn new() -> (buffer: Buffer) {
        let handles = gl::gen_buffers(1);
        Buffer { handle: handles[0] }
    }

    /// The handle, for calls that bind it.
    pub fn handle(&self) -> (handle: u32)
        ensures
            handle == self.id(),
    {
        self.handle
    }

    /// The command that binds this buffer to `target`.
    pub fn bind_command(&self, target: u32) -> (command: Command)
        ensures
            command == (Command::BindBuffer { target, buffer: self.id() }),
    {
        Command::BindBuffer { target, buffer: self.handle }
    }

    /// Binds this buffer as the source of vertex attributes.
    pub fn bind(&self) {
        submit(&self.bind_command(GL_ARRAY_BUFFER));
    }

    /// Binds this buffer to `target` and replaces its contents with `data`.
    pub fn upload<T>(&self, target: u32, data: &[T], usage: u32) {
        submit(&self.bind_command(target));
        gl::buffer_data(target, data, usage);
    }

    /// The command that dropping this value submits: it deletes the handle
    /// owned, and nothing else.
    pub fn deletion(&self) -> (command: Command)
        ensures
            command == (Command::DeleteBuffer { buffer: self.id() }),
        opens_invariants none
        no_unwind
    {
        Command::DeleteBuffer { buffer: self.handle }
    }
}

impl Drop for Buffer {
    fn drop(&mut self)
        opens_invariants none
        no_unwind
    {
        submit(&self.deletion());
    }
}

} // verus!
