//! State-changing calls to the graphics API as plain values.

use crate::gl;
use vstd::prelude::*;

verus! {

/// One state-changing call to the graphics API, with its arguments.
///
/// Floating-point arguments are held as the bit patterns of IEEE 754 single
/// precision numbers.
#[derive(Clone, Copy, Debug, PartialEq, Eq, Structural)]
pub enum Command {
    ActiveTexture { unit: u32 },
    AttachShader { program: u32, shader: u32 },
    BindBuffer { target: u32, buffer: u32 },
    BindFramebuffer { target: u32, framebuffer: u32 },
    BindRenderbuffer { target: u32, renderbuffer: u32 },
    BindTexture { target: u32, texture: u32 },
    Clear { mask: u32 },
    ClearColor { red: u32, green: u32, blue: u32, alpha: u32 },
    CompileShader { shader: u32 },
    DeleteBuffer { buffer: u32 },
    DeleteFramebuffer { framebuffer: u32 },
    DeleteProgram { program: u32 },
    DeleteRenderbuffer { renderbuffer: u32 },
    DeleteShader { shader: u32 },
    DeleteTexture { texture: u32 },
    DrawArrays { mode: u32, first: i32, count: i32 },
    EnableVertexAttribArray { index: u32 },
    FramebufferRenderbuffer { target: u32, attachment: u32, renderbuffer_target: u32, renderbuffer: u32 },
    FramebufferTexture2d { target: u32, attachment: u32, texture_target: u32, texture: u32, level: i32 },
    LinkProgram { program: u32 },
    RenderbufferStorage { target: u32, internal_format: u32, width: i32, height: i32 },
    TexParameteri { target: u32, name: u32, value: i32 },
    Uniform1i { location: i32, value: i32 },
    Uniform1f { location: i32, x: u32 },
    Uniform2f { location: i32, x: u32, y: u32 },
    Uniform3f { location: i32, x: u32, y: u32, z: u32 },
    Uniform4f { location: i32, x: u32, y: u32, z: u32, w: u32 },
    /// Sets a two-component float uniform to two integers converted to floats.
    Uniform2fFromInts { location: i32, first: i32, second: i32 },
    UseProgram { program: u32 },
    VertexAttribPointer { index: u32, size: i32, type_: u32, normalized: bool, stride: i32, offset: u32 },
    Viewport { left: i32, bottom: i32, width: i32, height: i32 },
}

/// Makes the call that `command` describes.
pub fn submit(command: &Command)
    opens_invariants none
    no_unwind
{
    match *command {
        Command::ActiveTexture { unit } => gl::active_texture(unit),
        Command::AttachShader { program, shader } => gl::attach_shader(program, shader),
        Command::BindBuffer { target, buffer } => gl::bind_buffer(target, buffer),
        Command::BindFramebuffer { target, framebuffer } => gl::bind_framebuffer(
            target,
            framebuffer,
        ),
        Command::BindRenderbuffer { target, renderbuffer } => gl::bind_renderbuffer(
            target,
            renderbuffer,
        ),
        Command::BindTexture { target, texture } => gl::bind_texture(target, texture),
        Command::Clear { mask } => gl::clear(mask),
        Command::ClearColor { red, green, blue, alpha } => gl::clear_color(
            red,
            green,
            blue,
            alpha,
        ),
        Command::CompileShader { shader } => gl::compile_shader(shader),
        Command::DeleteBuffer { buffer } => gl::delete_buffers(buffer),
        Command::DeleteFramebuffer { framebuffer } => gl::delete_framebuffers(framebuffer),
        Command::DeleteProgram { program } => gl::delete_program(program),
        Command::DeleteRenderbuffer { renderbuffer } => gl::delete_renderbuffers(renderbuffer),
        Command::DeleteShader { shader } => gl::delete_shader(shader),
        Command::DeleteTexture { texture } => gl::delete_textures(texture),
        Command::DrawArrays { mode, first, count } => gl::draw_arrays(mode, first, count),
        Command::EnableVertexAttribArray { index } => gl::enable_vertex_attrib_array(index),
        Command::FramebufferRenderbuffer {
            target,
            attachment,
            renderbuffer_target,
            renderbuffer,
        } => gl::framebuffer_renderbuffer(target, attachment, renderbuffer_target, renderbuffer),
        Command::FramebufferTexture2d {
            target,
            attachment,
            texture_target,
            texture,
            level,
        } => gl::framebuffer_texture_2d(target, attachment, texture_target, texture, level),
        Command::LinkProgram { program } => gl::link_program(program),
        Command::RenderbufferStorage {
            target,
            internal_format,
            width,
            height,
        } => gl::renderbuffer_storage(target, internal_format, width, height),
        Command::TexParameteri { target, name, value } => gl::tex_parameteri(target, name, value),
        Command::Uniform1i { location, value } => gl::uniform1i(location, value),
        Command::Uniform1f { location, x } => gl::uniform1f(location, x),
        Command::Uniform2f { location, x, y } => gl::uniform2f(location, x, y),
        Command::Uniform3f { location, x, y, z } => gl::uniform3f(location, x, y, z),
        Command::Uniform4f { location, x, y, z, w } => gl::uniform4f(location, x, y, z, w),
        Command::Uniform2fFromInts { location, first, second } => gl::uniform2f_from_ints(
            location,
            first,
            second,
        ),
        Command::UseProgram { program } => gl::use_program(program),
        Command::VertexAttribPointer {
            index,
            size,
            type_,
            normalized,
            stride,
            offset,
        } => gl::vertex_attrib_pointer_offset(index, size, type_, normalized, stride, offset),
        Command::Viewport { left, bottom, width, height } => gl::viewport(
            left,
            bottom,
            width,
            height,
        ),
    }
}

/// Makes the calls that `commands` describe, first to last.
pub fn run(commands: &Vec<Command>) {
    let mut i: usize = 0;
    while i < commands.len()
        invariant
            i <= commands.len(),
        decreases commands.len() - i,
    {
        submit(&commands[i]);
        i += 1;
    }
}

} // verus!
