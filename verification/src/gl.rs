//! The calls into the `opengles` binding.
//!
//! Each function here hands its arguments to one function of
//! `opengles::glesv2`. Their bodies are not verified. What the graphics API
//! answers depends on the context that is current on the calling thread, so
//! almost nothing is claimed of any result: the rest of the library is verified
//! for every answer.

use opengles::glesv2;
use vstd::prelude::*;
use vstd::string::StringSliceAdditionalSpecFns;
use crate::glesv2_raii::texture::{is_core_pixel_type, staging_len};
use crate::text::no_nul;

verus! {

/// Calls `glesv2::active_texture` with the arguments as given. Nothing is claimed of
/// its effect; the binding hands the values to the C entry point, so the call
/// returns without unwinding.
#[verifier::external_body]
pub(crate) fn active_texture(texture: u32)
    opens_invariants none
    no_unwind
{
    glesv2::active_texture(texture);
}

/// Calls `glesv2::attach_shader` with the arguments as given. Nothing is claimed of
/// its effect; the binding hands the values to the C entry point, so the call
/// returns without unwinding.
#[verifier::external_body]
pub(crate) fn attach_shader(program: u32, shader: u32)
    opens_invariants none
    no_unwind
{
    glesv2::attach_shader(program, shader);
}

/// Calls `glesv2::bind_buffer` with the arguments as given. Nothing is claimed of
/// its effect; the binding hands the values to the C entry point, so the call
/// returns without unwinding.
#[verifier::external_body]
pub(crate) fn bind_buffer(target: u32, buffer: u32)
    opens_invariants none
    no_unwind
{
    glesv2::bind_buffer(target, buffer);
}

/// Calls `glesv2::bind_framebuffer` with the arguments as given. Nothing is claimed of
/// its effect; the binding hands the values to the C entry point, so the call
/// returns without unwinding.
#[verifier::external_body]
pub(crate) fn bind_framebuffer(target: u32, framebuffer: u32)
    opens_invariants none
    no_unwind
{
    glesv2::bind_framebuffer(target, framebuffer);
}

/// Calls `glesv2::bind_renderbuffer` with the arguments as given. Nothing is claimed of
/// its effect; the binding hands the values to the C entry point, so the call
/// returns without unwinding.
#[verifier::external_body]
pub(crate) fn bind_renderbuffer(target: u32, renderbuffer: u32)
    opens_invariants none
    no_unwind
{
    glesv2::bind_renderbuffer(target, renderbuffer);
}

/// Calls `glesv2::bind_texture` with the arguments as given. Nothing is claimed of
/// its effect; the binding hands the values to the C entry point, so the call
/// returns without unwinding.
#[verifier::external_body]
pub(crate) fn bind_texture(target: u32, texture: u32)
    opens_invariants none
    no_unwind
{
    glesv2::bind_texture(target, texture);
}

/// Calls `glesv2::clear` with the arguments as given. Nothing is claimed of
/// its effect; the binding hands the values to the C entry point, so the call
/// returns without unwinding.
#[verifier::external_body]
pub(crate) fn clear(mask: u32)
    opens_invariants none
    no_unwind
{
    glesv2::clear(mask);
}

/// Calls `glesv2::compile_shader` with the arguments as given. Nothing is claimed of
/// its effect; the binding hands the values to the C entry point, so the call
/// returns without unwinding.
#[verifier::external_body]
pub(crate) fn compile_shader(shader: u32)
    opens_invariants none
    no_unwind
{
    glesv2::compile_shader(shader);
}

/// Calls `glesv2::delete_program` with the arguments as given. Nothing is claimed of
/// its effect; the binding hands the values to the C entry point, so the call
/// returns without unwinding.
#[verifier::external_body]
pub(crate) fn delete_program(program: u32)
    opens_invariants none
    no_unwind
{
    glesv2::delete_program(program);
}

/// Calls `glesv2::delete_shader` with the arguments as given. Nothing is claimed of
/// its effect; the binding hands the values to the C entry point, so the call
/// returns without unwinding.
#[verifier::external_body]
pub(crate) fn delete_shader(shader: u32)
    opens_invariants none
    no_unwind
{
    glesv2::delete_shader(shader);
}

/// Calls `glesv2::draw_arrays` with the arguments as given. Nothing is claimed of
/// its effect; the binding hands the values to the C entry point, so the call
/// returns without unwinding.
#[verifier::external_body]
pub(crate) fn draw_arrays(mode: u32, first: i32, count: i32)
    opens_invariants none
    no_unwind
{
    glesv2::draw_arrays(mode, first, count);
}

/// Calls `glesv2::enable_vertex_attrib_array` with the arguments as given. Nothing is claimed of
/// its effect; the binding hands the values to the C entry point, so the call
/// returns without unwinding.
#[verifier::external_body]
pub(crate) fn enable_vertex_attrib_array(index: u32)
    opens_invariants none
    no_unwind
{
    glesv2::enable_vertex_attrib_array(index);
}

/// Calls `glesv2::framebuffer_renderbuffer` with the arguments as given. Nothing is claimed of
/// its effect; the binding hands the values to the C entry point, so the call
/// returns without unwinding.
#[verifier::external_body]
pub(crate) fn framebuffer_renderbuffer(target: u32, attachment: u32, renderbuffer_target: u32, renderbuffer: u32)
    opens_invariants none
    no_unwind
{
    glesv2::framebuffer_renderbuffer(target, attachment, renderbuffer_target, renderbuffer);
}

/// Calls `glesv2::framebuffer_texture_2d` with the arguments as given. Nothing is claimed of
/// its effect; the binding hands the values to the C entry point, so the call
/// returns without unwinding.
#[verifier::external_body]
pub(crate) fn framebuffer_texture_2d(target: u32, attachment: u32, texture_target: u32, texture: u32, level: i32)
    opens_invariants none
    no_unwind
{
    glesv2::framebuffer_texture_2d(target, attachment, texture_target, texture, level);
}

/// Calls `glesv2::link_program` with the arguments as given. Nothing is claimed of
/// its effect; the binding hands the values to the C entry point, so the call
/// returns without unwinding.
#[verifier::external_body]
pub(crate) fn link_program(program: u32)
    opens_invariants none
    no_unwind
{
    glesv2::link_program(program);
}

/// Calls `glesv2::renderbuffer_storage` with the arguments as given. Nothing is claimed of
/// its effect; the binding hands the values to the C entry point, so the call
/// returns without unwinding.
#[verifier::external_body]
pub(crate) fn renderbuffer_storage(target: u32, internal_format: u32, width: i32, height: i32)
    opens_invariants none
    no_unwind
{
    glesv2::renderbuffer_storage(target, internal_format, width, height);
}

/// Calls `glesv2::tex_parameteri` with the arguments as given. Nothing is claimed of
/// its effect; the binding hands the values to the C entry point, so the call
/// returns without unwinding.
#[verifier::external_body]
pub(crate) fn tex_parameteri(target: u32, name: u32, value: i32)
    opens_invariants none
    no_unwind
{
    glesv2::tex_parameteri(target, name, value);
}

/// Calls `glesv2::uniform1i` with the arguments as given. Nothing is claimed of
/// its effect; the binding hands the values to the C entry point, so the call
/// returns without unwinding.
#[verifier::external_body]
pub(crate) fn uniform1i(location: i32, value: i32)
    opens_invariants none
    no_unwind
{
    glesv2::uniform1i(location, value);
}

/// Calls `glesv2::use_program` with the arguments as given. Nothing is claimed of
/// its effect; the binding hands the values to the C entry point, so the call
/// returns without unwinding.
#[verifier::external_body]
pub(crate) fn use_program(program: u32)
    opens_invariants none
    no_unwind
{
    glesv2::use_program(program);
}

/// Calls `glesv2::vertex_attrib_pointer_offset` with the arguments as given. Nothing is claimed of
/// its effect; the binding hands the values to the C entry point, so the call
/// returns without unwinding.
#[verifier::external_body]
pub(crate) fn vertex_attrib_pointer_offset(index: u32, size: i32, type_: u32, normalized: bool, stride: i32, offset: u32)
    opens_invariants none
    no_unwind
{
    glesv2::vertex_attrib_pointer_offset(index, size, type_, normalized, stride, offset);
}

/// Calls `glesv2::viewport` with the arguments as given. Nothing is claimed of
/// its effect; the binding hands the values to the C entry point, so the call
/// returns without unwinding.
#[verifier::external_body]
pub(crate) fn viewport(left: i32, bottom: i32, width: i32, height: i32)
    opens_invariants none
    no_unwind
{
    glesv2::viewport(left, bottom, width, height);
}

/// Calls `glesv2::clear_color`; each argument is the bit pattern of the float
/// that is passed. Nothing is claimed of its effect.
#[verifier::external_body]
pub(crate) fn clear_color(red: u32, green: u32, blue: u32, alpha: u32)
    opens_invariants none
    no_unwind
{
    glesv2::clear_color(
        glesv2::GLfloat::from_bits(red),
        glesv2::GLfloat::from_bits(green),
        glesv2::GLfloat::from_bits(blue),
        glesv2::GLfloat::from_bits(alpha),
    );
}

/// Calls `glesv2::uniform1f` with the float whose bit pattern is `x`.
#[verifier::external_body]
pub(crate) fn uniform1f(location: i32, x: u32)
    opens_invariants none
    no_unwind
{
    glesv2::uniform1f(location, glesv2::GLfloat::from_bits(x));
}

/// Calls `glesv2::uniform2f` with the floats whose bit patterns are given.
#[verifier::external_body]
pub(crate) fn uniform2f(location: i32, x: u32, y: u32)
    opens_invariants none
    no_unwind
{
    glesv2::uniform2f(location, glesv2::GLfloat::from_bits(x), glesv2::GLfloat::from_bits(y));
}

/// Calls `glesv2::uniform3f` with the floats whose bit patterns are given.
#[verifier::external_body]
pub(crate) fn uniform3f(location: i32, x: u32, y: u32, z: u32)
    opens_invariants none
    no_unwind
{
    glesv2::uniform3f(
        location,
        glesv2::GLfloat::from_bits(x),
        glesv2::GLfloat::from_bits(y),
        glesv2::GLfloat::from_bits(z),
    );
}

/// Calls `glesv2::uniform4f` with the floats whose bit patterns are given.
#[verifier::external_body]
pub(crate) fn uniform4f(location: i32, x: u32, y: u32, z: u32, w: u32)
    opens_invariants none
    no_unwind
{
    glesv2::uniform4f(
        location,
        glesv2::GLfloat::from_bits(x),
        glesv2::GLfloat::from_bits(y),
        glesv2::GLfloat::from_bits(z),
        glesv2::GLfloat::from_bits(w),
    );
}

/// Calls `glesv2::uniform2f` with the two integers converted to floats.
#[verifier::external_body]
pub(crate) fn uniform2f_from_ints(location: i32, first: i32, second: i32)
    opens_invariants none
    no_unwind
{
    glesv2::uniform2f(location, first as glesv2::GLfloat, second as glesv2::GLfloat);
}

/// Calls `glesv2::delete_buffers` on the one handle given.
#[verifier::external_body]
pub(crate) fn delete_buffers(buffer: u32)
    opens_invariants none
    no_unwind
{
    glesv2::delete_buffers(&[buffer]);
}

/// Calls `glesv2::delete_framebuffers` on the one handle given.
#[verifier::external_body]
pub(crate) fn delete_framebuffers(framebuffer: u32)
    opens_invariants none
    no_unwind
{
    glesv2::delete_framebuffers(&[framebuffer]);
}

/// Calls `glesv2::delete_renderbuffers` on the one handle given.
#[verifier::external_body]
pub(crate) fn delete_renderbuffers(renderbuffer: u32)
    opens_invariants none
    no_unwind
{
    glesv2::delete_renderbuffers(&[renderbuffer]);
}

/// Calls `glesv2::delete_textures` on the one handle given.
#[verifier::external_body]
pub(crate) fn delete_textures(texture: u32)
    opens_invariants none
    no_unwind
{
    glesv2::delete_textures(&[texture]);
}

/// Calls `glesv2::gen_buffers`, which allocates room for `count` handles and
/// returns a vector of that length. A negative count would make the
/// allocation fail, so it is left out.
#[verifier::external_body]
pub(crate) fn gen_buffers(count: i32) -> (handles: Vec<u32>)
    requires
        count >= 0,
    ensures
        handles@.len() == count,
{
    glesv2::gen_buffers(count)
}

/// Calls `glesv2::gen_framebuffers`; as for `gen_buffers`, the vector returned
/// has `count` entries.
#[verifier::external_body]
pub(crate) fn gen_framebuffers(count: i32) -> (handles: Vec<u32>)
    requires
        count >= 0,
    ensures
        handles@.len() == count,
{
    glesv2::gen_framebuffers(count)
}

/// Calls `glesv2::gen_renderbuffers`; as for `gen_buffers`, the vector
/// returned has `count` entries.
#[verifier::external_body]
pub(crate) fn gen_renderbuffers(count: i32) -> (handles: Vec<u32>)
    requires
        count >= 0,
    ensures
        handles@.len() == count,
{
    glesv2::gen_renderbuffers(count)
}

/// Calls `glesv2::gen_textures`; as for `gen_buffers`, the vector returned has
/// `count` entries.
#[verifier::external_body]
pub(crate) fn gen_textures(count: i32) -> (handles: Vec<u32>)
    requires
        count >= 0,
    ensures
        handles@.len() == count,
{
    glesv2::gen_textures(count)
}

/// Calls `glesv2::create_shader`. Nothing is claimed of the handle returned.
#[verifier::external_body]
pub(crate) fn create_shader(type_: u32) -> (shader: u32) {
    glesv2::create_shader(type_)
}

/// Calls `glesv2::create_program`. Nothing is claimed of the handle returned.
#[verifier::external_body]
pub(crate) fn create_program() -> (program: u32) {
    glesv2::create_program()
}

/// Calls `glesv2::shader_source` with the source text as one string of bytes.
/// The binding hands the slice's length on as a C `int`; a length that does
/// not fit would come out negative, which the API takes to mean that the text
/// ends at a zero byte, so such a slice is left out.
#[verifier::external_body]
pub(crate) fn shader_source(shader: u32, source: &[u8])
    requires
        source@.len() <= i32::MAX,
{
    glesv2::shader_source(shader, source);
}

/// Calls `glesv2::get_shaderiv`. Nothing is claimed of the value returned.
#[verifier::external_body]
pub(crate) fn get_shaderiv(shader: u32, name: u32) -> (value: i32) {
    glesv2::get_shaderiv(shader, name)
}

/// Calls `glesv2::get_shader_info_log`, which allocates `max_length` bytes for
/// the log; a negative length would make the allocation fail, so it is left
/// out. Nothing is claimed of the log returned.
#[verifier::external_body]
pub(crate) fn get_shader_info_log(shader: u32, max_length: i32) -> (log: Option<String>)
    requires
        max_length >= 0,
{
    glesv2::get_shader_info_log(shader, max_length)
}

/// Calls `glesv2::get_programiv`. Nothing is claimed of the value returned.
#[verifier::external_body]
pub(crate) fn get_programiv(program: u32, name: u32) -> (value: i32) {
    glesv2::get_programiv(program, name)
}

/// Calls `glesv2::get_program_info_log`, which allocates `max_length` bytes
/// for the log; a negative length would make the allocation fail, so it is
/// left out. Nothing is claimed of the log returned.
#[verifier::external_body]
pub(crate) fn get_program_info_log(program: u32, max_length: i32) -> (log: Option<String>)
    requires
        max_length >= 0,
{
    glesv2::get_program_info_log(program, max_length)
}

/// Calls `glesv2::get_attrib_location`, which turns the name into a C string
/// and fails on a name that holds a zero byte; such names are left out.
/// Nothing is claimed of the location returned.
#[verifier::external_body]
pub(crate) fn get_attrib_location(program: u32, name: &str) -> (location: i32)
    requires
        no_nul(name.spec_bytes()),
{
    glesv2::get_attrib_location(program, name)
}

/// Calls `glesv2::get_uniform_location`, which takes a reference to the first
/// character of a C string and reads on until a zero byte. The bytes given
/// must therefore end in zero. Nothing is claimed of the location returned.
#[verifier::external_body]
pub(crate) fn get_uniform_location(program: u32, name: &Vec<u8>) -> (location: i32)
    requires
        name@.len() > 0,
        name@[name@.len() - 1] == 0,
{
    let chars: Vec<glesv2::GLchar> = name.iter().map(|b| *b as glesv2::GLchar).collect();
    glesv2::get_uniform_location(program, &chars[0])
}

/// Calls `glesv2::check_framebuffer_status`. Nothing is claimed of the status
/// returned.
#[verifier::external_body]
pub(crate) fn check_framebuffer_status(target: u32) -> (status: u32) {
    glesv2::check_framebuffer_status(target)
}

/// Calls `glesv2::get_error`. Nothing is claimed of the code returned.
#[verifier::external_body]
pub(crate) fn get_error() -> (code: u32) {
    glesv2::get_error()
}

/// Calls `glesv2::buffer_data`, which copies the slice into the buffer bound
/// to `target`. Nothing is claimed of its effect.
#[verifier::external_body]
pub(crate) fn buffer_data<T>(target: u32, data: &[T], usage: u32) {
    glesv2::buffer_data(target, data, usage);
}

/// Calls `glesv2::tex_image_2d`, which passes the address of `data` on; the
/// API reads from it as many bytes as the image takes. The slice must hold
/// that many for every unpack alignment of OpenGL ES 2.0, which `staging_len`
/// bounds for the pixel types of the core API.
#[verifier::external_body]
pub(crate) fn tex_image_2d(
    target: u32,
    level: i32,
    internal_format: i32,
    width: i32,
    height: i32,
    border: i32,
    format: u32,
    type_: u32,
    data: &[u8],
)
    requires
        is_core_pixel_type(type_),
        data@.len() >= staging_len(width as int, height as int),
{
    glesv2::tex_image_2d(target, level, internal_format, width, height, border, format, type_, data);
}

} // verus!
