//! Texture objects.

use crate::command::{submit, Command};
use crate::constants::{
    GL_ALPHA, GL_LUMINANCE, GL_LUMINANCE_ALPHA, GL_RGB, GL_RGBA, GL_TEXTURE_MAG_FILTER,
    GL_TEXTURE_MIN_FILTER, GL_TEXTURE_WRAP_S, GL_TEXTURE_WRAP_T, GL_UNSIGNED_BYTE,
    GL_UNSIGNED_SHORT_4_4_4_4, GL_UNSIGNED_SHORT_5_5_5_1, GL_UNSIGNED_SHORT_5_6_5,
};
use crate::gl;
use vstd::prelude::*;

verus! {

/// The layout of the pixels of an image.
#[derive(Clone, Copy, Debug, PartialEq, Eq, Structural)]
pub enum PixelFormat {
    Alpha,
    Rgb,
    Rgba,
    Luminance,
    LuminanceAlpha,
}

impl PixelFormat {
    /// The API's enumerant for this format.
    pub open spec fn spec_gl_enum(self) -> u32 {
        match self {
            PixelFormat::Alpha => GL_ALPHA,
            PixelFormat::Rgb => GL_RGB,
            PixelFormat::Rgba => GL_RGBA,
            PixelFormat::Luminance => GL_LUMINANCE,
            PixelFormat::LuminanceAlpha => GL_LUMINANCE_ALPHA,
        }
    }

    /// The API's enumerant for this format.
    pub fn gl_enum(&self) -> (value: u32)
        ensures
            value == self.spec_gl_enum(),
            value <= i32::MAX,
    {
        match *self {
            PixelFormat::Alpha => GL_ALPHA,
            PixelFormat::Rgb => GL_RGB,
            PixelFormat::Rgba => GL_RGBA,
            PixelFormat::Luminance => GL_LUMINANCE,
            PixelFormat::LuminanceAlpha => GL_LUMINANCE_ALPHA,
        }
    }
}

/// The type of the components of a pixel.
#[derive(Clone, Copy, Debug, PartialEq, Eq, Structural)]
pub enum PixelType {
    UnsignedByte,
    UnsignedShort565,
    UnsignedShort4444,
    UnsignedShort5551,
}

impl PixelType {
    /// The API's enumerant for this type.
    pub open spec fn spec_gl_enum(self) -> u32 {
        match self {
            PixelType::UnsignedByte => GL_UNSIGNED_BYTE,
            PixelType::UnsignedShort565 => GL_UNSIGNED_SHORT_5_6_5,
            PixelType::UnsignedShort4444 => GL_UNSIGNED_SHORT_4_4_4_4,
            PixelType::UnsignedShort5551 => GL_UNSIGNED_SHORT_5_5_5_1,
        }
    }

    /// The API's enumerant for this type.
    pub fn gl_enum(&self) -> (value: u32)
        ensures
            value == self.spec_gl_enum(),
            is_core_pixel_type(value),
    {
        match *self {
            PixelType::UnsignedByte => GL_UNSIGNED_BYTE,
            PixelType::UnsignedShort565 => GL_UNSIGNED_SHORT_5_6_5,
            PixelType::UnsignedShort4444 => GL_UNSIGNED_SHORT_4_4_4_4,
            PixelType::UnsignedShort5551 => GL_UNSIGNED_SHORT_5_5_5_1,
        }
    }
}

/// What defines the image of one mipmap level of a texture: the target the
/// texture is bound to, the level, the layout and type of the pixels, and the
/// size in pixels.
#[derive(Clone, Copy, Debug, PartialEq, Eq, Structural)]
pub struct Image {
    pub target: u32,
    pub level: i32,
    pub format: PixelFormat,
    pub width: i32,
    pub height: i32,
    pub type_: PixelType,
}

/// Whether `type_` is one of the pixel types of the core API, all of which
/// take at most four bytes per pixel.
pub open spec fn is_core_pixel_type(type_: u32) -> bool {
    type_ == GL_UNSIGNED_BYTE || type_ == GL_UNSIGNED_SHORT_5_6_5 || type_
        == GL_UNSIGNED_SHORT_4_4_4_4 || type_ == GL_UNSIGNED_SHORT_5_5_5_1
}

/// How many bytes the API may read for an image of the given size, at most:
/// rows of four bytes per pixel, each padded to a multiple of eight. An image
/// without pixels takes none.
pub open spec fn staging_len(width: int, height: int) -> nat {
    if width <= 0 || height <= 0 {
        0
    } else {
        (height * (8 * ((width * 4 + 7) / 8))) as nat
    }
}

/// `data`, followed by as many zero bytes as it is short of `len`.
pub open spec fn zero_padded(data: Seq<u8>, len: nat) -> Seq<u8> {
    if data.len() >= len {
        data
    } else {
        data + Seq::new((len - data.len()) as nat, |i: int| 0u8)
    }
}

/// The four commands that set the filters and the wrap modes of the texture
/// bound to `target`.
pub open spec fn parameter_plan(
    target: u32,
    min_filter: i32,
    mag_filter: i32,
    wrap_s: i32,
    wrap_t: i32,
) -> Seq<Command> {
    seq![
        Command::TexParameteri { target, name: GL_TEXTURE_MIN_FILTER, value: min_filter },
        Command::TexParameteri { target, name: GL_TEXTURE_MAG_FILTER, value: mag_filter },
        Command::TexParameteri { target, name: GL_TEXTURE_WRAP_S, value: wrap_s },
        Command::TexParameteri { target, name: GL_TEXTURE_WRAP_T, value: wrap_t },
    ]
}

/// A texture object that this value alone owns.
///
/// The handle is deleted when the value is dropped.
pub struct Texture {
    handle: u32,
}

impl Texture {
    /// The handle owned.
    pub closed spec fn id(&self) -> u32 {
        self.handle
    }

    /// Creates a texture object.
    pub fn new() -> (texture: Texture) {
        let handles = gl::gen_textures(1);
        Texture { handle: handles[0] }
    }

    /// The handle, for calls that bind or attach the texture.
    pub fn handle(&self) -> (handle: u32)
        ensures
            handle == self.id(),
    {
        self.handle
    }

    /// The command that binds this texture to `target`.
    pub fn bind_command(&self, target: u32) -> (command: Command)
        ensures
            command == (Command::BindTexture { target, texture: self.id() }),
    {
        Command::BindTexture { target, texture: self.handle }
    }

    /// The commands that set the filters and the wrap modes of the texture
    /// bound to `target`. Each value is an enumerant of the API.
    pub fn parameter_commands(
        target: u32,
        min_filter: i32,
        mag_filter: i32,
        wrap_s: i32,
        wrap_t: i32,
    ) -> (commands: Vec<Command>)
        ensures
            commands@ == parameter_plan(target, min_filter, mag_filter, wrap_s, wrap_t),
    {
        let mut commands: Vec<Command> = Vec::new();
        commands.push(
            Command::TexParameteri { target, name: GL_TEXTURE_MIN_FILTER, value: min_filter },
        );
        commands.push(
            Command::TexParameteri { target, name: GL_TEXTURE_MAG_FILTER, value: mag_filter },
        );
        commands.push(Command::TexParameteri { target, name: GL_TEXTURE_WRAP_S, value: wrap_s });
        commands.push(Command::TexParameteri { target, name: GL_TEXTURE_WRAP_T, value: wrap_t });
        assert(commands@ =~= parameter_plan(target, min_filter, mag_filter, wrap_s, wrap_t));
        commands
    }

    /// Whether the bytes that back an upload of the given size can be held
    /// in memory at all: whether their number fits the machine's word.
    pub fn can_stage(width: i32, height: i32) -> (fits: bool)
        ensures
            fits == (staging_len(width as int, height as int) <= usize::MAX),
    {
        if width <= 0 || height <= 0 {
            true
        } else {
            let row: u64 = 8 * ((width as u64 * 4 + 7) / 8);
            assert(height * row == staging_len(width as int, height as int)) by (nonlinear_arith)
                requires
                    width > 0,
                    height > 0,
                    row == 8 * ((width * 4 + 7) / 8),
            ;
            assert(height * row <= 0x7fff_ffff * 0x2_0000_0000) by (nonlinear_arith)
                requires
                    0 < height <= 0x7fff_ffff,
                    0 <= row <= 0x2_0000_0000,
            ;
            let total: u128 = height as u128 * row as u128;
            total <= usize::MAX as u128
        }
    }

    /// The number of bytes that an upload of the given size must be backed
    /// by.
    pub fn staging_size(width: i32, height: i32) -> (len: usize)
        requires
            staging_len(width as int, height as int) <= usize::MAX,
        ensures
            len == staging_len(width as int, height as int),
    {
        if width <= 0 || height <= 0 {
            0
        } else {
            let row: u64 = 8 * ((width as u64 * 4 + 7) / 8);
            assert(height * row == staging_len(width as int, height as int)) by (nonlinear_arith)
                requires
                    width > 0,
                    height > 0,
                    row == 8 * ((width * 4 + 7) / 8),
            ;
            let total: u128 = height as u128 * row as u128;
            total as usize
        }
    }

    /// The bytes to hand to the API for an upload of the given size: `data`
    /// itself where it is long enough, else a copy padded with zero bytes, so
    /// that no read leaves the buffer. `None` says that `data` can be handed
    /// on as it is.
    pub fn staged(width: i32, height: i32, data: &[u8]) -> (padded: Option<Vec<u8>>)
        requires
            staging_len(width as int, height as int) <= usize::MAX,
        ensures
            match padded {
                None => data@.len() >= staging_len(width as int, height as int),
                Some(bytes) => data@.len() < staging_len(width as int, height as int) && bytes@
                    == zero_padded(data@, staging_len(width as int, height as int)),
            },
    {
        let len = Texture::staging_size(width, height);
        if data.len() >= len {
            return None;
        }
        let mut bytes: Vec<u8> = Vec::new();
        let mut i: usize = 0;
        while i < data.len()
            invariant
                i <= data@.len(),
                bytes@ == data@.take(i as int),
            decreases data.len() - i,
        {
            bytes.push(data[i]);
            i += 1;
            assert(bytes@ =~= data@.take(i as int));
        }
        assert(data@.take(data@.len() as int) =~= data@);
        while bytes.len() < len
            invariant
                data@.len() <= bytes@.len() <= len,
                bytes@ == data@ + Seq::new((bytes@.len() - data@.len()) as nat, |k: int| 0u8),
            decreases len - bytes.len(),
        {
            bytes.push(0u8);
            assert(bytes@ =~= data@ + Seq::new(
                (bytes@.len() - data@.len()) as nat,
                |k: int| 0u8,
            ));
        }
        Some(bytes)
    }

    /// Defines the image of the texture bound to `target` at mipmap level
    /// `level`, and fills it from `data`.
    ///
    /// Data shorter than the API may read for this size is padded with zero
    /// bytes first; with no data at all the image is allocated and zeroed.
    pub fn image(
        target: u32,
        level: i32,
        format: PixelFormat,
        width: i32,
        height: i32,
        type_: PixelType,
        data: &[u8],
    )
        requires
            staging_len(width as int, height as int) <= usize::MAX,
    {
        let format = format.gl_enum();
        let type_ = type_.gl_enum();
        match Texture::staged(width, height, data) {
            None => gl::tex_image_2d(
                target,
                level,
                format as i32,
                width,
                height,
                0,
                format,
                type_,
                data,
            ),
            Some(bytes) => gl::tex_image_2d(
                target,
                level,
                format as i32,
                width,
                height,
                0,
                format,
                type_,
                bytes.as_slice(),
            ),
        }
    }

    /// The command that dropping this value submits: it deletes the handle
    /// owned, and nothing else.
    pub fn deletion(&self) -> (command: Command)
        ensures
            command == (Command::DeleteTexture { texture: self.id() }),
        opens_invariants none
        no_unwind
    {
        Command::DeleteTexture { texture: self.handle }
    }
}

impl Drop for Texture {
    fn drop(&mut self)
        opens_invariants none
        no_unwind
    {
        submit(&self.deletion());
    }
}

} // verus!
