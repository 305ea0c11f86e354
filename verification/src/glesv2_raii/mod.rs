//! Owned handles of graphics objects, the error channel and the resource
//! cache.

pub mod buffer;
pub mod descriptor;
pub mod error;
pub mod framebuffer;
pub mod program;
pub mod renderbuffer;
pub mod resource_mapper;
pub mod shader;
pub mod texture;
pub mod uniform_value;

pub use self::buffer::Buffer;
pub use self::descriptor::{Descriptor, DescriptorView};
pub use self::error::{check, first_error, ApiError, Error, ErrorView};
pub use self::framebuffer::{Framebuffer, RenderbufferAttachment, TextureAttachment, TextureSlot};
pub use self::program::Program;
pub use self::renderbuffer::Renderbuffer;
pub use self::resource_mapper::{Resource, ResourceId, ResourceKind, ResourceMapper, SourceFile};
pub use self::shader::{Shader, ShaderKind};
pub use self::texture::{Image, PixelFormat, PixelType, Texture};
pub use self::uniform_value::UniformValue;
