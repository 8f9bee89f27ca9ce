//! The integer rules of the rendering layer: pixel formats, the layout of
//! texture data, vertex attributes and draw ranges. The calls into the
//! graphics API that use these rules are not part of this library.

pub mod error;
pub mod geometry_buffer;
pub mod gpu_texture;
pub mod native_buffer;
pub mod pixel_kind;
pub mod state;
pub mod texture;
pub mod texture_binding;
pub mod texture_property;

pub use error::FrameworkError;
pub use geometry_buffer::DrawCallStatistics;
pub use geometry_buffer::ElementKind;
pub use gpu_texture::GpuTextureKind;
pub use native_buffer::AttributeDefinition;
pub use native_buffer::AttributeKind;
pub use pixel_kind::PixelKind;
pub use state::BlendFactor;
pub use state::BlendFunc;
pub use state::ColorMask;
pub use state::CompareFunc;
pub use state::CullFace;
pub use texture::TextureKind;
pub use texture::TextureMagnificationFilter;
pub use texture::TextureMinificationFilter;
pub use texture::TexturePixelKind;
pub use texture::TextureWrapMode;
pub use texture_property::MagnificationFilter;
pub use texture_property::MinificationFilter;
pub use texture_property::WrapMode;
