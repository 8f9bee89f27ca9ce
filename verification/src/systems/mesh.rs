//! Meshes: the layout of their vertex data, and the data of their surfaces.

pub mod buffer;
pub mod surface;
pub mod vertex;

pub use buffer::VertexAttribute;
pub use buffer::VertexAttributeDataType;
pub use buffer::VertexAttributeUsage;
pub use buffer::VertexBuffer;
pub use surface::SurfaceData;
pub use surface::TriangleBuffer;
pub use vertex::VertexAttributeDescriptor;
