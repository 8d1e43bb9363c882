pub mod drawable;
pub mod graphics;
pub mod handle;
pub mod ms;
pub mod s2d;
pub mod sprite;
pub mod td;
pub mod vertex;

pub use drawable::DrawCall;
pub use drawable::DrawCommand;
pub use drawable::DrawTask;
pub use drawable::Drawable;
pub use drawable::ExecError;
pub use drawable::PassState;
pub use graphics::BackendCommand;
pub use graphics::Color;
pub use graphics::BufferUsage;
pub use graphics::Graphics;
pub use graphics::GroupKind;
pub use graphics::ResourceError;
pub use handle::BindGroup;
pub use handle::Buffer;
pub use handle::BufferBinding;
pub use handle::Pipeline;
pub use ms::MeshStuff;
pub use ms::PipelineError;
pub use s2d::S2D;
pub use sprite::SpriteBatch;
pub use sprite::SpriteSheet;
pub use td::TestDrawable;
pub use vertex::VertexAttribute;
pub use vertex::VertexBufferDescriptor;
pub use vertex::VertexFormat;
