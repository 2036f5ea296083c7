pub mod context;
pub mod encoding;
pub mod executor;
pub mod format;
pub mod gpu;
pub mod surface;

pub use context::{DeviceStep, RenderContext};
pub use encoding::BinHeader;
pub use executor::{BlockOn, ExecutorStep, PollState};
pub use format::{ColorFormat, Error, is_supported_render_format, select_format};
pub use gpu::DeviceHandle;
pub use surface::{AlphaMode, PresentMode, RenderSurface, SurfaceConfig};
