//! Identity and lifecycle management for the windows of a multi-window GUI
//! application: a registry maps opaque window handles to window instances,
//! spawn/close operations produce request values for the host windowing
//! system to execute, and per-frame queries (content, title, theme) are
//! dispatched to the instance registered under a handle.

pub mod capability;
pub mod handle;
pub mod kinds;
pub mod manager;
pub mod requests;
pub mod settings;

pub use capability::Window;
pub use kinds::window;
pub use kinds::WindowUnion;
pub use handle::WindowHandle;
pub use manager::WindowManager;
pub use requests::CloseBatch;
pub use requests::CloseRequest;
pub use requests::OpenRequest;
pub use settings::WindowSettings;
