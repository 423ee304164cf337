//! Core of an egui-in-a-native-window bridge: it models the per-window
//! bookkeeping that lets an immediate-mode GUI run inside a foreign event
//! loop.  Raw platform events are translated into GUI-level input events,
//! accumulated per window, and drained once per redraw; the dispatcher
//! decides, for every native event, what the host loop must do next
//! (resize the renderer, request another redraw, run a frame).
//!
//! Coordinates are kept in integer fixed point: a logical position is held
//! in thousandths of a point, a scale factor in thousandths (`1000` means a
//! one-to-one mapping from physical pixels to logical points).  The host
//! glue converts to and from the GUI library's floating-point types at the
//! boundary.

pub mod context;
pub mod geometry;
pub mod input;
pub mod models;
pub mod plugin;
pub mod window;

pub use models::EguiWindowConfig;
pub use plugin::EguiPlugin;
pub use plugin::Registry;
pub use window::EguiWindow;
