//! Bridges a native windowing and input backend into an engine's event model:
//! key translation tables, the window identity registry, window lifecycle
//! decisions and the per-tick event dispatch.
pub mod event;
pub mod keyboard;
pub mod mouse;
pub mod runner;
pub mod window;
