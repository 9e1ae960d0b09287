//! A screen magnifier's core: the reducer that turns pointer, wheel and resize
//! events into a view configuration, the crop-and-rescale transform, the border
//! and circular masks, the overlay onto the captured screen and the write into a
//! packed-pixel surface.

pub mod frame;
pub mod shot;
pub mod transform;
pub mod compose;
pub mod present;
pub mod utils;
pub mod config;
pub mod app;
