//! Moving and resizing the window.

pub mod drag_resize;
