//! User-interface logic that is independent of the toolkit drawing it.

pub mod capture_border;
pub mod destination;
pub mod settings;
pub mod theme;
pub mod overlay;
pub mod border_frame;
pub mod selection_overlay;
