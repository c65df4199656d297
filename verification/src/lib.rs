use vstd::prelude::*;

pub mod geometry;
pub mod hit_test;
pub mod mouse_hook;
pub mod platform;
pub mod platform_info;
pub mod platform_utils;
pub mod rec_indicator;
pub mod seq_lemmas;
pub mod session;
pub mod settings;
pub mod settings_dialog;
pub mod settings_session;
pub mod single_instance;
pub mod text;
pub mod traits;
pub mod ui;
pub mod utils;
pub mod window_enumeration;
pub mod window_filter;

verus! {

} // verus!
