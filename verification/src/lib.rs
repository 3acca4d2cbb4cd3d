//! Verified core of a tray-resident desktop shell: where the popup window goes,
//! and what each menu or tray event does to the windows.

pub mod geometry;
pub mod greeting;
pub mod menu;
pub mod tray;
pub mod windows;

pub use geometry::compute_position;
pub use greeting::greet;
pub use menu::on_menu_event;
pub use tray::tray_step;
