//! Native side of the "No Ponto" desktop companion: the settings document,
//! the main window's session rules and the build metadata it reports.

pub mod app_info;
pub mod greeting;
pub mod json;
pub mod settings;
pub mod text;
pub mod window;
