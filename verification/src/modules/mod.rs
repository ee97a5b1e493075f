pub mod diagnostics;
pub mod history;
pub mod intro;
pub mod keys;
pub mod logo;
pub mod speed_test;
pub mod stats_ui;
pub mod types;
pub mod ui;

pub use logo::{NetrunnerLogo, NetrunnerLogoSize};
pub use types::{ConnectionQuality, DetailLevel, TestConfig};
