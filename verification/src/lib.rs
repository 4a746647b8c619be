pub mod config;
pub mod segment;
pub mod text;
pub mod git;
pub mod theme_default;
pub mod clock;
pub mod model;
pub mod time;
pub mod usage;
