pub mod align;
pub mod timeline;
pub mod examples;
pub mod runner;
