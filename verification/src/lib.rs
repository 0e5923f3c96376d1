pub mod desktop;
pub mod locator;
pub mod orchestrator;
pub mod releases;
pub mod strutil;
pub mod versions;
