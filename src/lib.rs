pub mod platform;
pub mod version;
