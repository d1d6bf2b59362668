pub mod linux;
pub mod macos;
