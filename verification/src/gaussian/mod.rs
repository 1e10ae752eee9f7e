pub mod cloud;
pub mod packed;
pub mod settings;
