pub mod common;
pub mod substituter;
pub mod nar_info;
pub mod nar_file;
