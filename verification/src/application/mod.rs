pub mod error;
pub mod nar_info;
pub mod substituter;
pub mod nar_file;
