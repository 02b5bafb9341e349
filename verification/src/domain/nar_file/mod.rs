pub mod nar_file_key;
pub mod nar_file_location;
pub mod nar_file;
pub mod service;
