pub mod nar_file_name;
pub mod store_path_hash;
pub mod narinfo_text;
pub mod upstream_nar_info_data;
pub mod nar_info_data;
pub mod proxy_nar_info_data;
pub mod nar_info_resolution;
pub mod nar_info;
pub mod deadline_group;
pub mod resolution;
pub mod nar_file_index;
