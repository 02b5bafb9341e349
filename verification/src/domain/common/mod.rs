pub mod time;
pub mod expire_at;
pub mod failure;
pub mod passthrough_headers;
pub mod upstream_status;
