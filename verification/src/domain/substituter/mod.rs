pub mod url;
pub mod priority;
pub mod availability;
pub mod substituter_meta;
pub mod substituter;
