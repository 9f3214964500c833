pub mod admin;
pub mod get_logs;
