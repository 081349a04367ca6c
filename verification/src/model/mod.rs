pub mod pumpkin_config;
pub mod server_log_line;
pub mod server_snapshot;
pub mod server_status;
pub mod server_stream;
