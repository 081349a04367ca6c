pub mod config;
pub mod error;
pub mod model;
pub mod paths;
pub mod server;
pub mod text;
pub mod ui;
pub mod words;

pub use config::file::{load_config, load_or_default};
pub use error::PumpkinError;
pub use model::pumpkin_config::{default_executable_path, Platform, PumpkinConfig};
pub use model::server_log_line::ServerLogLine;
pub use model::server_snapshot::ServerSnapshot;
pub use model::server_status::ServerStatus;
pub use model::server_stream::ServerStream;
pub use paths::{config_path, resolve_path};
pub use paths::CONFIG_FILE_NAME;
pub use server::controller::{
    command_written, stop_poll, stop_written, trim_logs, LaunchOutcome, LaunchPlan,
    ServerController, StopPoll, StopRequest, LOG_LIMIT,
};
pub use server::download::{check_download, ensure_executable, executable_url};
pub use ui::app_state::{parse_arguments, AppState};
pub use ui::theme::{terminal_font_family, Tone};
