pub mod app_state;
pub mod theme;
