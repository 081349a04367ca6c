pub mod controller;
pub mod download;
