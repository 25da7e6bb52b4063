pub mod api;
pub mod config;
pub mod error;
pub mod present;
pub mod run;
pub mod setup;
