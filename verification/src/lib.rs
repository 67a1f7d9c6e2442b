pub mod activation;
pub mod client;
pub mod compact;
pub mod config;
pub mod error;
pub mod model;
pub mod search;
pub mod state;
pub mod text;
pub mod tray;
pub mod worker;
