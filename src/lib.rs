pub mod client;
pub mod config;
pub mod ids;
pub mod lifecycle;
pub mod model;
pub mod notifier;
pub mod oauth;
pub mod store;
