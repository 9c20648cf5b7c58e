//! Authorization profiles: which exist, which is in effect, and how one takes the place of another.
pub mod activation;
pub mod auth;
pub mod config;
pub mod config_laws;
pub mod contract;
pub mod detail_laws;
pub mod error_laws;
pub mod errors;
pub mod files;
pub mod home;
pub mod home_laws;
pub mod identity;
pub mod laws;
pub mod loading;
pub mod loading_laws;
pub mod metadata;
pub mod operations;
pub mod ownership;
pub mod profile_laws;
pub mod profiles;
pub mod recognition;
pub mod record_laws;
pub mod reloading;
pub mod round_trip;
pub mod settings_laws;
pub mod shown_laws;
pub mod state;
pub mod store;
pub mod store_laws;
pub mod switch_laws;
