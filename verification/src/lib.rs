//! Verified core logic of the Solai coding agent's local-provider support.

pub mod text;
pub mod ollama_url;
pub mod weburl;
pub mod provider_config;
pub mod monitor;
pub mod cli_args;
pub mod session;
pub mod marketplace_lease;
pub mod request_options;
pub mod client;
pub mod ollama_chat;
pub mod models_endpoint;
pub mod model_catalog;
pub mod style;
pub mod access_token;
pub mod home_dir;
pub mod bedrock;
pub mod response_relay;
pub mod auth_recovery;
pub mod incremental;
pub mod laws;
