pub mod config;
pub mod config_laws;
pub mod error;
pub mod http;
pub mod json;
pub mod laws;
pub mod place_laws;
pub mod provider;
pub mod provider_url;
pub mod run;
pub mod secret;
pub mod session;
pub mod session_laws;
pub mod step;
pub mod text;
pub mod text_laws;
pub mod view_laws;
