//! A provider-agnostic client core for AI completion services.
//!
//! The library resolves an abstract model reference into a concrete network
//! target (endpoint, auth, model identity), manages credentials including
//! OAuth tokens that expire and must be refreshed, and translates the uniform
//! chat request/response/stream shapes into each provider's wire format.

pub mod adapter;
pub mod anthropic;
pub mod auth_data;
pub mod auth_info;
pub mod chat;
pub mod client;
pub mod credential;
pub mod endpoint;
pub mod error;
pub mod json;
pub mod mapper;
pub mod model;
pub mod refresh;
pub mod store;
pub mod stream;
pub mod text;
pub mod wire;

pub use adapter::AdapterKind;
pub use auth_data::{AuthData, AuthDataError, EnvVars, Headers};
pub use client::{ChatOptions, Client, ClientBuilder, ClientConfig, EmbedOptions, WebConfig};
pub use credential::{ApiKeyCredential, Credential, OAuthCredential, SetupTokenCredential};
pub use endpoint::Endpoint;
pub use error::Error;
pub use model::{ModelIden, ModelSpec, ServiceTarget};
