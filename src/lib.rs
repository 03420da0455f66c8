//! An HTTPS static-asset server's decision logic: which file request to make
//! next for the web front-end (with `.html` fallback), where a plaintext
//! request is redirected, how the model-file mount guards its paths, and how
//! the configuration selects TLS with automatic certificates or plaintext.

pub mod uri;
pub mod redirect;
pub mod router;
pub mod config;
pub mod assets;
