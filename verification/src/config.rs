//! Configuration carried into the pipeline from the outside: server
//! settings, CORS policy, and the repository clone/sanitization policy.

use vstd::prelude::*;

verus! {

/// Where the HTTP server listens and how requests are bounded.
#[derive(Clone, Debug)]
pub struct ServerConfig {
    pub port: u16,
    pub host: String,
    pub body_limit: usize,
    pub request_timeout_secs: u64,
}

/// The cross-origin policy handed to the HTTP layer.
#[derive(Clone, Debug)]
pub struct CorsConfig {
    pub allowed_origins: Vec<String>,
    pub allowed_headers: Vec<String>,
    pub allowed_methods: Vec<String>,
    pub allow_credentials: bool,
}

/// The clone root, the global ignore-pattern source, and the per-file size
/// ceiling of the sanitizer.
#[derive(Clone, Debug)]
pub struct RepositoriesConfig {
    pub clone_dir: String,
    pub rignore_file_path: String,
    pub max_file_size_mb: u64,
}

/// The signing secret for issued tokens.
#[derive(Clone, Debug)]
pub struct JwtConfig {
    pub secret: String,
}

} // verus!
