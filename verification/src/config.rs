//! Configuration records for the service and the command-line tools: plain
//! data. Reading them from the environment or from a configuration file
//! stays with the callers.

use vstd::prelude::*;

verus! {

/// The service's configuration.
#[derive(Debug, Clone)]
pub struct AppConfig {
    pub port: u16,
    pub s3_bucket: String,
    pub api_key: String,
    pub aws_region: String,
    /// Custom object-store endpoint URL, for deployments with their own
    /// store.
    pub s3_endpoint_url: Option<String>,
    /// Use path-style addressing, which such deployments require.
    pub s3_force_path_style: bool,
    /// Public endpoint URL to put into presigned URLs.
    pub s3_public_endpoint_url: Option<String>,
}

/// The command-line tools' configuration.
#[derive(Debug)]
pub struct CliConfig {
    pub server: ServerConfig,
    pub storage: StorageConfig,
    pub crypto: CryptoConfig,
}

/// Where the service is and how to authenticate against it.
#[derive(Debug)]
pub struct ServerConfig {
    pub endpoint: String,
    pub api_key_env: String,
}

/// Local directories for downloads and uploads.
#[derive(Debug)]
pub struct StorageConfig {
    pub download_dir: String,
    pub upload_dir: String,
}

/// Where the master key is looked up.
#[derive(Debug)]
pub struct CryptoConfig {
    pub keychain_service: String,
    pub keychain_account: String,
}

} // verus!
