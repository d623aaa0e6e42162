//! Configuration surface: the compression selector and the per-backend
//! configuration blocks, consumed as already-validated plain values. Parsing
//! the configuration file is the host's concern; the types here are what the
//! replication core is built from, together with the startup errors that a
//! bad configuration raises.

use vstd::prelude::*;

verus! {

/// Selects the compression algorithm for backup artifacts.
#[derive(Clone, Copy, Debug, PartialEq, Eq, Structural)]
pub enum CompressionType {
    Zstd,
    Gzip,
    Uncompressed,
}

impl Default for CompressionType {
    /// Zstd is the default algorithm.
    fn default() -> (r: Self)
        ensures
            r == CompressionType::Zstd,
    {
        CompressionType::Zstd
    }
}

/// Connection parameters of one object-storage destination.
#[derive(Clone, Debug)]
pub struct S3Config {
    pub endpoint: String,
    pub region: Option<String>,
    pub bucket: String,
    pub path: Option<String>,
    pub access_key: String,
    pub secret_key: String,
}

/// Connection parameters of one remote-filesystem-over-HTTP destination.
#[derive(Clone, Debug)]
pub struct WebDavConfig {
    pub endpoint: String,
    pub user: Option<String>,
    pub password: Option<String>,
}

/// The whole configuration: the compression selector and zero or more
/// destination blocks of each backend kind.
#[derive(Clone, Debug)]
pub struct Config {
    pub compression: CompressionType,
    pub s3: Option<Vec<S3Config>>,
    pub webdav: Option<Vec<WebDavConfig>>,
}

/// A startup-time configuration error. Each of these is fatal: the system
/// must refuse to reach a servable state rather than fail on first use.
#[derive(Clone, Copy, Debug, PartialEq, Eq, Structural)]
pub enum ConfigError {
    /// The resulting provider set is empty: zero destinations is a fatal
    /// startup error, never a silent no-op.
    NoProvidersConfigured,
    /// A remote-filesystem destination names a user but no password.
    WebDavPasswordMissing,
    /// A remote-filesystem destination names a password but no user.
    WebDavUserMissing,
}

} // verus!
