//! The server configuration, as read from `server-config.toml`.
use vstd::prelude::*;

verus! {

/// The whole configuration.
#[derive(Debug)]
pub struct BaseConfig {
    pub ports: Ports,
    pub certs: Certs,
    pub log: Log,
    pub moedb: MoeDb,
}

/// The ports the servers listen on.
#[derive(Debug, Clone, Copy)]
pub struct Ports {
    pub tcp: i32,
    pub http: i32,
    pub tls_tcp: i32,
    pub tls_http: i32,
}

/// The certificate files for TLS.
#[derive(Debug)]
pub struct Certs {
    pub crt: String,
    pub key: String,
    pub ca: String,
}

/// The log files of each server.
#[derive(Debug)]
pub struct Log {
    pub app: String,
    pub tcp: String,
    pub http: String,
    pub moedb: String,
}

/// The files a TLS server is set up from.
#[derive(Debug)]
pub struct CertConfig {
    pub cert: String,
    pub key: String,
    pub ocsp: String,
}

/// The settings of the store.
#[derive(Debug)]
pub struct MoeDb {
    pub path: String,
    pub ops_log: String,
    pub strict_mode: bool,
    pub date_format: String,
    pub default_auth: Vec<String>,
}

} // verus!
