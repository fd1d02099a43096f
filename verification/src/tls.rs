//! Kernel TLS.
pub mod tls_proc;
