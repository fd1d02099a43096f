//! Phonet.
pub mod sysctl;
