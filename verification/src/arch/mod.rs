//! Architecture specific definitions.

pub mod aarch64;
