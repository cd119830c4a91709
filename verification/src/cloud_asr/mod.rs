//! Clients of cloud speech recognition services.

pub mod doubao;
