//! Core of a short-code redirect service: a swappable routing table of
//! code -> target URL, the reload protocol that republishes it from an
//! externally fetched mapping text, and admission control in front of
//! externally triggered reloads.

pub mod cache;
pub mod config;
pub mod dispatch;
pub mod errors;
pub mod limiter;
pub mod mapping;
pub mod reload;
pub mod source;
