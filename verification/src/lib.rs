//! Core of a newsletter subscription service.
//!
//! The library holds the security- and correctness-sensitive logic of the
//! service: validated subscriber names and addresses, high-entropy
//! confirmation tokens, the atomic subscriber-plus-token registration write,
//! idempotent confirmation, password verification with uniform latency, and a
//! signed redirect codec that carries error messages across a redirect without
//! letting them be forged.
//!
//! The HTTP server, the real database and the outbound mail transport are
//! collaborators behind narrow interfaces: storage is modelled by an explicit
//! [`storage::Storage`] value with transactional writes, and mail delivery by
//! the [`email::EmailSender`] capability.

pub mod auth;
pub mod codec;
pub mod configuration;
pub mod confirmation;
pub mod domain;
pub mod email;
pub mod login;
pub mod secret;
pub mod storage;
pub mod subscriptions;
pub mod token;
mod text;
