//! A real-time chat backend: clients authenticate, open a persistent
//! connection, and exchange text messages that are fanned out to the other
//! users online.
//!
//! The connection lifecycle is the heart of it: the registry of online
//! connections and the dispatcher that distributes messages (`chat`), the
//! decisions of each connection's reader, writer and supervisor
//! (`connection`), and the admission of authenticated connections (`gate`).
//! The tasks that run these decisions, and the network, are left to the
//! program that embeds the library.

pub mod domain;
pub mod registry;
pub mod message;
pub mod auth;
pub mod captcha;
pub mod error;
pub mod chat;
pub mod connection;
pub mod gate;
pub mod handler;
pub mod user;
pub mod server;
pub mod password;
pub mod accounts;
