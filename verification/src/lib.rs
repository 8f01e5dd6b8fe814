//! Verified building blocks of a VPN client.
//!
//! At the centre stands the ephemeral peer key exchange: what a response of
//! the relay amounts to (`outcome`), the request that is sent
//! (`peer_exchange`), the life of one attempt as a state machine (`session`,
//! with what holds of all its runs in `session_laws`), and the token by
//! which the host cancels it (`cancel_token`).
//!
//! Around it stand the decisions of the problem report (`problem_report`,
//! `collect`, `log_files`, `redact`, `patterns`, `metadata`, `report_laws`),
//! of the installer's window (`ui_downloader`), of DNS, split tunnelling and
//! custom lists (`dns`, `split_tunnel`, `custom_list`), of routing (`routes`)
//! and of the platform bindings (`tun_provider`, `daemon`, `shortcut`, `utm`,
//! `management`).
//!
//! Everything here is plain data and decisions. Sockets, timers, tasks and
//! files belong to the caller, which feeds what it observed into these
//! functions and performs the actions they return.

pub mod cancel_token;
pub mod collect;
pub mod custom_list;
pub mod daemon;
pub mod dns;
pub mod keys;
pub mod log_files;
pub mod management;
pub mod metadata;
pub mod outcome;
pub mod patterns;
pub mod peer_exchange;
pub mod problem_report;
pub mod redact;
pub mod report_laws;
pub mod routes;
pub mod session;
pub mod session_laws;
pub mod shortcut;
pub mod split_tunnel;
pub mod text;
pub mod tun_provider;
pub mod ui_downloader;
pub mod utm;
