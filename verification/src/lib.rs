//! Host platform core for sandboxed application modules ("lapps").
//!
//! A lapp is an untrusted module granted a declared, revocable set of
//! capabilities.  This crate holds the verified core of the host:
//! the capability model, the host/guest memory bridge, the lifecycle
//! state machine of a lapp, the registry of all lapps, and the
//! decision logic of the per-lapp background service.  The engine that
//! actually executes module bytecode, the file and network plumbing,
//! and the HTTP front door live outside this crate and drive it
//! through the functions here.

pub mod error;
pub mod permission;
pub mod settings;
pub mod memory;
pub mod loader;
pub mod lapp;
pub mod manager;
pub mod api;
