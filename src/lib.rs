//! Local notification-dispatch daemon: the verified core of a tray companion
//! that receives authenticated webhook calls and hands them to the UI.

pub mod auth;
pub mod document;
pub mod settings;
pub mod payload;
pub mod rendezvous;
pub mod daemon;
pub mod scheduler;
