//! Decisions of the built-in Android helpers.
//!
//! Each helper talks to the Java side through a sequence of JNI calls. What
//! to ask next and what the answers mean are decided here; the calls are made
//! by the caller, who hands back each answer.
pub mod connectivity;
pub mod activity;
pub mod clipboard;
pub mod browser;
pub mod context;
pub mod device;
pub mod dex;
pub mod notifications;
pub mod permissions;
pub mod share;
pub mod vibration;
