//! Verified core of a high-level Rust <-> Android/Java bridge.
//!
//! The library holds the logic of the bridge: the `android_bridge!` DSL
//! grammar over a flat token sequence, the mapping of bridge types to JNI
//! descriptors, the plan of the code that is generated for each bridged
//! class, the error model, and the decisions that the Android helpers take
//! between their JNI calls.
pub mod android;
pub mod codegen;
pub mod dex_build;
pub mod error;
pub mod parse;
pub mod text;
pub mod tokens;
pub mod types;

pub use dex_build::compile_dex;
pub use error::{BridgeError, BridgeResult, BridgeResultExt, ErrorReport, JniError};
pub use types::BridgeType;
