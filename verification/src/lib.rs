//! Command-recording and resource-handle core of a scripted 3D graphics layer.
//!
//! A `Context3DObject` owns a pluggable rendering backend and an ordered
//! queue of pending commands. Script-driven calls append fully resolved
//! commands or synchronously create resources; `present` hands the whole
//! queue to the backend for in-order execution. The `avm_value`,
//! `regexp` and `transform` modules model the scripting-value surface
//! that exposes the runtime's regular-expression objects and one
//! display-transform accessor.

pub mod avm_value;
pub mod backend;
pub mod commands;
pub mod context3d;
pub mod error;
pub mod handles;
pub mod logging_backend;
pub mod regexp;
pub mod resources;
pub mod transform;
