//! Core types and logic of the Godot bindings: argument lists of script methods and the
//! errors reported for them, engine version and registration diagnostics, the checks made
//! when the engine hands over its API, class registration decisions, pool arrays, strings,
//! resource ids, profiler signatures, type tags, call sites of log messages, ownership
//! markers, and user-data wrappers with their lock policies.

mod sealed;
pub mod method;
pub mod text;
pub mod semver_bridge;
pub mod diagnostics;
pub mod string;
pub mod typed_array;
pub mod string_array;
pub mod rid;
pub mod profiler;
pub mod profiling;
pub mod init;
pub mod object;
pub mod api;
pub mod registration;
pub mod user_data;
pub mod thread_access;
pub mod log;
pub mod type_tag;
pub mod mixin;
pub mod refcount;
pub mod laws;
