//! A validator-side plugin shim: configuration resolution with a lenient
//! fallback, a self-disabling diagnostic log, and a lifecycle state machine
//! that keeps host callbacks inert after unload.
pub mod config;
pub mod diagnostic;
pub mod lifecycle;
pub mod plugin;
pub mod resolver;
pub mod text;

pub use plugin::get_thread_name;
