//! Hosting typed plugin objects inside a runtime that only speaks an untyped
//! callback interface: atoms and their marshalling, the per-class registry,
//! trampoline generation and dispatch, the handle table that ties host handles
//! to typed objects, the one-shot clock, and the diagnostic channel.

pub mod num;
pub mod atom;
pub mod symbol;
pub mod console;
pub mod class;
pub mod clock;
pub mod wrapper;
pub mod tramp;
pub mod method;
pub mod builder;

pub use crate::console::{error, post};
