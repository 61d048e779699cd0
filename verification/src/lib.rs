//! A uniform abstraction over interchangeable EVM bytecode execution
//! engines, together with a call-interception layer that lets a test
//! harness inject cheat operations (overriding otherwise-immutable
//! execution context) without touching the engine itself.

pub mod types;
pub mod assoc;
pub mod abi;
pub mod host;
pub mod adapter;
pub mod backend;
pub mod memory_stackstate_owned;
pub mod executor;
pub mod cheatcode_handler;
