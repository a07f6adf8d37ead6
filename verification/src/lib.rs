//! Verified core of a plugin-driven UI automation virtual machine.

pub mod value;
pub mod number;
pub mod element;
pub mod target;
pub mod fmt;
pub mod error;
pub mod instruction;
pub mod context;
pub mod eval;
pub mod finder;
pub mod retry;
pub mod executor;
pub mod task;
pub mod plugin;
pub mod vm;
pub mod config;
pub mod desktop;
pub mod storage;
pub mod actor;
pub mod perception;
pub mod window;
