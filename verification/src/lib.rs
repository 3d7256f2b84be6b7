//! Resolve the executable produced by a structured build, check that it was
//! compiled with enough debug information, and compute the command lines for
//! the build tool and the debugger.

pub mod cmdline;
pub mod debug_info;
pub mod resolve;
pub mod event;
pub mod parse;
pub mod text;
