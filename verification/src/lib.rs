//! The decisions of a Windows API monitor: which functions it hooks and
//! where they live, how a function's address is looked up, how a hook is
//! installed, and what the DLL entry point does. The Windows calls and the
//! detours themselves are made by the caller, step by step, as these state
//! machines ask.

pub mod cstr;
pub mod decimal;
pub mod dll;
pub mod error;
pub mod hooks;
pub mod install;
pub mod lookup;
pub mod thread;
pub mod wide;
