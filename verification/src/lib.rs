//! Verified core of the OpenSeal native-module SDK for Luau.
//!
//! The library holds the decisions that the SDK makes around the Luau C API:
//! the error values and their messages, the stack guard, the stack dump text,
//! the checks on Lua types, on C names and on userdata, the registry plans for
//! userdata metatables, and what a native callback or a module entry point
//! answers to the Lua VM for each outcome.
#![allow(unused_imports)]

use vstd::prelude::*;

pub mod error;
pub mod text;
pub mod safety;
pub mod userdata_methods;
pub mod names;
pub mod convert;
pub mod metatable;
pub mod closure;

pub use error::{Error, Result};

verus! {

/// Version of the binary interface between the runtime and a native module.
pub const ABI_VERSION: u32 = 1;

} // verus!
