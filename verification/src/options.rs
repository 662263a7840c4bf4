//! The engine's context option bits.
use vstd::prelude::*;

verus! {

pub const STRICT: u32 = 0x00001u32;

pub const WERROR: u32 = 0x00002u32;

pub const VAROBJFIX: u32 = 0x00004u32;

pub const PRIVATE_IS_NSISUPPORTS: u32 = 0x00008u32;

pub const COMPILE_N_GO: u32 = 0x00010u32;

pub const ATLINE: u32 = 0x00020u32;

pub const XML: u32 = 0x00040u32;

pub const DONT_REPORT_UNCAUGHT: u32 = 0x00100u32;

pub const RELIMIT: u32 = 0x00200u32;

pub const NO_SCRIPT_RVAL: u32 = 0x01000u32;

pub const UNROOTED_GLOBAL: u32 = 0x02000u32;

pub const METHODJIT: u32 = 0x04000u32;

pub const METHODJIT_ALWAYS: u32 = 0x10000u32;

pub const PCCOUNT: u32 = 0x20000u32;

pub const TYPE_INFERENCE: u32 = 0x40000u32;

pub const SOFTEN: u32 = 0x80000u32;

} // verus!
