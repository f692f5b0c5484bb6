//! Limits, type tags and flag bits of the kernel's parameter interface.

use vstd::prelude::*;

verus! {

/// The largest number of integers in a parameter's address.
pub const CTL_MAXNAME: u32 = 24;

/// The bits of a parameter's kind word that hold its type tag.
pub const CTLTYPE: u32 = 0xf;

pub const CTLTYPE_NODE: u32 = 1;

pub const CTLTYPE_INT: u32 = 2;

pub const CTLTYPE_STRING: u32 = 3;

pub const CTLTYPE_S64: u32 = 4;

pub const CTLTYPE_OPAQUE: u32 = 5;

pub const CTLTYPE_STRUCT: u32 = 5;

pub const CTLTYPE_UINT: u32 = 6;

pub const CTLTYPE_LONG: u32 = 7;

pub const CTLTYPE_ULONG: u32 = 8;

pub const CTLTYPE_U64: u32 = 9;

pub const CTLTYPE_U8: u32 = 10;

pub const CTLTYPE_U16: u32 = 11;

pub const CTLTYPE_S8: u32 = 12;

pub const CTLTYPE_S16: u32 = 13;

pub const CTLTYPE_S32: u32 = 14;

pub const CTLTYPE_U32: u32 = 15;

/// The parameter can be read.
pub const CTLFLAG_RD: u32 = 0x80000000;

/// The parameter can be written.
pub const CTLFLAG_WR: u32 = 0x40000000;

pub const CTLFLAG_RW: u32 = 0xc0000000;

pub const CTLFLAG_ANYBODY: u32 = 268435456;

pub const CTLFLAG_SECURE: u32 = 134217728;

pub const CTLFLAG_PRISON: u32 = 67108864;

pub const CTLFLAG_DYN: u32 = 33554432;

pub const CTLFLAG_SKIP: u32 = 16777216;

pub const CTLFLAG_TUN: u32 = 0x00080000;

pub const CTLFLAG_RDTUN: u32 = 2148007936;

pub const CTLFLAG_RWTUN: u32 = 3221749760;

pub const CTLFLAG_MPSAFE: u32 = 262144;

pub const CTLFLAG_VNET: u32 = 131072;

pub const CTLFLAG_DYING: u32 = 65536;

pub const CTLFLAG_CAPRD: u32 = 32768;

pub const CTLFLAG_CAPWR: u32 = 16384;

pub const CTLFLAG_STATS: u32 = 8192;

pub const CTLFLAG_NOFETCH: u32 = 4096;

pub const CTLFLAG_CAPRW: u32 = 49152;

pub const CTLFLAG_SECURE1: u32 = 134217728;

pub const CTLFLAG_SECURE2: u32 = 135266304;

pub const CTLFLAG_SECURE3: u32 = 136314880;

pub const CTLMASK_SECURE: u32 = 15728640;

pub const CTLSHIFT_SECURE: u32 = 20;

} // verus!
