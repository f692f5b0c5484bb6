//! Typed access to the kernel's hierarchical parameter store.
//!
//! A parameter has a dotted name and a numeric address, a declared kind
//! with flags and a format descriptor, and a value that the kernel hands
//! out as bytes. This library resolves names, reads declarations, turns
//! bytes into typed values and back, reads runs of bytes by a fixed layout,
//! and writes values with a check of their kind.
//!
//! The library makes no call to the kernel itself. Each operation is a
//! [`Session`]: it says which call to make next and decides, from what the
//! call left behind, how to go on. The host makes the calls.

pub mod consts;
pub mod decode;
pub mod encode;
pub mod error;
pub mod exchange;
pub mod info;
pub mod kind;
pub mod layout;
pub mod oid;
pub mod order;
pub mod session;
pub mod text;
pub mod value;
pub mod wire;

pub use consts::{
    CTLFLAG_ANYBODY, CTLFLAG_CAPRD, CTLFLAG_CAPRW, CTLFLAG_CAPWR, CTLFLAG_DYING, CTLFLAG_DYN,
    CTLFLAG_MPSAFE, CTLFLAG_NOFETCH, CTLFLAG_PRISON, CTLFLAG_RD, CTLFLAG_RDTUN, CTLFLAG_RW,
    CTLFLAG_RWTUN, CTLFLAG_SECURE, CTLFLAG_SECURE1, CTLFLAG_SECURE2, CTLFLAG_SECURE3,
    CTLFLAG_SKIP, CTLFLAG_STATS, CTLFLAG_TUN, CTLFLAG_VNET, CTLFLAG_WR, CTLMASK_SECURE,
    CTLSHIFT_SECURE, CTLTYPE, CTLTYPE_INT, CTLTYPE_LONG, CTLTYPE_NODE, CTLTYPE_OPAQUE,
    CTLTYPE_S16, CTLTYPE_S32, CTLTYPE_S64, CTLTYPE_S8, CTLTYPE_STRING, CTLTYPE_STRUCT,
    CTLTYPE_U16, CTLTYPE_U32, CTLTYPE_U64, CTLTYPE_U8, CTLTYPE_UINT, CTLTYPE_ULONG, CTL_MAXNAME,
};
pub use decode::{decode, decode_plain, temperature};
pub use encode::encode;
pub use error::{os_error_text, CtlError};
pub use exchange::{Destination, Reply, Request};
pub use info::{oidfmt, CtlInfo};
pub use kind::CtlType;
pub use layout::{extract, Field, Layout, Record};
pub use oid::name2oid;
pub use session::{
    description, read_description, read_value, set_value, value, value_as, value_oid,
    value_oid_as, Goal, Outcome, Progress, Purpose, Session,
};
pub use value::{CtlValue, Temperature};
