//! One call of the kernel's parameter interface: what is asked, and what
//! comes back.

use vstd::prelude::*;

verus! {

/// Where the kernel is to put what it hands back.
#[derive(Debug, Clone, Copy, PartialEq, Eq, Structural)]
pub enum Destination {
    /// Nowhere: the call passes neither a buffer nor a length.
    Nowhere,
    /// No buffer, and a length of zero that the kernel overwrites with the
    /// number of bytes it would hand back.
    Probe,
    /// A zeroed buffer of exactly this many bytes.
    Sized(usize),
    /// A zeroed buffer of the size the host's C library uses for its
    /// streams.
    Scratch,
}

/// One call that is to be made.
#[derive(Debug, PartialEq)]
pub struct Request {
    /// The address that the call names.
    pub oid: Vec<i32>,
    /// Where the kernel's answer goes.
    pub destination: Destination,
    /// The bytes handed to the kernel, if any.
    pub payload: Option<Vec<u8>>,
}

/// A request as a model sees it.
pub struct RequestView {
    pub oid: Seq<i32>,
    pub destination: Destination,
    pub payload: Option<Seq<u8>>,
}

impl View for Request {
    type V = RequestView;

    open spec fn view(&self) -> RequestView {
        RequestView {
            oid: self.oid@,
            destination: self.destination,
            payload: match self.payload {
                Some(bytes) => Some(bytes@),
                None => None,
            },
        }
    }
}

/// What one call left behind.
#[derive(Debug, PartialEq)]
pub struct Reply {
    /// What the call returned.
    pub ret: i32,
    /// The error number after the call; it means something only where the
    /// call failed.
    pub errno: i32,
    /// The length that the kernel reported: the bytes it wrote, or, for a
    /// probe, the bytes it would write.
    pub len: usize,
    /// The destination buffer after the call, whole; empty where the
    /// request had no buffer.
    pub data: Vec<u8>,
}

/// A reply as a model sees it.
pub struct ReplyView {
    pub ret: i32,
    pub errno: i32,
    pub len: usize,
    pub data: Seq<u8>,
}

impl View for Reply {
    type V = ReplyView;

    open spec fn view(&self) -> ReplyView {
        ReplyView { ret: self.ret, errno: self.errno, len: self.len, data: self.data@ }
    }
}

} // verus!
