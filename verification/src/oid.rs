//! Addresses of parameters, and the requests that name them.

use crate::consts::CTL_MAXNAME;
use crate::error::CtlError;
use crate::exchange::{Destination, Reply, ReplyView, Request, RequestView};
use crate::wire::{le_nat, read_i32, signed};
use vstd::prelude::*;
use vstd::slice::{slice_subrange, slice_to_vec};
use vstd::string::StrSliceExecFns;
use vstd::utf8::encode_utf8;

verus! {

/// The address of the kernel's own service that turns a name into an
/// address.
pub open spec fn resolver() -> Seq<i32> {
    seq![0i32, 3i32]
}

/// The address of the kernel's own service that tells the declaration of
/// the parameter whose address follows.
pub open spec fn declarer() -> Seq<i32> {
    seq![0i32, 4i32]
}

/// The address of the kernel's own service that tells the description of
/// the parameter whose address follows.
pub open spec fn describer() -> Seq<i32> {
    seq![0i32, 5i32]
}

/// The number of bytes that the longest address takes: four for each of
/// its integers.
pub open spec fn oid_capacity() -> usize {
    (CTL_MAXNAME * 4) as usize
}

impl RequestView {
    /// The request that turns `name` into an address: the name goes in as
    /// bytes, and the address comes back into a buffer for the longest
    /// address there is.
    pub open spec fn resolve(name: Seq<char>) -> RequestView {
        RequestView {
            oid: resolver(),
            destination: Destination::Sized(oid_capacity()),
            payload: Some(encode_utf8(name)),
        }
    }

    /// The request for the declaration of the parameter at `oid`.
    pub open spec fn declaration(oid: Seq<i32>) -> RequestView {
        RequestView { oid: declarer() + oid, destination: Destination::Scratch, payload: None }
    }

    /// The request for the length of the value at `oid`.
    pub open spec fn probe(oid: Seq<i32>) -> RequestView {
        RequestView { oid, destination: Destination::Probe, payload: None }
    }

    /// The request for the `len` bytes of the value at `oid`.
    pub open spec fn fetch(oid: Seq<i32>, len: usize) -> RequestView {
        RequestView { oid, destination: Destination::Sized(len), payload: None }
    }

    /// The request that writes `bytes` to the parameter at `oid`.
    pub open spec fn write(oid: Seq<i32>, bytes: Seq<u8>) -> RequestView {
        RequestView { oid, destination: Destination::Nowhere, payload: Some(bytes) }
    }

    /// The request for the description of the parameter at `oid`.
    pub open spec fn description(oid: Seq<i32>) -> RequestView {
        RequestView { oid: describer() + oid, destination: Destination::Scratch, payload: None }
    }
}

/// A copy of an address.
fn copy_oid(oid: &Vec<i32>) -> (r: Vec<i32>)
    ensures
        r@ == oid@,
{
    slice_to_vec(oid.as_slice())
}

/// The address that begins with `first` and `second` and goes on with `oid`.
fn prefixed(first: i32, second: i32, oid: &Vec<i32>) -> (r: Vec<i32>)
    ensures
        r@ == seq![first, second] + oid@,
{
    let mut r: Vec<i32> = Vec::new();
    r.push(first);
    r.push(second);
    let mut rest = copy_oid(oid);
    r.append(&mut rest);
    assert(r@ =~= seq![first, second] + oid@);
    r
}

impl Request {
    /// The request that turns `name` into an address.
    pub fn resolve(name: &str) -> (r: Request)
        ensures
            r@ == RequestView::resolve(name@),
    {
        let mut oid: Vec<i32> = Vec::new();
        oid.push(0);
        oid.push(3);
        assert(oid@ =~= resolver());
        Request {
            oid,
            destination: Destination::Sized(CTL_MAXNAME as usize * 4),
            payload: Some(name.as_bytes_vec()),
        }
    }

    /// The request for the declaration of the parameter at `oid`.
    pub fn declaration(oid: &Vec<i32>) -> (r: Request)
        ensures
            r@ == RequestView::declaration(oid@),
    {
        Request { oid: prefixed(0, 4, oid), destination: Destination::Scratch, payload: None }
    }

    /// The request for the length of the value at `oid`.
    pub fn probe(oid: &Vec<i32>) -> (r: Request)
        ensures
            r@ == RequestView::probe(oid@),
    {
        Request { oid: copy_oid(oid), destination: Destination::Probe, payload: None }
    }

    /// The request for the `len` bytes of the value at `oid`.
    pub fn fetch(oid: &Vec<i32>, len: usize) -> (r: Request)
        ensures
            r@ == RequestView::fetch(oid@, len),
    {
        Request { oid: copy_oid(oid), destination: Destination::Sized(len), payload: None }
    }

    /// The request that writes `bytes` to the parameter at `oid`.
    pub fn write(oid: &Vec<i32>, bytes: Vec<u8>) -> (r: Request)
        ensures
            r@ == RequestView::write(oid@, bytes@),
    {
        Request { oid: copy_oid(oid), destination: Destination::Nowhere, payload: Some(bytes) }
    }

    /// The request for the description of the parameter at `oid`.
    pub fn description(oid: &Vec<i32>) -> (r: Request)
        ensures
            r@ == RequestView::description(oid@),
    {
        Request { oid: prefixed(0, 5, oid), destination: Destination::Scratch, payload: None }
    }
}

/// The number of bytes of an address that a reply holds: as many as the
/// kernel reports, and no more than the buffer has, nor more than the
/// longest address takes.
pub open spec fn oid_bytes(reply: ReplyView) -> usize {
    let held: usize = if reply.len <= reply.data.len() {
        reply.len
    } else {
        reply.data.len() as usize
    };
    if held <= oid_capacity() {
        held
    } else {
        oid_capacity()
    }
}

/// The number of integers in the address that a reply holds: one for
/// every four whole bytes.
pub open spec fn oid_len(reply: ReplyView) -> nat {
    (oid_bytes(reply) / 4) as nat
}

/// The integer at place `i` of the address in `data`: four bytes, least
/// significant first, in two's complement.
pub open spec fn oid_at(data: Seq<u8>, i: int) -> i32 {
    signed(le_nat(data.subrange(4 * i, 4 * i + 4)), 4) as i32
}

/// The address that a reply to a request to resolve a name holds. No name
/// resolves to the address without integers: a granted reply that holds
/// not even one integer is refused as cut short.
pub open spec fn resolved(reply: ReplyView) -> Result<Seq<i32>, CtlError> {
    if reply.ret < 0 {
        Err(CtlError::Os { errno: reply.errno })
    } else if oid_len(reply) == 0 {
        Err(CtlError::Truncated { needed: 4, found: oid_bytes(reply) })
    } else {
        Ok(Seq::new(oid_len(reply), |i: int| oid_at(reply.data, i)))
    }
}

/// An address that a name resolves to has at least one integer and at
/// most `CTL_MAXNAME`, and no more than the kernel reports or the buffer
/// it came in has room for.
pub proof fn lemma_oid_bounded(reply: ReplyView)
    requires
        resolved(reply) is Ok,
    ensures
        1 <= resolved(reply)->Ok_0.len(),
        resolved(reply)->Ok_0.len() * 4 <= reply.data.len(),
        resolved(reply)->Ok_0.len() * 4 <= reply.len,
        resolved(reply)->Ok_0.len() <= CTL_MAXNAME,
{
}

/// The view of an address or of the error in its place.
pub open spec fn oid_view(r: Result<Vec<i32>, CtlError>) -> Result<Seq<i32>, CtlError> {
    match r {
        Ok(oid) => Ok(oid@),
        Err(e) => Err(e),
    }
}

/// Reads the address of a parameter from the reply to the request to
/// resolve its name.
pub fn name2oid(reply: &Reply) -> (r: Result<Vec<i32>, CtlError>)
    ensures
        oid_view(r) == resolved(reply@),
{
    if reply.ret < 0 {
        return Err(CtlError::Os { errno: reply.errno });
    }
    let data = reply.data.as_slice();
    let held: usize = if reply.len <= data.len() {
        reply.len
    } else {
        data.len()
    };
    let room: usize = CTL_MAXNAME as usize * 4;
    let filled: usize = if held <= room {
        held
    } else {
        room
    };
    let count: usize = filled / 4;
    if count == 0 {
        return Err(CtlError::Truncated { needed: 4, found: filled });
    }
    let mut oid: Vec<i32> = Vec::new();
    let mut i: usize = 0;
    while i < count
        invariant
            i <= count,
            count == oid_len(reply@),
            count * 4 <= data@.len(),
            data@ == reply@.data,
            oid@ == Seq::new(i as nat, |k: int| oid_at(reply@.data, k)),
        decreases count - i,
    {
        let word = slice_subrange(data, 4 * i, 4 * i + 4);
        assert(word@.subrange(0, 4) == word@);
        oid.push(read_i32(word));
        assert(oid@ =~= Seq::new((i + 1) as nat, |k: int| oid_at(reply@.data, k)));
        i = i + 1;
    }
    Ok(oid)
}

} // verus!
