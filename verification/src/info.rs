//! What the kernel declares of a parameter: its kind, its flags and its
//! format descriptor.

use crate::consts::CTLTYPE;
use crate::error::CtlError;
use crate::exchange::{Reply, ReplyView};
use crate::kind::CtlType;
use crate::wire::{le_nat, read_u32, utf8_str};
use vstd::prelude::*;
use vstd::slice::slice_subrange;
use vstd::string::StrSliceExecFns;
use vstd::utf8::{decode_utf8, valid_utf8};

verus! {

/// The declaration of a parameter.
#[derive(Debug, PartialEq)]
pub struct CtlInfo {
    /// The declared kind.
    pub ctl_type: CtlType,
    /// The format descriptor.
    pub fmt: String,
    /// The whole kind word: the type tag in its low bits, the flags above.
    pub flags: u32,
}

/// A declaration as a model sees it.
pub struct Info {
    pub ctl_type: CtlType,
    pub fmt: Seq<char>,
    pub flags: u32,
}

impl View for CtlInfo {
    type V = Info;

    open spec fn view(&self) -> Info {
        Info { ctl_type: self.ctl_type, fmt: self.fmt@, flags: self.flags }
    }
}

/// Whether a format descriptor marks a temperature: it begins with `IK`.
pub open spec fn is_temperature_format(fmt: Seq<char>) -> bool {
    fmt.len() >= 2 && fmt[0] == 'I' && fmt[1] == 'K'
}

/// Whether `c` is a decimal digit.
pub open spec fn is_digit(c: char) -> bool {
    '0' <= c <= '9'
}

/// The number of decimal places that a format descriptor gives a
/// temperature: its third character where that is a digit, else one.
pub open spec fn precision_of(fmt: Seq<char>) -> nat {
    if fmt.len() > 2 && is_digit(fmt[2]) {
        (fmt[2] as nat - '0' as nat) as nat
    } else {
        1
    }
}

impl CtlInfo {
    /// Whether the format descriptor marks the parameter as a temperature.
    pub fn is_temperature(&self) -> (b: bool)
        ensures
            b == is_temperature_format(self.fmt@),
    {
        let fmt = self.fmt.as_str();
        fmt.unicode_len() >= 2 && fmt.get_char(0) == 'I' && fmt.get_char(1) == 'K'
    }

    /// The number of decimal places of a temperature with this format
    /// descriptor.
    pub fn precision(&self) -> (p: u8)
        ensures
            p == precision_of(self.fmt@),
            p <= 9,
    {
        let fmt = self.fmt.as_str();
        if fmt.unicode_len() > 2 {
            let c: char = fmt.get_char(2);
            if '0' <= c && c <= '9' {
                return (c as u32 - '0' as u32) as u8;
            }
        }
        1
    }
}

/// What a reply to a request for a declaration holds: the kind word in its
/// first four bytes, least significant first, and the format descriptor in
/// the rest of what the kernel wrote.
pub open spec fn described(reply: ReplyView) -> Result<Info, CtlError> {
    if reply.ret != 0 {
        Err(CtlError::Os { errno: reply.errno })
    } else if reply.len > reply.data.len() {
        Err(CtlError::Truncated { needed: reply.len, found: reply.data.len() as usize })
    } else if reply.len < 4 {
        Err(CtlError::Truncated { needed: 4, found: reply.len })
    } else {
        let kind: u32 = le_nat(reply.data.subrange(0, 4)) as u32;
        let fmt = reply.data.subrange(4, reply.len as int);
        if !valid_utf8(fmt) {
            Err(CtlError::InvalidUtf8)
        } else {
            match CtlType::of_tag(kind & CTLTYPE) {
                Some(ctl_type) => Ok(Info { ctl_type, fmt: decode_utf8(fmt), flags: kind }),
                None => Err(CtlError::UnknownType { tag: kind & CTLTYPE }),
            }
        }
    }
}

/// The kind and the flags of a declaration agree: the tag of the kind is
/// what the mask leaves of the kind word, so the kind is never
/// `Temperature`, and the flags are the kind word whole.
pub proof fn lemma_declared_kind(reply: ReplyView)
    requires
        described(reply) is Ok,
    ensures
        described(reply)->Ok_0.ctl_type.tag() == described(reply)->Ok_0.flags & CTLTYPE,
        described(reply)->Ok_0.flags == le_nat(reply.data.subrange(0, 4)),
        described(reply)->Ok_0.ctl_type != CtlType::Temperature,
{
    let kind: u32 = le_nat(reply.data.subrange(0, 4)) as u32;
    crate::wire::lemma_le_nat_bound(reply.data.subrange(0, 4));
    crate::wire::lemma_radix_values();
    assert(kind & 0xf < 16) by (bit_vector);
}

/// The view of a declaration or of the error in its place.
pub open spec fn info_view(r: Result<CtlInfo, CtlError>) -> Result<Info, CtlError> {
    match r {
        Ok(info) => Ok(info@),
        Err(e) => Err(e),
    }
}

/// Reads the declaration of a parameter from the reply to the request for
/// it.
pub fn oidfmt(reply: &Reply) -> (r: Result<CtlInfo, CtlError>)
    ensures
        info_view(r) == described(reply@),
{
    if reply.ret != 0 {
        return Err(CtlError::Os { errno: reply.errno });
    }
    let data = reply.data.as_slice();
    if reply.len > data.len() {
        return Err(CtlError::Truncated { needed: reply.len, found: data.len() });
    }
    if reply.len < 4 {
        return Err(CtlError::Truncated { needed: 4, found: reply.len });
    }
    let kind: u32 = read_u32(data);
    let tag: u32 = kind & CTLTYPE;
    let fmt = match utf8_str(slice_subrange(data, 4, reply.len)) {
        Some(s) => s.to_owned(),
        None => {
            return Err(CtlError::InvalidUtf8);
        },
    };
    match CtlType::from_tag(tag) {
        Ok(ctl_type) => Ok(CtlInfo { ctl_type, fmt, flags: kind }),
        Err(e) => Err(e),
    }
}

} // verus!
