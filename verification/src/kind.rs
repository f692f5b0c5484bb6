//! The kinds of value a parameter can hold, and their numeric tags.

use crate::error::CtlError;
use vstd::prelude::*;

verus! {

/// The kind of a parameter: what the kernel declares it to hold, or, for
/// `Temperature`, what its format descriptor makes of it.
#[derive(Debug, Clone, Copy, PartialEq, Eq, Structural)]
pub enum CtlType {
    Node,
    Int,
    String,
    S64,
    Struct,
    Uint,
    Long,
    Ulong,
    U64,
    U8,
    U16,
    S8,
    S16,
    S32,
    U32,
    Temperature,
}

impl CtlType {
    /// The numeric tag of this kind.
    pub open spec fn tag(self) -> u32 {
        match self {
            CtlType::Node => 1,
            CtlType::Int => 2,
            CtlType::String => 3,
            CtlType::S64 => 4,
            CtlType::Struct => 5,
            CtlType::Uint => 6,
            CtlType::Long => 7,
            CtlType::Ulong => 8,
            CtlType::U64 => 9,
            CtlType::U8 => 10,
            CtlType::U16 => 11,
            CtlType::S8 => 12,
            CtlType::S16 => 13,
            CtlType::S32 => 14,
            CtlType::U32 => 15,
            CtlType::Temperature => 16,
        }
    }

    /// The kind with the given tag, if there is one.
    pub open spec fn of_tag(tag: u32) -> Option<CtlType> {
        if tag == 1 {
            Some(CtlType::Node)
        } else if tag == 2 {
            Some(CtlType::Int)
        } else if tag == 3 {
            Some(CtlType::String)
        } else if tag == 4 {
            Some(CtlType::S64)
        } else if tag == 5 {
            Some(CtlType::Struct)
        } else if tag == 6 {
            Some(CtlType::Uint)
        } else if tag == 7 {
            Some(CtlType::Long)
        } else if tag == 8 {
            Some(CtlType::Ulong)
        } else if tag == 9 {
            Some(CtlType::U64)
        } else if tag == 10 {
            Some(CtlType::U8)
        } else if tag == 11 {
            Some(CtlType::U16)
        } else if tag == 12 {
            Some(CtlType::S8)
        } else if tag == 13 {
            Some(CtlType::S16)
        } else if tag == 14 {
            Some(CtlType::S32)
        } else if tag == 15 {
            Some(CtlType::U32)
        } else if tag == 16 {
            Some(CtlType::Temperature)
        } else {
            None
        }
    }

    /// The number of bytes that a fixed-width integer of this kind takes on
    /// the wire; `None` for the kinds of variable length.
    pub open spec fn spec_width(self) -> Option<nat> {
        match self {
            CtlType::U8 | CtlType::S8 => Some(1),
            CtlType::U16 | CtlType::S16 => Some(2),
            CtlType::Int | CtlType::S32 | CtlType::Uint | CtlType::U32 => Some(4),
            CtlType::Long | CtlType::Ulong | CtlType::U64 | CtlType::S64 => Some(8),
            CtlType::Node | CtlType::Struct | CtlType::String | CtlType::Temperature => None,
        }
    }

    /// Whether a value of this kind is read as a signed integer.
    pub open spec fn is_signed(self) -> bool {
        match self {
            CtlType::Int | CtlType::S32 | CtlType::Long | CtlType::S8 | CtlType::S16 => true,
            _ => false,
        }
    }

    /// Whether this kind is a fixed-width integer.
    pub open spec fn is_scalar(self) -> bool {
        self.spec_width() is Some
    }

    /// Whether this kind is an uninterpreted run of bytes.
    pub open spec fn is_opaque(self) -> bool {
        self == CtlType::Node || self == CtlType::Struct
    }

    /// The kind with the given tag. A number that is no kind's tag is
    /// refused, never mapped to a neighbouring kind.
    pub fn from_tag(tag: u32) -> (r: Result<CtlType, CtlError>)
        ensures
            r == match Self::of_tag(tag) {
                Some(t) => Ok::<CtlType, CtlError>(t),
                None => Err(CtlError::UnknownType { tag }),
            },
    {
        match tag {
            1 => Ok(CtlType::Node),
            2 => Ok(CtlType::Int),
            3 => Ok(CtlType::String),
            4 => Ok(CtlType::S64),
            5 => Ok(CtlType::Struct),
            6 => Ok(CtlType::Uint),
            7 => Ok(CtlType::Long),
            8 => Ok(CtlType::Ulong),
            9 => Ok(CtlType::U64),
            10 => Ok(CtlType::U8),
            11 => Ok(CtlType::U16),
            12 => Ok(CtlType::S8),
            13 => Ok(CtlType::S16),
            14 => Ok(CtlType::S32),
            15 => Ok(CtlType::U32),
            16 => Ok(CtlType::Temperature),
            _ => Err(CtlError::UnknownType { tag }),
        }
    }

    /// The numeric tag of this kind.
    pub fn to_tag(self) -> (tag: u32)
        ensures
            tag == self.tag(),
    {
        match self {
            CtlType::Node => 1,
            CtlType::Int => 2,
            CtlType::String => 3,
            CtlType::S64 => 4,
            CtlType::Struct => 5,
            CtlType::Uint => 6,
            CtlType::Long => 7,
            CtlType::Ulong => 8,
            CtlType::U64 => 9,
            CtlType::U8 => 10,
            CtlType::U16 => 11,
            CtlType::S8 => 12,
            CtlType::S16 => 13,
            CtlType::S32 => 14,
            CtlType::U32 => 15,
            CtlType::Temperature => 16,
        }
    }

    /// The number of bytes that a fixed-width integer of this kind takes on
    /// the wire; `None` for the kinds of variable length.
    pub fn width(self) -> (w: Option<usize>)
        ensures
            w is Some <==> self.spec_width() is Some,
            w matches Some(n) ==> self.spec_width() == Some(n as nat),
    {
        match self {
            CtlType::U8 | CtlType::S8 => Some(1),
            CtlType::U16 | CtlType::S16 => Some(2),
            CtlType::Int | CtlType::S32 | CtlType::Uint | CtlType::U32 => Some(4),
            CtlType::Long | CtlType::Ulong | CtlType::U64 | CtlType::S64 => Some(8),
            CtlType::Node | CtlType::Struct | CtlType::String | CtlType::Temperature => None,
        }
    }

    /// The name of this kind, as it is written in messages.
    pub open spec fn spec_name(self) -> Seq<char> {
        match self {
            CtlType::Node => "Node"@,
            CtlType::Int => "Int"@,
            CtlType::String => "String"@,
            CtlType::S64 => "S64"@,
            CtlType::Struct => "Struct"@,
            CtlType::Uint => "Uint"@,
            CtlType::Long => "Long"@,
            CtlType::Ulong => "Ulong"@,
            CtlType::U64 => "U64"@,
            CtlType::U8 => "U8"@,
            CtlType::U16 => "U16"@,
            CtlType::S8 => "S8"@,
            CtlType::S16 => "S16"@,
            CtlType::S32 => "S32"@,
            CtlType::U32 => "U32"@,
            CtlType::Temperature => "Temperature"@,
        }
    }

    /// The name of this kind, as it is written in messages.
    pub fn name(self) -> (s: &'static str)
        ensures
            s@ == self.spec_name(),
    {
        match self {
            CtlType::Node => "Node",
            CtlType::Int => "Int",
            CtlType::String => "String",
            CtlType::S64 => "S64",
            CtlType::Struct => "Struct",
            CtlType::Uint => "Uint",
            CtlType::Long => "Long",
            CtlType::Ulong => "Ulong",
            CtlType::U64 => "U64",
            CtlType::U8 => "U8",
            CtlType::U16 => "U16",
            CtlType::S8 => "S8",
            CtlType::S16 => "S16",
            CtlType::S32 => "S32",
            CtlType::U32 => "U32",
            CtlType::Temperature => "Temperature",
        }
    }
}

/// Every kind is found again from its own tag, and only the numbers from 1
/// to 16 are tags.
pub proof fn lemma_tag_identifies_kind(t: CtlType, tag: u32)
    ensures
        CtlType::of_tag(t.tag()) == Some(t),
        CtlType::of_tag(tag) == Some(t) <==> t.tag() == tag,
        CtlType::of_tag(tag) is Some <==> 1 <= tag <= 16,
{
}

} // verus!
