//! What can go wrong, and how it is told.

use crate::kind::CtlType;
use crate::text::{decimal, decimal_int, push_decimal, push_decimal_int};
use vstd::prelude::*;
use vstd::string::StringExecFns;

verus! {

/// Why an operation on a parameter did not give a value.
#[derive(Debug, Clone, Copy, PartialEq, Eq, Structural)]
pub enum CtlError {
    /// The kernel refused a call and left this error number.
    Os { errno: i32 },
    /// A reply holds fewer bytes than what is read from it.
    Truncated { needed: usize, found: usize },
    /// The type tag of a parameter is none that is known.
    UnknownType { tag: u32 },
    /// The bytes of a text value are not UTF-8.
    InvalidString,
    /// The bytes of a format descriptor or of a description are not UTF-8.
    InvalidUtf8,
    /// The declared kind has no rule for reading or writing a value.
    NoMatchingType,
    /// A value that is no run of bytes was to be read by a layout.
    NotOpaque,
    /// A run of bytes is not as long as the layout it was to be read by.
    SizeMismatch { expected: usize, found: usize },
    /// A value was to be written to a parameter of another kind.
    TypeMismatch { given: CtlType, declared: CtlType },
    /// Between asking for its length and reading it, a value changed length.
    LengthChanged { probed: usize, fetched: usize },
    /// A layout has a field that lies outside it or has no fixed reading.
    InvalidLayout { field: usize },
}

/// The message for a refused call: the error number, then what the host
/// says of it.
pub open spec fn os_text(errno: i32, detail: Seq<char>) -> Seq<char> {
    "errno "@ + decimal_int(errno as int) + ": "@ + detail
}

impl CtlError {
    /// The message of every error but `Os`, whose message holds the host's
    /// own words.
    pub open spec fn text(self) -> Seq<char> {
        match self {
            CtlError::Os { errno } => os_text(errno, Seq::empty()),
            CtlError::Truncated { needed, found } => "Error short reply. Bytes needed "@ + decimal(
                needed as nat,
            ) + ", bytes retrieved "@ + decimal(found as nat) + "."@,
            CtlError::UnknownType { tag } => "Error unknown type tag "@ + decimal(tag as nat),
            CtlError::InvalidString => "Error parsing string"@,
            CtlError::InvalidUtf8 => "invalid utf-8 sequence"@,
            CtlError::NoMatchingType => "No matching type for value"@,
            CtlError::NotOpaque => "Error extracting value"@,
            CtlError::SizeMismatch { expected, found } =>
                "Error memory size mismatch. Size of struct "@ + decimal(expected as nat)
                    + ", size of data retrieved "@ + decimal(found as nat) + "."@,
            CtlError::TypeMismatch { given, declared } => "Error type mismatch. Type given "@
                + given.spec_name() + ", sysctl type: "@ + declared.spec_name(),
            CtlError::LengthChanged { probed, fetched } =>
                "Error value changed size. Size asked for "@ + decimal(probed as nat)
                    + ", size of data retrieved "@ + decimal(fetched as nat) + "."@,
            CtlError::InvalidLayout { field } => "Error invalid layout. Field "@ + decimal(
                field as nat,
            ),
        }
    }

    /// The message of this error. For a refused call the host is asked to
    /// describe the error number.
    pub fn to_string(&self) -> (s: String)
        ensures
            match *self {
                CtlError::Os { errno } => exists|detail: Seq<char>|
                    s@ == #[trigger] os_text(errno, detail),
                _ => s@ == self.text(),
            },
    {
        match *self {
            CtlError::Os { errno } => {
                let detail = errno_message(errno);
                os_error_text(errno, detail.as_str())
            },
            CtlError::Truncated { needed, found } => {
                let mut s = String::from_str("Error short reply. Bytes needed ");
                push_decimal(&mut s, needed as u128);
                s.append(", bytes retrieved ");
                push_decimal(&mut s, found as u128);
                s.append(".");
                s
            },
            CtlError::UnknownType { tag } => {
                let mut s = String::from_str("Error unknown type tag ");
                push_decimal(&mut s, tag as u128);
                s
            },
            CtlError::InvalidString => String::from_str("Error parsing string"),
            CtlError::InvalidUtf8 => String::from_str("invalid utf-8 sequence"),
            CtlError::NoMatchingType => String::from_str("No matching type for value"),
            CtlError::NotOpaque => String::from_str("Error extracting value"),
            CtlError::SizeMismatch { expected, found } => {
                let mut s = String::from_str("Error memory size mismatch. Size of struct ");
                push_decimal(&mut s, expected as u128);
                s.append(", size of data retrieved ");
                push_decimal(&mut s, found as u128);
                s.append(".");
                s
            },
            CtlError::TypeMismatch { given, declared } => {
                let mut s = String::from_str("Error type mismatch. Type given ");
                s.append(given.name());
                s.append(", sysctl type: ");
                s.append(declared.name());
                s
            },
            CtlError::LengthChanged { probed, fetched } => {
                let mut s = String::from_str("Error value changed size. Size asked for ");
                push_decimal(&mut s, probed as u128);
                s.append(", size of data retrieved ");
                push_decimal(&mut s, fetched as u128);
                s.append(".");
                s
            },
            CtlError::InvalidLayout { field } => {
                let mut s = String::from_str("Error invalid layout. Field ");
                push_decimal(&mut s, field as u128);
                s
            },
        }
    }
}

/// The message for a refused call, from the error number and the host's
/// description of it.
pub fn os_error_text(errno: i32, detail: &str) -> (s: String)
    ensures
        s@ == os_text(errno, detail@),
{
    let mut s = String::from_str("errno ");
    push_decimal_int(&mut s, errno as i128);
    s.append(": ");
    s.append(detail);
    s
}

/// `errno`'s `Display` for `Errno`: the host's description of an error
/// number. The words come from the host's C library in its current locale,
/// so nothing is promised of them.
#[verifier::external_body]
fn errno_message(code: i32) -> String {
    format!("{}", errno::Errno(code))
}

} // verus!
