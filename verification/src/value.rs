//! The values of parameters.

use crate::kind::CtlType;
use crate::text::{decimal_int, push_decimal_int};
use vstd::prelude::*;
use vstd::std_specs::convert::FromSpecImpl;
use vstd::string::StringExecFns;

verus! {

/// `10^exponent`.
pub open spec fn pow10(exponent: nat) -> nat
    decreases exponent,
{
    if exponent == 0 {
        1
    } else {
        10 * pow10((exponent - 1) as nat)
    }
}

/// A fixed-point temperature as a model sees it: `magnitude / 10^precision`
/// kelvin.
pub struct Reading {
    pub magnitude: int,
    pub precision: nat,
}

impl Reading {
    /// Whether a temperature can hold this reading: at most nine decimal
    /// places, and a magnitude that an integer of 64 bits holds, signed or
    /// unsigned.
    pub open spec fn wf(self) -> bool {
        &&& self.precision <= 9
        &&& -0x8000_0000_0000_0000 <= self.magnitude <= 0xffff_ffff_ffff_ffff
    }

    /// The reading in units of `10^-9` kelvin. It is exact, so that two
    /// readings stand to each other as their nanokelvin do.
    pub open spec fn nanokelvin(self) -> int
        recommends
            self.precision <= 9,
    {
        self.magnitude * pow10((9 - self.precision) as nat)
    }
}

/// A temperature in fixed point: `magnitude / 10^precision` kelvin, with at
/// most nine decimal places. Two temperatures are equal where they are as
/// many kelvin, whatever their precision, and are ordered by their kelvin.
#[derive(Debug, Clone, Copy)]
pub struct Temperature {
    magnitude: i128,
    precision: u8,
}

impl View for Temperature {
    type V = Reading;

    closed spec fn view(&self) -> Reading {
        Reading { magnitude: self.magnitude as int, precision: self.precision as nat }
    }
}

impl Temperature {
    #[verifier::type_invariant]
    spec fn well_formed(self) -> bool {
        self@.wf()
    }

    /// The temperature `magnitude / 10^precision` kelvin; `None` where
    /// `precision` is more than nine or `magnitude` is more than an integer
    /// of 64 bits holds.
    pub fn new(magnitude: i128, precision: u8) -> (r: Option<Temperature>)
        ensures
            r is Some <==> (Reading {
                magnitude: magnitude as int,
                precision: precision as nat,
            }).wf(),
            r matches Some(t) ==> t@ == (Reading {
                magnitude: magnitude as int,
                precision: precision as nat,
            }),
    {
        if precision <= 9 && -0x8000_0000_0000_0000 <= magnitude && magnitude
            <= 0xffff_ffff_ffff_ffff {
            Some(Temperature { magnitude, precision })
        } else {
            None
        }
    }

    /// The temperature `magnitude / 10^precision` kelvin.
    pub(crate) fn fixed(magnitude: i128, precision: u8) -> (t: Temperature)
        requires
            (Reading { magnitude: magnitude as int, precision: precision as nat }).wf(),
        ensures
            t@ == (Reading { magnitude: magnitude as int, precision: precision as nat }),
    {
        Temperature { magnitude, precision }
    }

    /// The number of units of `10^-precision` kelvin.
    pub fn magnitude(&self) -> (m: i128)
        ensures
            m == self@.magnitude,
            self@.wf(),
    {
        proof {
            use_type_invariant(self);
        }
        self.magnitude
    }

    /// The number of decimal places, nine at most.
    pub fn precision(&self) -> (p: u8)
        ensures
            p == self@.precision,
            p <= 9,
    {
        proof {
            use_type_invariant(self);
        }
        self.precision
    }

    /// The number of units in one kelvin: `10^precision`.
    pub fn scale(&self) -> (s: u32)
        ensures
            s == pow10(self@.precision),
    {
        proof {
            use_type_invariant(self);
            reveal_with_fuel(pow10, 10);
            assert(pow10(9) == 1_000_000_000);
        }
        let mut s: u32 = 1;
        let mut i: u8 = 0;
        while i < self.precision
            invariant
                i <= self.precision <= 9,
                s == pow10(i as nat),
                s <= pow10(9),
                pow10(9) == 1_000_000_000,
            decreases self.precision - i,
        {
            proof {
                lemma_pow10_grows((i + 1) as nat, 9);
            }
            s = s * 10;
            i = i + 1;
        }
        s
    }

    /// The temperature in units of `10^-9` kelvin.
    pub fn nanokelvin(&self) -> (n: i128)
        ensures
            n == self@.nanokelvin(),
    {
        proof {
            use_type_invariant(self);
            reveal_with_fuel(pow10, 10);
            assert(pow10(9) == 1_000_000_000);
        }
        let mut n: i128 = self.magnitude;
        let mut places: u8 = self.precision;
        proof {
            let one = pow10(0) as int;
            assert(one == 1);
            assert(self.magnitude * one == self.magnitude);
        }
        while places < 9
            invariant
                self.precision <= places <= 9,
                n == self.magnitude * pow10((places - self.precision) as nat),
                -0x1_0000_0000_0000_0000 * pow10((places - self.precision) as nat) <= n,
                n <= 0x1_0000_0000_0000_0000 * pow10((places - self.precision) as nat),
                pow10(9) == 1_000_000_000,
            decreases 9 - places,
        {
            proof {
                let done = (places - self.precision) as nat;
                let magnitude = self.magnitude as int;
                let scale = pow10(done) as int;
                lemma_pow10_grows(done + 1, 9);
                assert(magnitude * (10 * scale) == 10 * (magnitude * scale)) by (nonlinear_arith);
            }
            n = n * 10;
            places = places + 1;
        }
        n
    }
}

/// The power of a sum is the product of the powers.
pub proof fn lemma_pow10_adds(a: nat, b: nat)
    ensures
        pow10(a + b) == pow10(a) * pow10(b),
    decreases a,
{
    if a == 0 {
        assert(pow10(0) == 1);
        assert(1 * pow10(b) == pow10(b));
    } else {
        lemma_pow10_adds((a - 1) as nat, b);
        let rest = pow10((a - 1) as nat) as int;
        let other = pow10(b) as int;
        assert(pow10(a + b) == 10 * pow10((a - 1 + b) as nat));
        assert(10 * (rest * other) == (10 * rest) * other) by (nonlinear_arith);
    }
}

/// Nanokelvin order temperatures as kelvin do. Of two readings the first
/// is below the second in nanokelvin exactly where its magnitude, taken
/// to the precision of the second, is below the magnitude of the second,
/// taken to the precision of the first; and likewise for equality.
pub proof fn lemma_nanokelvin_orders_kelvin(a: Reading, b: Reading)
    requires
        a.precision <= 9,
        b.precision <= 9,
    ensures
        a.nanokelvin() < b.nanokelvin() <==> a.magnitude * pow10(b.precision) < b.magnitude
            * pow10(a.precision),
        a.nanokelvin() == b.nanokelvin() <==> a.magnitude * pow10(b.precision) == b.magnitude
            * pow10(a.precision),
{
    let pa = pow10(a.precision) as int;
    let pb = pow10(b.precision) as int;
    let qa = pow10((9 - a.precision) as nat) as int;
    let qb = pow10((9 - b.precision) as nat) as int;
    let whole = pow10(9) as int;
    lemma_pow10_adds((9 - a.precision) as nat, a.precision);
    lemma_pow10_adds((9 - b.precision) as nat, b.precision);
    lemma_pow10_grows(0, a.precision);
    lemma_pow10_grows(0, b.precision);
    lemma_pow10_grows(0, 9);
    assert(qa * pa == whole);
    assert(qb * pb == whole);
    let x = a.magnitude * pb;
    let y = b.magnitude * pa;
    let m = a.magnitude;
    let k = b.magnitude;
    assert((m * qa) * (pa * pb) == (m * pb) * (qa * pa)) by (nonlinear_arith);
    assert((k * qb) * (pa * pb) == (k * pa) * (qb * pb)) by (nonlinear_arith);
    assert(pa * pb >= 1) by (nonlinear_arith)
        requires
            pa >= 1,
            pb >= 1,
    ;
    let scale = pa * pb;
    let na = m * qa;
    let nb = k * qb;
    assert(na * scale == x * whole);
    assert(nb * scale == y * whole);
    assert(na < nb <==> na * scale < nb * scale) by (nonlinear_arith)
        requires
            scale >= 1,
    ;
    assert(x < y <==> x * whole < y * whole) by (nonlinear_arith)
        requires
            whole >= 1,
    ;
    assert(na == nb <==> na * scale == nb * scale) by (nonlinear_arith)
        requires
            scale >= 1,
    ;
    assert(x == y <==> x * whole == y * whole) by (nonlinear_arith)
        requires
            whole >= 1,
    ;
}

/// `pow10` does not fall as its exponent grows.
pub proof fn lemma_pow10_grows(a: nat, b: nat)
    requires
        a <= b,
    ensures
        pow10(a) <= pow10(b),
        pow10(a) >= 1,
    decreases b,
{
    if a < b {
        lemma_pow10_grows(a, (b - 1) as nat);
    } else if a > 0 {
        lemma_pow10_grows((a - 1) as nat, (b - 1) as nat);
    }
}

/// The value of a parameter: its kind together with what was read. Values
/// of one kind are ordered by what they hold, values of two kinds by the
/// tags of their kinds.
#[derive(Debug, PartialEq, PartialOrd)]
pub enum CtlValue {
    Node(Vec<u8>),
    Int(i32),
    String(String),
    S64(u64),
    Struct(Vec<u8>),
    Uint(u32),
    Long(i64),
    Ulong(u64),
    U64(u64),
    U8(u8),
    U16(u16),
    S8(i8),
    S16(i16),
    S32(i32),
    U32(u32),
    Temperature(Temperature),
}

/// A value as a model sees it.
pub enum Value {
    Node(Seq<u8>),
    Int(i32),
    String(Seq<char>),
    S64(u64),
    Struct(Seq<u8>),
    Uint(u32),
    Long(i64),
    Ulong(u64),
    U64(u64),
    U8(u8),
    U16(u16),
    S8(i8),
    S16(i16),
    S32(i32),
    U32(u32),
    Temperature(Reading),
}

impl View for CtlValue {
    type V = Value;

    open spec fn view(&self) -> Value {
        match *self {
            CtlValue::Node(bytes) => Value::Node(bytes@),
            CtlValue::Int(n) => Value::Int(n),
            CtlValue::String(text) => Value::String(text@),
            CtlValue::S64(n) => Value::S64(n),
            CtlValue::Struct(bytes) => Value::Struct(bytes@),
            CtlValue::Uint(n) => Value::Uint(n),
            CtlValue::Long(n) => Value::Long(n),
            CtlValue::Ulong(n) => Value::Ulong(n),
            CtlValue::U64(n) => Value::U64(n),
            CtlValue::U8(n) => Value::U8(n),
            CtlValue::U16(n) => Value::U16(n),
            CtlValue::S8(n) => Value::S8(n),
            CtlValue::S16(n) => Value::S16(n),
            CtlValue::S32(n) => Value::S32(n),
            CtlValue::U32(n) => Value::U32(n),
            CtlValue::Temperature(t) => Value::Temperature(t@),
        }
    }
}

/// What is written for a value that has no text of its own.
pub open spec fn no_text() -> Seq<char> {
    "unknown value format for Display. use {:?}"@
}

impl Value {
    /// The kind of this value.
    pub open spec fn kind(self) -> CtlType {
        match self {
            Value::Node(_) => CtlType::Node,
            Value::Int(_) => CtlType::Int,
            Value::String(_) => CtlType::String,
            Value::S64(_) => CtlType::S64,
            Value::Struct(_) => CtlType::Struct,
            Value::Uint(_) => CtlType::Uint,
            Value::Long(_) => CtlType::Long,
            Value::Ulong(_) => CtlType::Ulong,
            Value::U64(_) => CtlType::U64,
            Value::U8(_) => CtlType::U8,
            Value::U16(_) => CtlType::U16,
            Value::S8(_) => CtlType::S8,
            Value::S16(_) => CtlType::S16,
            Value::S32(_) => CtlType::S32,
            Value::U32(_) => CtlType::U32,
            Value::Temperature(_) => CtlType::Temperature,
        }
    }

    /// The integer that a value of an integer kind holds.
    pub open spec fn number(self) -> Option<int> {
        match self {
            Value::Int(n) => Some(n as int),
            Value::S64(n) => Some(n as int),
            Value::Uint(n) => Some(n as int),
            Value::Long(n) => Some(n as int),
            Value::Ulong(n) => Some(n as int),
            Value::U64(n) => Some(n as int),
            Value::U8(n) => Some(n as int),
            Value::U16(n) => Some(n as int),
            Value::S8(n) => Some(n as int),
            Value::S16(n) => Some(n as int),
            Value::S32(n) => Some(n as int),
            Value::U32(n) => Some(n as int),
            _ => None,
        }
    }

    /// The text of this value: an integer in decimal, a string as it is, and
    /// a fixed notice for a value of any other kind.
    pub open spec fn text(self) -> Seq<char> {
        match self {
            Value::String(text) => text,
            _ => match self.number() {
                Some(n) => decimal_int(n),
                None => no_text(),
            },
        }
    }
}

impl CtlValue {
    /// The kind of this value.
    pub fn ctl_type(&self) -> (t: CtlType)
        ensures
            t == self@.kind(),
    {
        match self {
            CtlValue::Node(_) => CtlType::Node,
            CtlValue::Int(_) => CtlType::Int,
            CtlValue::String(_) => CtlType::String,
            CtlValue::S64(_) => CtlType::S64,
            CtlValue::Struct(_) => CtlType::Struct,
            CtlValue::Uint(_) => CtlType::Uint,
            CtlValue::Long(_) => CtlType::Long,
            CtlValue::Ulong(_) => CtlType::Ulong,
            CtlValue::U64(_) => CtlType::U64,
            CtlValue::U8(_) => CtlType::U8,
            CtlValue::U16(_) => CtlType::U16,
            CtlValue::S8(_) => CtlType::S8,
            CtlValue::S16(_) => CtlType::S16,
            CtlValue::S32(_) => CtlType::S32,
            CtlValue::U32(_) => CtlType::U32,
            CtlValue::Temperature(_) => CtlType::Temperature,
        }
    }

    /// The text of this value: an integer in decimal, a string as it is, and
    /// a fixed notice for a value of any other kind.
    pub fn to_string(&self) -> (s: String)
        ensures
            s@ == self@.text(),
    {
        match self {
            CtlValue::Int(n) => number_text(*n as i128),
            CtlValue::String(text) => text.clone(),
            CtlValue::S64(n) => number_text(*n as i128),
            CtlValue::Uint(n) => number_text(*n as i128),
            CtlValue::Long(n) => number_text(*n as i128),
            CtlValue::Ulong(n) => number_text(*n as i128),
            CtlValue::U64(n) => number_text(*n as i128),
            CtlValue::U8(n) => number_text(*n as i128),
            CtlValue::U16(n) => number_text(*n as i128),
            CtlValue::S8(n) => number_text(*n as i128),
            CtlValue::S16(n) => number_text(*n as i128),
            CtlValue::S32(n) => number_text(*n as i128),
            CtlValue::U32(n) => number_text(*n as i128),
            _ => String::from_str("unknown value format for Display. use {:?}"),
        }
    }
}

impl CtlValue {
    /// The text of this value, as `to_string` gives it, for a value that is
    /// no longer needed.
    pub fn into_string(self) -> (s: String)
        ensures
            s@ == self@.text(),
    {
        match self {
            CtlValue::String(text) => text,
            other => other.to_string(),
        }
    }
}

fn number_text(n: i128) -> (s: String)
    ensures
        s@ == decimal_int(n as int),
{
    let mut s = String::new();
    push_decimal_int(&mut s, n);
    assert(s@ =~= decimal_int(n as int));
    s
}

impl<'a> From<&'a CtlValue> for CtlType {
    fn from(value: &'a CtlValue) -> (t: CtlType) {
        value.ctl_type()
    }
}

impl<'a> FromSpecImpl<&'a CtlValue> for CtlType {
    open spec fn obeys_from_spec() -> bool {
        true
    }

    open spec fn from_spec(value: &'a CtlValue) -> CtlType {
        value@.kind()
    }
}

} // verus!
