//! Operations on parameters, one call to the kernel at a time.
//!
//! An operation is a `Session`. It tells which call is to be made next
//! (`request`), takes what the call left behind (`advance`), and either
//! goes on to the next call or ends with what the operation gives. Whoever
//! holds the session makes the calls; the session decides.

use crate::decode::{decode, decoded, value_view};
use crate::encode::{encode, encoded};
use crate::error::CtlError;
use crate::exchange::{Reply, ReplyView, Request, RequestView};
use crate::info::{described, oidfmt, CtlInfo, Info};
use crate::layout::{extract, extracted, Layout, LayoutView, Record, RecordView};
use crate::oid::{name2oid, resolved};
use crate::value::{CtlValue, Value};
use crate::wire::utf8_str;
use vstd::prelude::*;
use vstd::slice::{slice_subrange, slice_to_vec};
use vstd::utf8::{decode_utf8, valid_utf8};

verus! {

/// What an operation on a named parameter is for.
#[derive(Debug, PartialEq)]
pub enum Goal {
    /// To read the value, and to hand it on as it is or read by a layout.
    Read { layout: Option<Layout> },
    /// To write a value, and to read back what the parameter then holds.
    Assign { value: CtlValue },
    /// To read the description.
    Describe,
}

/// What the declaration of a parameter is asked for.
#[derive(Debug, PartialEq)]
pub enum Purpose {
    /// To read the value, and to hand it on as it is or read by a layout.
    Read { layout: Option<Layout> },
    /// To write a value to the parameter of this name.
    Assign { name: String, value: CtlValue },
}

/// An operation under way: the call whose reply it waits for, and what it
/// has learnt so far.
#[derive(Debug, PartialEq)]
pub enum Session {
    /// The name is being turned into an address.
    Resolving { name: String, goal: Goal },
    /// The declaration of the parameter is being asked for.
    Declaring { oid: Vec<i32>, purpose: Purpose },
    /// The length of the value is being asked for.
    Probing { oid: Vec<i32>, info: CtlInfo, layout: Option<Layout> },
    /// The value is being fetched into a buffer of the length learnt.
    Fetching { oid: Vec<i32>, info: CtlInfo, layout: Option<Layout>, len: usize },
    /// The bytes of a value are being written.
    Writing { name: String, oid: Vec<i32>, bytes: Vec<u8> },
    /// The description is being asked for.
    Describing { oid: Vec<i32> },
}

/// What an operation gives.
#[derive(Debug, PartialEq)]
pub enum Outcome {
    /// The value of the parameter.
    Value(CtlValue),
    /// The value of the parameter, read by a layout.
    Record(Record),
    /// The description of the parameter.
    Text(String),
}

/// How an operation stands after a reply.
#[derive(Debug, PartialEq)]
pub enum Progress {
    /// Another call is to be made.
    Next(Session),
    /// The operation has ended.
    Done(Result<Outcome, CtlError>),
}

/// A goal as a model sees it.
pub enum GoalView {
    Read { layout: Option<LayoutView> },
    Assign { value: Value },
    Describe,
}

/// A purpose as a model sees it.
pub enum PurposeView {
    Read { layout: Option<LayoutView> },
    Assign { name: Seq<char>, value: Value },
}

/// A session as a model sees it.
pub enum Plan {
    Resolving { name: Seq<char>, goal: GoalView },
    Declaring { oid: Seq<i32>, purpose: PurposeView },
    Probing { oid: Seq<i32>, info: Info, layout: Option<LayoutView> },
    Fetching { oid: Seq<i32>, info: Info, layout: Option<LayoutView>, len: usize },
    Writing { name: Seq<char>, oid: Seq<i32>, bytes: Seq<u8> },
    Describing { oid: Seq<i32> },
}

/// An outcome as a model sees it.
pub enum OutcomeView {
    Value(Value),
    Record(RecordView),
    Text(Seq<char>),
}

/// Progress as a model sees it.
pub enum ProgressView {
    Next(Plan),
    Done(Result<OutcomeView, CtlError>),
}

/// The view of a layout, where there is one.
pub open spec fn layout_view(layout: Option<Layout>) -> Option<LayoutView> {
    match layout {
        Some(l) => Some(l@),
        None => None,
    }
}

impl View for Goal {
    type V = GoalView;

    open spec fn view(&self) -> GoalView {
        match *self {
            Goal::Read { layout } => GoalView::Read { layout: layout_view(layout) },
            Goal::Assign { value } => GoalView::Assign { value: value@ },
            Goal::Describe => GoalView::Describe,
        }
    }
}

impl View for Purpose {
    type V = PurposeView;

    open spec fn view(&self) -> PurposeView {
        match *self {
            Purpose::Read { layout } => PurposeView::Read { layout: layout_view(layout) },
            Purpose::Assign { name, value } => PurposeView::Assign { name: name@, value: value@ },
        }
    }
}

impl View for Session {
    type V = Plan;

    open spec fn view(&self) -> Plan {
        match *self {
            Session::Resolving { name, goal } => Plan::Resolving { name: name@, goal: goal@ },
            Session::Declaring { oid, purpose } => Plan::Declaring { oid: oid@, purpose: purpose@ },
            Session::Probing { oid, info, layout } => Plan::Probing {
                oid: oid@,
                info: info@,
                layout: layout_view(layout),
            },
            Session::Fetching { oid, info, layout, len } => Plan::Fetching {
                oid: oid@,
                info: info@,
                layout: layout_view(layout),
                len,
            },
            Session::Writing { name, oid, bytes } => Plan::Writing {
                name: name@,
                oid: oid@,
                bytes: bytes@,
            },
            Session::Describing { oid } => Plan::Describing { oid: oid@ },
        }
    }
}

impl View for Outcome {
    type V = OutcomeView;

    open spec fn view(&self) -> OutcomeView {
        match *self {
            Outcome::Value(value) => OutcomeView::Value(value@),
            Outcome::Record(record) => OutcomeView::Record(record@),
            Outcome::Text(text) => OutcomeView::Text(text@),
        }
    }
}

impl View for Progress {
    type V = ProgressView;

    open spec fn view(&self) -> ProgressView {
        match *self {
            Progress::Next(session) => ProgressView::Next(session@),
            Progress::Done(Ok(outcome)) => ProgressView::Done(Ok(outcome@)),
            Progress::Done(Err(e)) => ProgressView::Done(Err(e)),
        }
    }
}

/// The value that the reply to a fetch holds for a parameter with the
/// declaration `info`, where `len` bytes were asked for. The kernel must
/// report exactly the length that was learnt before: a value that changed
/// length in between is not read.
pub open spec fn fetched(info: Info, len: usize, reply: ReplyView) -> Result<Value, CtlError> {
    if reply.ret < 0 {
        Err(CtlError::Os { errno: reply.errno })
    } else if reply.len != len {
        Err(CtlError::LengthChanged { probed: len, fetched: reply.len })
    } else if reply.data.len() != len {
        Err(CtlError::Truncated { needed: len, found: reply.data.len() as usize })
    } else {
        decoded(info, reply.data)
    }
}

/// The description that a reply holds: the text that the kernel wrote,
/// without its closing byte.
pub open spec fn description_text(reply: ReplyView) -> Result<Seq<char>, CtlError> {
    if reply.ret != 0 {
        Err(CtlError::Os { errno: reply.errno })
    } else if reply.len > reply.data.len() {
        Err(CtlError::Truncated { needed: reply.len, found: reply.data.len() as usize })
    } else if reply.len == 0 {
        Err(CtlError::Truncated { needed: 1, found: 0 })
    } else if !valid_utf8(reply.data.subrange(0, reply.len - 1)) {
        Err(CtlError::InvalidUtf8)
    } else {
        Ok(decode_utf8(reply.data.subrange(0, reply.len - 1)))
    }
}

/// What a value gives once it is read: the value itself, or the record
/// that a layout makes of it.
pub open spec fn handed(layout: Option<LayoutView>, value: Value) -> Result<
    OutcomeView,
    CtlError,
> {
    match layout {
        None => Ok(OutcomeView::Value(value)),
        Some(l) => match extracted(l, value) {
            Ok(record) => Ok(OutcomeView::Record(record)),
            Err(e) => Err(e),
        },
    }
}

impl Plan {
    /// The call that is to be made next.
    pub open spec fn request(self) -> RequestView {
        match self {
            Plan::Resolving { name, .. } => RequestView::resolve(name),
            Plan::Declaring { oid, .. } => RequestView::declaration(oid),
            Plan::Probing { oid, .. } => RequestView::probe(oid),
            Plan::Fetching { oid, len, .. } => RequestView::fetch(oid, len),
            Plan::Writing { oid, bytes, .. } => RequestView::write(oid, bytes),
            Plan::Describing { oid } => RequestView::description(oid),
        }
    }

    /// How the operation stands once the call has left `reply` behind.
    pub open spec fn step(self, reply: ReplyView) -> ProgressView {
        match self {
            Plan::Resolving { name, goal } => match resolved(reply) {
                Err(e) => ProgressView::Done(Err(e)),
                Ok(oid) => ProgressView::Next(
                    match goal {
                        GoalView::Read { layout } => Plan::Declaring {
                            oid,
                            purpose: PurposeView::Read { layout },
                        },
                        GoalView::Assign { value } => Plan::Declaring {
                            oid,
                            purpose: PurposeView::Assign { name, value },
                        },
                        GoalView::Describe => Plan::Describing { oid },
                    },
                ),
            },
            Plan::Declaring { oid, purpose } => match described(reply) {
                Err(e) => ProgressView::Done(Err(e)),
                Ok(info) => match purpose {
                    PurposeView::Read { layout } => ProgressView::Next(
                        Plan::Probing { oid, info, layout },
                    ),
                    PurposeView::Assign { name, value } => if value.kind() != info.ctl_type {
                        ProgressView::Done(
                            Err(
                                CtlError::TypeMismatch {
                                    given: value.kind(),
                                    declared: info.ctl_type,
                                },
                            ),
                        )
                    } else {
                        match encoded(value) {
                            Err(e) => ProgressView::Done(Err(e)),
                            Ok(bytes) => ProgressView::Next(Plan::Writing { name, oid, bytes }),
                        }
                    },
                },
            },
            Plan::Probing { oid, info, layout } => if reply.ret < 0 {
                ProgressView::Done(Err(CtlError::Os { errno: reply.errno }))
            } else {
                ProgressView::Next(Plan::Fetching { oid, info, layout, len: reply.len })
            },
            Plan::Fetching { oid, info, layout, len } => match fetched(info, len, reply) {
                Err(e) => ProgressView::Done(Err(e)),
                Ok(value) => ProgressView::Done(handed(layout, value)),
            },
            Plan::Writing { name, oid, bytes } => if reply.ret < 0 {
                ProgressView::Done(Err(CtlError::Os { errno: reply.errno }))
            } else {
                ProgressView::Next(Plan::value(name))
            },
            Plan::Describing { oid } => match description_text(reply) {
                Err(e) => ProgressView::Done(Err(e)),
                Ok(text) => ProgressView::Done(Ok(OutcomeView::Text(text))),
            },
        }
    }

    /// The plan to read the value of the parameter called `name`.
    pub open spec fn value(name: Seq<char>) -> Plan {
        Plan::Resolving { name, goal: GoalView::Read { layout: None } }
    }

    /// The plan to read the value of the parameter at `oid`.
    pub open spec fn value_oid(oid: Seq<i32>) -> Plan {
        Plan::Declaring { oid, purpose: PurposeView::Read { layout: None } }
    }

    /// The plan to read the value of the parameter called `name` by
    /// `layout`.
    pub open spec fn value_as(name: Seq<char>, layout: LayoutView) -> Plan {
        Plan::Resolving { name, goal: GoalView::Read { layout: Some(layout) } }
    }

    /// The plan to read the value of the parameter at `oid` by `layout`.
    pub open spec fn value_oid_as(oid: Seq<i32>, layout: LayoutView) -> Plan {
        Plan::Declaring { oid, purpose: PurposeView::Read { layout: Some(layout) } }
    }

    /// The plan to write `value` to the parameter called `name` and to read
    /// back what it then holds.
    pub open spec fn set_value(name: Seq<char>, value: Value) -> Plan {
        Plan::Resolving { name, goal: GoalView::Assign { value } }
    }

    /// The plan to read the description of the parameter called `name`.
    pub open spec fn description(name: Seq<char>) -> Plan {
        Plan::Resolving { name, goal: GoalView::Describe }
    }
}

/// The three things that an operation can give.
pub enum Shape {
    Value,
    Record,
    Text,
}

/// What a value gives once it is read: itself, or a record.
pub open spec fn shape_of(layout: Option<LayoutView>) -> Shape {
    match layout {
        None => Shape::Value,
        Some(_) => Shape::Record,
    }
}

impl OutcomeView {
    /// Which of the three things this is.
    pub open spec fn shape(self) -> Shape {
        match self {
            OutcomeView::Value(_) => Shape::Value,
            OutcomeView::Record(_) => Shape::Record,
            OutcomeView::Text(_) => Shape::Text,
        }
    }
}

impl Plan {
    /// Which of the three things the operation gives if it ends well.
    pub open spec fn shape(self) -> Shape {
        match self {
            Plan::Resolving { goal, .. } => match goal {
                GoalView::Read { layout } => shape_of(layout),
                GoalView::Assign { .. } => Shape::Value,
                GoalView::Describe => Shape::Text,
            },
            Plan::Declaring { purpose, .. } => match purpose {
                PurposeView::Read { layout } => shape_of(layout),
                PurposeView::Assign { .. } => Shape::Value,
            },
            Plan::Probing { layout, .. } => shape_of(layout),
            Plan::Fetching { layout, .. } => shape_of(layout),
            Plan::Writing { .. } => Shape::Value,
            Plan::Describing { .. } => Shape::Text,
        }
    }

    /// The largest number of calls that the operation can still make.
    pub open spec fn calls_left(self) -> nat {
        match self {
            Plan::Resolving { goal, .. } => match goal {
                GoalView::Read { .. } => 4,
                GoalView::Assign { .. } => 7,
                GoalView::Describe => 2,
            },
            Plan::Declaring { purpose, .. } => match purpose {
                PurposeView::Read { .. } => 3,
                PurposeView::Assign { .. } => 6,
            },
            Plan::Probing { .. } => 2,
            Plan::Fetching { .. } => 1,
            Plan::Writing { .. } => 5,
            Plan::Describing { .. } => 1,
        }
    }

    /// The address of the parameter, once it is known.
    pub open spec fn oid(self) -> Option<Seq<i32>> {
        match self {
            Plan::Resolving { .. } => None,
            Plan::Declaring { oid, .. } => Some(oid),
            Plan::Probing { oid, .. } => Some(oid),
            Plan::Fetching { oid, .. } => Some(oid),
            Plan::Writing { oid, .. } => Some(oid),
            Plan::Describing { oid } => Some(oid),
        }
    }
}

/// A call that the kernel refuses ends the operation with the error number
/// that the call left; no call is made again.
pub proof fn lemma_refusal_ends(plan: Plan, reply: ReplyView)
    requires
        reply.ret < 0,
    ensures
        plan.step(reply) == ProgressView::Done(Err(CtlError::Os { errno: reply.errno })),
{
}

/// Every reply brings the operation nearer its end: no operation makes
/// more than seven calls, and none that only reads makes more than four.
pub proof fn lemma_calls_run_out(plan: Plan, reply: ReplyView)
    ensures
        1 <= plan.calls_left() <= 7,
        plan.step(reply) matches ProgressView::Next(next) ==> next.calls_left()
            < plan.calls_left(),
{
}

/// An operation gives what it was begun for: a read gives a value, a read
/// by a layout a record, a write the value read back, and a request for
/// the description a text.
pub proof fn lemma_shape_kept(plan: Plan, reply: ReplyView)
    ensures
        plan.step(reply) matches ProgressView::Next(next) ==> next.shape() == plan.shape(),
        plan.step(reply) matches ProgressView::Done(Ok(outcome)) ==> outcome.shape()
            == plan.shape(),
{
}

/// Once the address of a parameter is known, every later call of a read
/// names that address.
pub proof fn lemma_address_kept(plan: Plan, reply: ReplyView)
    requires
        plan.oid() is Some,
        !(plan is Writing),
    ensures
        plan.step(reply) matches ProgressView::Next(next) ==> next.oid() == plan.oid(),
{
}

/// A value is read only where the fetch reports exactly the length that
/// the probe reported, and fills exactly that many bytes.
pub proof fn lemma_lengths_agree(info: Info, len: usize, reply: ReplyView)
    requires
        fetched(info, len, reply) is Ok,
    ensures
        reply.len == len,
        reply.data.len() == len,
        fetched(info, len, reply) == decoded(info, reply.data),
{
}

/// Reading by address goes through three calls: the declaration, the
/// length, the bytes. Where the kernel grants all three, what is given is
/// what the bytes mean by the declaration.
pub proof fn lemma_read_path(
    oid: Seq<i32>,
    declaration: ReplyView,
    probe: ReplyView,
    fetch: ReplyView,
)
    requires
        described(declaration) is Ok,
        probe.ret >= 0,
    ensures
        ({
            let info = described(declaration)->Ok_0;
            let second = Plan::Probing { oid, info, layout: None };
            let third = Plan::Fetching { oid, info, layout: None, len: probe.len };
            &&& Plan::value_oid(oid).request() == RequestView::declaration(oid)
            &&& Plan::value_oid(oid).step(declaration) == ProgressView::Next(second)
            &&& second.request() == RequestView::probe(oid)
            &&& second.step(probe) == ProgressView::Next(third)
            &&& third.request() == RequestView::fetch(oid, probe.len)
            &&& third.step(fetch) == ProgressView::Done(
                match fetched(info, probe.len, fetch) {
                    Ok(value) => Ok(OutcomeView::Value(value)),
                    Err(e) => Err(e),
                },
            )
        }),
{
}

/// Reading by name is resolving the name and then reading by the address
/// that came back, which has at least one integer.
pub proof fn lemma_read_by_name(name: Seq<char>, resolution: ReplyView)
    requires
        resolved(resolution) is Ok,
    ensures
        Plan::value(name).request() == RequestView::resolve(name),
        Plan::value(name).step(resolution) == ProgressView::Next(
            Plan::value_oid(resolved(resolution)->Ok_0),
        ),
        resolved(resolution)->Ok_0.len() >= 1,
{
}

/// Resolving a name depends on the name and on the kernel's answer alone,
/// whatever the operation is for: the same name asks the same question
/// both times, and the same answer gives the same address both times.
pub proof fn lemma_resolution_repeats(
    name: Seq<char>,
    first: GoalView,
    second: GoalView,
    reply: ReplyView,
)
    ensures
        (Plan::Resolving { name, goal: first }).request() == RequestView::resolve(name),
        (Plan::Resolving { name, goal: second }).request() == RequestView::resolve(name),
        resolved(reply) is Err ==> (Plan::Resolving { name, goal: first }).step(reply)
            == (Plan::Resolving { name, goal: second }).step(reply),
        resolved(reply) is Ok ==> {
            &&& (Plan::Resolving { name, goal: first }).step(reply) is Next
            &&& (Plan::Resolving { name, goal: second }).step(reply) is Next
            &&& (Plan::Resolving { name, goal: first }).step(reply)->Next_0.oid() == Some(
                resolved(reply)->Ok_0,
            )
            &&& (Plan::Resolving { name, goal: second }).step(reply)->Next_0.oid() == Some(
                resolved(reply)->Ok_0,
            )
        },
{
}

/// A write is never taken on trust. Once the kernel has accepted the
/// bytes, the operation goes on exactly as a fresh read of the same name.
pub proof fn lemma_write_reads_back(
    name: Seq<char>,
    oid: Seq<i32>,
    bytes: Seq<u8>,
    reply: ReplyView,
)
    requires
        reply.ret >= 0,
    ensures
        (Plan::Writing { name, oid, bytes }).step(reply) == ProgressView::Next(Plan::value(name)),
{
}

/// A value is written only to a parameter of its own kind, and what the
/// kernel is handed are the value's bytes.
pub proof fn lemma_write_checks_kind(
    name: Seq<char>,
    oid: Seq<i32>,
    value: Value,
    declaration: ReplyView,
)
    requires
        described(declaration) is Ok,
    ensures
        ({
            let info = described(declaration)->Ok_0;
            let plan = Plan::Declaring { oid, purpose: PurposeView::Assign { name, value } };
            if value.kind() != info.ctl_type {
                plan.step(declaration) == ProgressView::Done(
                    Err(CtlError::TypeMismatch { given: value.kind(), declared: info.ctl_type }),
                )
            } else {
                &&& encoded(value) is Ok
                &&& plan.step(declaration) == ProgressView::Next(
                    Plan::Writing { name, oid, bytes: encoded(value)->Ok_0 },
                )
                &&& plan.step(declaration)->Next_0.request() == RequestView::write(
                    oid,
                    encoded(value)->Ok_0,
                )
            }
        }),
{
    let info = described(declaration)->Ok_0;
    crate::info::lemma_declared_kind(declaration);
}

/// Writing a value and reading it back, from end to end. Where the kernel
/// resolves the name and declares the value's own kind both times, takes
/// the write, and then hands out the bytes that were written, the
/// operation makes seven calls and gives the value that was written.
pub proof fn lemma_assigned_value_is_read_back(
    name: Seq<char>,
    value: Value,
    resolution: ReplyView,
    declaration: ReplyView,
    written: ReplyView,
    probe: ReplyView,
    fetch: ReplyView,
)
    requires
        resolved(resolution) is Ok,
        described(declaration) is Ok,
        described(declaration)->Ok_0.ctl_type == value.kind(),
        !crate::info::is_temperature_format(described(declaration)->Ok_0.fmt),
        written.ret >= 0,
        probe.ret >= 0,
        fetch.ret >= 0,
        fetch.len == probe.len,
        fetch.data.len() == probe.len,
        encoded(value) == Ok::<Seq<u8>, CtlError>(fetch.data),
    ensures
        ({
            let oid = resolved(resolution)->Ok_0;
            let info = described(declaration)->Ok_0;
            let first = Plan::set_value(name, value);
            let second = Plan::Declaring { oid, purpose: PurposeView::Assign { name, value } };
            let third = Plan::Writing { name, oid, bytes: fetch.data };
            let fourth = Plan::value(name);
            let fifth = Plan::value_oid(oid);
            let sixth = Plan::Probing { oid, info, layout: None };
            let seventh = Plan::Fetching { oid, info, layout: None, len: probe.len };
            &&& first.step(resolution) == ProgressView::Next(second)
            &&& second.step(declaration) == ProgressView::Next(third)
            &&& third.request() == RequestView::write(oid, fetch.data)
            &&& third.step(written) == ProgressView::Next(fourth)
            &&& fourth.step(resolution) == ProgressView::Next(fifth)
            &&& fifth.step(declaration) == ProgressView::Next(sixth)
            &&& sixth.step(probe) == ProgressView::Next(seventh)
            &&& seventh.step(fetch) == ProgressView::Done(Ok(OutcomeView::Value(value)))
        }),
{
    let info = described(declaration)->Ok_0;
    crate::info::lemma_declared_kind(declaration);
    crate::encode::lemma_decode_encode(info, value);
}

/// Where the format descriptor marks a temperature, the read that follows
/// a write does not give the integer that was written but the temperature
/// that the integer makes: the format decides before the kind.
pub proof fn lemma_assigned_measure_is_read_back(
    oid: Seq<i32>,
    info: Info,
    value: Value,
    fetch: ReplyView,
)
    requires
        info.ctl_type == value.kind(),
        crate::info::is_temperature_format(info.fmt),
        crate::decode::measures(value.kind()),
        fetch.ret >= 0,
        fetch.len == fetch.data.len(),
        encoded(value) == Ok::<Seq<u8>, CtlError>(fetch.data),
    ensures
        (Plan::Fetching { oid, info, layout: None, len: fetch.len }).step(fetch)
            == ProgressView::Done(
            Ok(
                OutcomeView::Value(
                    Value::Temperature(
                        crate::value::Reading {
                            magnitude: value.number()->Some_0,
                            precision: crate::info::precision_of(info.fmt),
                        },
                    ),
                ),
            ),
        ),
{
    crate::encode::lemma_scalar_round_trip(value.kind(), value.number()->Some_0);
}

/// The view of a text or of the error in its place.
pub open spec fn text_view(r: Result<String, CtlError>) -> Result<Seq<char>, CtlError> {
    match r {
        Ok(text) => Ok(text@),
        Err(e) => Err(e),
    }
}

/// Reads the value of a parameter from the reply to the fetch of `len`
/// bytes.
pub fn read_value(info: &CtlInfo, len: usize, reply: Reply) -> (r: Result<CtlValue, CtlError>)
    ensures
        value_view(r) == fetched(info@, len, reply@),
{
    if reply.ret < 0 {
        Err(CtlError::Os { errno: reply.errno })
    } else if reply.len != len {
        Err(CtlError::LengthChanged { probed: len, fetched: reply.len })
    } else if reply.data.len() != len {
        Err(CtlError::Truncated { needed: len, found: reply.data.len() })
    } else {
        decode(info, reply.data)
    }
}

/// Reads the description of a parameter from the reply to the request for
/// it.
pub fn read_description(reply: &Reply) -> (r: Result<String, CtlError>)
    ensures
        text_view(r) == description_text(reply@),
{
    if reply.ret != 0 {
        return Err(CtlError::Os { errno: reply.errno });
    }
    let data = reply.data.as_slice();
    if reply.len > data.len() {
        return Err(CtlError::Truncated { needed: reply.len, found: data.len() });
    }
    if reply.len == 0 {
        return Err(CtlError::Truncated { needed: 1, found: 0 });
    }
    match utf8_str(slice_subrange(data, 0, reply.len - 1)) {
        Some(s) => Ok(s.to_owned()),
        None => Err(CtlError::InvalidUtf8),
    }
}

/// Hands a value on as it is, or read by a layout.
fn hand(layout: Option<Layout>, value: CtlValue) -> (r: Result<Outcome, CtlError>)
    ensures
        (Progress::Done(r))@ == ProgressView::Done(handed(layout_view(layout), value@)),
{
    match layout {
        None => Ok(Outcome::Value(value)),
        Some(l) => match extract(l, value) {
            Ok(record) => Ok(Outcome::Record(record)),
            Err(e) => Err(e),
        },
    }
}

impl Session {
    /// The call that is to be made next.
    pub fn request(&self) -> (r: Request)
        ensures
            r@ == self@.request(),
    {
        match self {
            Session::Resolving { name, .. } => Request::resolve(name.as_str()),
            Session::Declaring { oid, .. } => Request::declaration(oid),
            Session::Probing { oid, .. } => Request::probe(oid),
            Session::Fetching { oid, len, .. } => Request::fetch(oid, *len),
            Session::Writing { oid, bytes, .. } => Request::write(
                oid,
                slice_to_vec(bytes.as_slice()),
            ),
            Session::Describing { oid } => Request::description(oid),
        }
    }

    /// Takes what the call left behind, and goes on to the next call or
    /// ends the operation.
    pub fn advance(self, reply: Reply) -> (p: Progress)
        ensures
            p@ == self@.step(reply@),
    {
        match self {
            Session::Resolving { name, goal } => match name2oid(&reply) {
                Err(e) => Progress::Done(Err(e)),
                Ok(oid) => match goal {
                    Goal::Read { layout } => Progress::Next(
                        Session::Declaring { oid, purpose: Purpose::Read { layout } },
                    ),
                    Goal::Assign { value } => Progress::Next(
                        Session::Declaring { oid, purpose: Purpose::Assign { name, value } },
                    ),
                    Goal::Describe => Progress::Next(Session::Describing { oid }),
                },
            },
            Session::Declaring { oid, purpose } => match oidfmt(&reply) {
                Err(e) => Progress::Done(Err(e)),
                Ok(info) => match purpose {
                    Purpose::Read { layout } => Progress::Next(
                        Session::Probing { oid, info, layout },
                    ),
                    Purpose::Assign { name, value } => {
                        let given = value.ctl_type();
                        if given != info.ctl_type {
                            Progress::Done(
                                Err(CtlError::TypeMismatch { given, declared: info.ctl_type }),
                            )
                        } else {
                            match encode(&value) {
                                Err(e) => Progress::Done(Err(e)),
                                Ok(bytes) => Progress::Next(Session::Writing { name, oid, bytes }),
                            }
                        }
                    },
                },
            },
            Session::Probing { oid, info, layout } => {
                if reply.ret < 0 {
                    Progress::Done(Err(CtlError::Os { errno: reply.errno }))
                } else {
                    Progress::Next(Session::Fetching { oid, info, layout, len: reply.len })
                }
            },
            Session::Fetching { oid, info, layout, len } => match read_value(&info, len, reply) {
                Err(e) => Progress::Done(Err(e)),
                Ok(value) => Progress::Done(hand(layout, value)),
            },
            Session::Writing { name, oid, bytes } => {
                if reply.ret < 0 {
                    Progress::Done(Err(CtlError::Os { errno: reply.errno }))
                } else {
                    Progress::Next(
                        Session::Resolving { name, goal: Goal::Read { layout: None } },
                    )
                }
            },
            Session::Describing { oid } => match read_description(&reply) {
                Err(e) => Progress::Done(Err(e)),
                Ok(text) => Progress::Done(Ok(Outcome::Text(text))),
            },
        }
    }
}

/// Begins reading the value of the parameter called `name`.
pub fn value(name: &str) -> (s: Session)
    ensures
        s@ == Plan::value(name@),
{
    Session::Resolving { name: name.to_owned(), goal: Goal::Read { layout: None } }
}

/// Begins reading the value of the parameter at `oid`.
pub fn value_oid(oid: &mut Vec<i32>) -> (s: Session)
    ensures
        s@ == Plan::value_oid(old(oid)@),
        final(oid)@ == old(oid)@,
{
    Session::Declaring {
        oid: slice_to_vec(oid.as_slice()),
        purpose: Purpose::Read { layout: None },
    }
}

/// Begins reading the value of the parameter called `name` by `layout`.
/// Only a parameter that holds a run of bytes can be read so.
pub fn value_as(name: &str, layout: Layout) -> (s: Session)
    ensures
        s@ == Plan::value_as(name@, layout@),
{
    Session::Resolving { name: name.to_owned(), goal: Goal::Read { layout: Some(layout) } }
}

/// Begins reading the value of the parameter at `oid` by `layout`. Only a
/// parameter that holds a run of bytes can be read so.
pub fn value_oid_as(oid: &mut Vec<i32>, layout: Layout) -> (s: Session)
    ensures
        s@ == Plan::value_oid_as(old(oid)@, layout@),
        final(oid)@ == old(oid)@,
{
    Session::Declaring {
        oid: slice_to_vec(oid.as_slice()),
        purpose: Purpose::Read { layout: Some(layout) },
    }
}

/// Begins writing `value` to the parameter called `name`. The value must
/// be of the kind that the parameter declares. Once it is written, the
/// parameter is read again, and what it then holds is given.
pub fn set_value(name: &str, value: CtlValue) -> (s: Session)
    ensures
        s@ == Plan::set_value(name@, value@),
{
    Session::Resolving { name: name.to_owned(), goal: Goal::Assign { value } }
}

/// Begins reading the description of the parameter called `name`.
pub fn description(name: &str) -> (s: Session)
    ensures
        s@ == Plan::description(name@),
{
    Session::Resolving { name: name.to_owned(), goal: Goal::Describe }
}

} // verus!
