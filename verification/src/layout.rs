//! Fixed layouts: reading a run of bytes as a record of fields.

use crate::decode::{decode_plain, plain};
use crate::error::CtlError;
use crate::kind::CtlType;
use crate::value::{CtlValue, Value};
use vstd::prelude::*;
use vstd::slice::{slice_subrange, slice_to_vec};

verus! {

/// One field of a layout: where it begins, how many bytes it takes, and
/// the kind by whose rule the bytes are read.
#[derive(Debug, Clone, Copy, PartialEq, Eq, Structural)]
pub struct Field {
    pub offset: usize,
    pub width: usize,
    pub kind: CtlType,
}

impl Field {
    /// Whether this field lies within `size` bytes and has a reading that
    /// cannot fail: a run of bytes of any width, or an integer of exactly
    /// the width of its kind.
    pub open spec fn fits(self, size: nat) -> bool {
        &&& self.offset + self.width <= size
        &&& (self.kind.is_opaque() || self.kind.spec_width() == Some(self.width as nat))
    }

    /// Whether this field lies within `size` bytes and has a reading that
    /// cannot fail.
    pub fn check(&self, size: usize) -> (b: bool)
        ensures
            b == self.fits(size as nat),
    {
        let inside = match self.offset.checked_add(self.width) {
            Some(end) => end <= size,
            None => false,
        };
        let readable = match self.kind.width() {
            Some(w) => w == self.width,
            None => self.kind == CtlType::Node || self.kind == CtlType::Struct,
        };
        inside && readable
    }
}

/// A layout as a model sees it.
pub struct LayoutView {
    pub size: nat,
    pub fields: Seq<Field>,
}

impl LayoutView {
    /// Whether every field fits.
    pub open spec fn wf(self) -> bool {
        forall|i: int| 0 <= i < self.fields.len() ==> (#[trigger] self.fields[i]).fits(self.size)
    }

    /// Whether the fields before `index` all fit and the one at `index`
    /// does not.
    pub open spec fn first_misfit(self, index: int) -> bool {
        &&& 0 <= index < self.fields.len()
        &&& !self.fields[index].fits(self.size)
        &&& forall|i: int| 0 <= i < index ==> (#[trigger] self.fields[i]).fits(self.size)
    }
}

/// A fixed layout: a size in bytes and the fields that lie within it.
#[derive(Debug, PartialEq)]
pub struct Layout {
    size: usize,
    fields: Vec<Field>,
}

impl View for Layout {
    type V = LayoutView;

    closed spec fn view(&self) -> LayoutView {
        LayoutView { size: self.size as nat, fields: self.fields@ }
    }
}

impl Layout {
    #[verifier::type_invariant]
    spec fn well_formed(self) -> bool {
        self@.wf()
    }

    /// The layout of `size` bytes with the given fields. A field that does
    /// not fit is refused, the first such by its place.
    pub fn new(size: usize, fields: Vec<Field>) -> (r: Result<Layout, CtlError>)
        ensures
            r is Ok <==> (LayoutView { size: size as nat, fields: fields@ }).wf(),
            r matches Ok(layout) ==> layout@ == (LayoutView { size: size as nat, fields: fields@ }),
            r matches Err(e) ==> (e matches CtlError::InvalidLayout { field } && (LayoutView {
                size: size as nat,
                fields: fields@,
            }).first_misfit(field as int)),
    {
        let mut i: usize = 0;
        while i < fields.len()
            invariant
                i <= fields.len(),
                forall|k: int| 0 <= k < i ==> (#[trigger] fields@[k]).fits(size as nat),
            decreases fields.len() - i,
        {
            if !fields[i].check(size) {
                proof {
                    let view = LayoutView { size: size as nat, fields: fields@ };
                    assert(!view.fields[i as int].fits(view.size));
                }
                return Err(CtlError::InvalidLayout { field: i });
            }
            i = i + 1;
        }
        Ok(Layout { size, fields })
    }

    /// The number of bytes that the layout covers.
    pub fn size(&self) -> (n: usize)
        ensures
            n == self@.size,
    {
        self.size
    }

    /// The number of fields.
    pub fn field_count(&self) -> (n: usize)
        ensures
            n == self@.fields.len(),
    {
        self.fields.len()
    }

    /// The field at `index`, if there is one; it fits.
    pub fn field(&self, index: usize) -> (f: Option<Field>)
        ensures
            f == if index < self@.fields.len() {
                Some(self@.fields[index as int])
            } else {
                None
            },
            f matches Some(field) ==> field.fits(self@.size),
    {
        proof {
            use_type_invariant(self);
        }
        if index < self.fields.len() {
            Some(self.fields[index])
        } else {
            None
        }
    }
}

/// A record as a model sees it.
pub struct RecordView {
    pub layout: LayoutView,
    pub bytes: Seq<u8>,
}

impl RecordView {
    /// The bytes of the field at `index`.
    pub open spec fn field_bytes(self, index: int) -> Seq<u8> {
        let field = self.layout.fields[index];
        self.bytes.subrange(field.offset as int, field.offset + field.width)
    }

    /// The value of the field at `index`: its bytes, read by the rule of its
    /// kind.
    pub open spec fn field_value(self, index: int) -> Result<Value, CtlError> {
        plain(self.layout.fields[index].kind, self.field_bytes(index))
    }
}

/// A run of bytes together with the layout by which it is read. The bytes
/// are exactly as many as the layout covers.
#[derive(Debug, PartialEq)]
pub struct Record {
    layout: Layout,
    bytes: Vec<u8>,
}

impl View for Record {
    type V = RecordView;

    closed spec fn view(&self) -> RecordView {
        RecordView { layout: self.layout@, bytes: self.bytes@ }
    }
}

/// What comes of reading `value` by `layout`: a record of the value's own
/// bytes where it is a run of exactly as many bytes as the layout covers.
pub open spec fn extracted(layout: LayoutView, value: Value) -> Result<RecordView, CtlError> {
    match value {
        Value::Node(bytes) | Value::Struct(bytes) => if bytes.len() == layout.size {
            Ok(RecordView { layout, bytes })
        } else {
            Err(
                CtlError::SizeMismatch {
                    expected: layout.size as usize,
                    found: bytes.len() as usize,
                },
            )
        },
        _ => Err(CtlError::NotOpaque),
    }
}

/// The view of a record or of the error in its place.
pub open spec fn record_view(r: Result<Record, CtlError>) -> Result<RecordView, CtlError> {
    match r {
        Ok(record) => Ok(record@),
        Err(e) => Err(e),
    }
}

impl Record {
    #[verifier::type_invariant]
    spec fn well_formed(self) -> bool {
        self.layout@.wf() && self.bytes@.len() == self.layout@.size
    }

    /// The layout by which the bytes are read.
    pub fn layout(&self) -> (l: &Layout)
        ensures
            l@ == self@.layout,
    {
        &self.layout
    }

    /// The bytes, as many as the layout covers.
    pub fn bytes(&self) -> (b: &Vec<u8>)
        ensures
            b@ == self@.bytes,
            b@.len() == self@.layout.size,
    {
        proof {
            use_type_invariant(self);
        }
        &self.bytes
    }

    /// The bytes, for a record that is no longer needed.
    pub fn into_bytes(self) -> (b: Vec<u8>)
        ensures
            b@ == self@.bytes,
    {
        self.bytes
    }

    /// The value of the field at `index`, if there is such a field: the
    /// bytes from its offset on, as many as it is wide, read by the rule of
    /// its kind.
    pub fn get(&self, index: usize) -> (v: Option<CtlValue>)
        ensures
            index >= self@.layout.fields.len() ==> v is None,
            index < self@.layout.fields.len() ==> v is Some && Ok::<Value, CtlError>(v->Some_0@)
                == self@.field_value(index as int),
    {
        proof {
            use_type_invariant(self);
        }
        match self.layout.field(index) {
            Some(field) => {
                let part = slice_subrange(
                    self.bytes.as_slice(),
                    field.offset,
                    field.offset + field.width,
                );
                match decode_plain(field.kind, slice_to_vec(part)) {
                    Ok(value) => Some(value),
                    Err(_) => None,
                }
            },
            None => None,
        }
    }
}

/// Reads `value` by `layout`. Only a run of bytes can be read so, and only
/// one of exactly the layout's size: the record then owns those very bytes.
pub fn extract(layout: Layout, value: CtlValue) -> (r: Result<Record, CtlError>)
    ensures
        record_view(r) == extracted(layout@, value@),
{
    proof {
        use_type_invariant(&layout);
    }
    match value {
        CtlValue::Struct(bytes) => {
            if bytes.len() == layout.size() {
                Ok(Record { layout, bytes })
            } else {
                Err(CtlError::SizeMismatch { expected: layout.size(), found: bytes.len() })
            }
        },
        CtlValue::Node(bytes) => {
            if bytes.len() == layout.size() {
                Ok(Record { layout, bytes })
            } else {
                Err(CtlError::SizeMismatch { expected: layout.size(), found: bytes.len() })
            }
        },
        _ => Err(CtlError::NotOpaque),
    }
}

/// A run of bytes is read by a layout if and only if it is exactly as long
/// as the layout covers, and the record then holds the run unchanged:
/// nothing is cut off and nothing is added.
pub proof fn lemma_extract_exact_size(layout: LayoutView, bytes: Seq<u8>)
    ensures
        extracted(layout, Value::Struct(bytes)) is Ok <==> bytes.len() == layout.size,
        extracted(layout, Value::Node(bytes)) is Ok <==> bytes.len() == layout.size,
        bytes.len() == layout.size ==> extracted(layout, Value::Struct(bytes))->Ok_0.bytes
            == bytes && extracted(layout, Value::Node(bytes))->Ok_0.bytes == bytes,
{
}

/// Every field of a record over a well-formed layout has a value, and for
/// a field of an integer kind that value is of the field's kind.
pub proof fn lemma_field_has_value(record: RecordView, index: int)
    requires
        record.layout.wf(),
        record.bytes.len() == record.layout.size,
        0 <= index < record.layout.fields.len(),
    ensures
        record.field_value(index) is Ok,
        record.field_value(index)->Ok_0.kind() == record.layout.fields[index].kind,
        record.field_bytes(index).len() == record.layout.fields[index].width,
{
    let field = record.layout.fields[index];
    assert(field.fits(record.layout.size));
}

} // verus!
