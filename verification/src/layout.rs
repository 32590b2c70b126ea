//! The attribute layout of a vertex record: one binding per field, in
//! declaration order, at a running byte offset.

use crate::data::{pointer_for, AttribFormat, AttribPointer};
use vstd::prelude::*;
use vstd::string::StringExecFns;

verus! {

/// The value of a `name = value` annotation.
#[derive(Clone, Copy, Debug, PartialEq, Eq, Structural)]
pub enum AttrValue {
    /// An integer literal.
    Int(usize),
    /// An integer literal beyond what `usize` holds.
    TooLarge,
    /// Any other literal.
    Other,
}

/// One annotation on a field.
#[derive(Clone, Debug, PartialEq, Eq)]
pub enum Attr {
    /// `name = value`.
    NameValue { name: String, value: AttrValue },
    /// An annotation of another shape.
    Other,
}

/// One field of a record: its name, its annotations in source order, and the
/// packed format of its type.
#[derive(Clone, Debug, PartialEq, Eq)]
pub struct FieldDecl {
    pub name: String,
    pub attrs: Vec<Attr>,
    pub format: AttribFormat,
}

/// The shape of a record's definition.
#[derive(Clone, Debug, PartialEq, Eq)]
pub enum RecordData {
    /// A sum type.
    Enum,
    /// An untagged union.
    Union,
    /// A struct with positional fields.
    TupleStruct,
    /// A struct without a field list.
    UnitStruct,
    /// A struct with a list of named fields, which may be empty.
    Struct { fields: Vec<FieldDecl> },
}

/// A record definition: its name and its shape.
#[derive(Clone, Debug, PartialEq, Eq)]
pub struct RecordDecl {
    pub name: String,
    pub data: RecordData,
}

/// The bindings of one record.
#[derive(Clone, Debug, PartialEq, Eq)]
pub struct VertexLayout {
    /// Name of the record.
    pub name: String,
    /// Size of one record in bytes.
    pub stride: usize,
    /// One binding per field, in declaration order.
    pub pointers: Vec<AttribPointer>,
}

/// Why no layout can be generated for a record.
#[derive(Clone, Debug, PartialEq, Eq)]
pub enum LayoutError {
    /// The record is a sum type.
    Enum,
    /// The record is a union.
    Union,
    /// The record is a tuple struct.
    TupleStruct,
    /// The record is a unit struct.
    UnitStruct,
    /// The record is a struct whose field list is empty.
    EmptyStruct,
    /// The named field has no `location` annotation.
    MissingLocation { field: String },
    /// A field's `location` is not an integer literal.
    LocationNotInteger,
    /// A field's `location` is an integer beyond what `usize` holds.
    LocationTooLarge,
}

/// `LayoutError` with the field name as a sequence of characters.
pub enum LayoutErrorView {
    Enum,
    Union,
    TupleStruct,
    UnitStruct,
    EmptyStruct,
    MissingLocation { field: Seq<char> },
    LocationNotInteger,
    LocationTooLarge,
}

impl View for LayoutError {
    type V = LayoutErrorView;

    open spec fn view(&self) -> LayoutErrorView {
        match *self {
            LayoutError::Enum => LayoutErrorView::Enum,
            LayoutError::Union => LayoutErrorView::Union,
            LayoutError::TupleStruct => LayoutErrorView::TupleStruct,
            LayoutError::UnitStruct => LayoutErrorView::UnitStruct,
            LayoutError::EmptyStruct => LayoutErrorView::EmptyStruct,
            LayoutError::MissingLocation { field } => LayoutErrorView::MissingLocation {
                field: field@,
            },
            LayoutError::LocationNotInteger => LayoutErrorView::LocationNotInteger,
            LayoutError::LocationTooLarge => LayoutErrorView::LocationTooLarge,
        }
    }
}

/// The text that `{:?}` formatting gives for a string: the string in double
/// quotes, with the characters escaped that Rust escapes in a literal.
pub uninterp spec fn debug_text(text: Seq<char>) -> Seq<char>;

/// Calls `format!` with `{:?}` on `text`: the result is the debug form of
/// these characters.
#[verifier::external_body]
fn quoted(text: &String) -> (r: String)
    ensures
        r@ == debug_text(text@),
{
    format!("{:?}", text)
}

/// The diagnostic for a field without a slot, given the field's name in its
/// quoted form.
pub open spec fn missing_location_text(quoted_name: Seq<char>) -> Seq<char> {
    "Field "@ + quoted_name + " missing location attribute"@
}

/// The diagnostic for a field without a slot, given the field's name in its
/// quoted form.
pub fn missing_location_message(quoted_name: &str) -> (r: String)
    ensures
        r@ == missing_location_text(quoted_name@),
{
    String::from_str("Field ").concat(quoted_name).concat(" missing location attribute")
}

impl LayoutErrorView {
    /// The diagnostic of the error. It names the unsupported shape, or the
    /// field without a slot, or says that a slot must be an integer.
    pub open spec fn message(self) -> Seq<char> {
        match self {
            LayoutErrorView::Enum => "VertexAttribPointers not implemented for Enums"@,
            LayoutErrorView::Union => "VertexAttribPointers not implemented for Unions"@,
            LayoutErrorView::TupleStruct => "VertexAttribPointers not implemented for tuple Structs"@,
            LayoutErrorView::UnitStruct => "VertexAttribPointers not implemented for unit Structs"@,
            LayoutErrorView::EmptyStruct => "VertexAttribPointers not implemented for empty Structs"@,
            LayoutErrorView::MissingLocation { field } => missing_location_text(
                debug_text(field),
            ),
            LayoutErrorView::LocationNotInteger => "Location attribute must be an integer"@,
            LayoutErrorView::LocationTooLarge => "Location attribute is too large for an attribute slot"@,
        }
    }
}

impl LayoutError {
    /// The diagnostic of the error.
    pub fn message(&self) -> (r: String)
        ensures
            r@ == self@.message(),
    {
        match self {
            LayoutError::Enum => String::from_str("VertexAttribPointers not implemented for Enums"),
            LayoutError::Union => String::from_str(
                "VertexAttribPointers not implemented for Unions",
            ),
            LayoutError::TupleStruct => String::from_str(
                "VertexAttribPointers not implemented for tuple Structs",
            ),
            LayoutError::UnitStruct => String::from_str(
                "VertexAttribPointers not implemented for unit Structs",
            ),
            LayoutError::EmptyStruct => String::from_str(
                "VertexAttribPointers not implemented for empty Structs",
            ),
            LayoutError::MissingLocation { field } => {
                let name = quoted(field);
                missing_location_message(name.as_str())
            },
            LayoutError::LocationNotInteger => String::from_str(
                "Location attribute must be an integer",
            ),
            LayoutError::LocationTooLarge => String::from_str(
                "Location attribute is too large for an attribute slot",
            ),
        }
    }
}

/// The name of the annotation that carries a field's attribute slot.
pub open spec fn location_name() -> Seq<char> {
    "location"@
}

/// The value of `attr` if it is `name = value`, else nothing.
pub open spec fn attr_value(attr: Attr, name: Seq<char>) -> Option<AttrValue> {
    match attr {
        Attr::NameValue { name: n, value } => if n@ == name {
            Some(value)
        } else {
            None
        },
        Attr::Other => None,
    }
}

/// The value of the first annotation among `attrs` that is `name = value`.
pub open spec fn first_attr_value(attrs: Seq<Attr>, name: Seq<char>) -> Option<AttrValue>
    decreases attrs.len(),
{
    if attrs.len() == 0 {
        None
    } else if attr_value(attrs[0], name).is_some() {
        attr_value(attrs[0], name)
    } else {
        first_attr_value(attrs.skip(1), name)
    }
}

/// The attribute slot that the annotations `attrs` give the field called
/// `name`, or why they give none: the value of the first `location`
/// annotation, which must be an integer literal that `usize` holds.
pub open spec fn slot_of(name: Seq<char>, attrs: Seq<Attr>) -> Result<usize, LayoutErrorView> {
    match first_attr_value(attrs, location_name()) {
        None => Err(LayoutErrorView::MissingLocation { field: name }),
        Some(AttrValue::Other) => Err(LayoutErrorView::LocationNotInteger),
        Some(AttrValue::TooLarge) => Err(LayoutErrorView::LocationTooLarge),
        Some(AttrValue::Int(slot)) => Ok(slot),
    }
}

/// The attribute slot of a field, or why it has none.
pub open spec fn field_location(field: FieldDecl) -> Result<usize, LayoutErrorView> {
    slot_of(field.name@, field.attrs@)
}

/// Byte offset of field `i`: the sizes of the fields before it, added up.
/// With `i` the number of fields, the size of a whole record.
pub open spec fn offset_of(fields: Seq<FieldDecl>, i: int) -> int
    decreases i,
{
    if i <= 0 {
        0
    } else {
        offset_of(fields, i - 1) + fields[i - 1].format.size
    }
}

/// Size of one record: its fields are packed without padding.
pub open spec fn record_size(fields: Seq<FieldDecl>) -> int {
    offset_of(fields, fields.len() as int)
}

/// Every field's format is usable.
pub open spec fn fields_wf(fields: Seq<FieldDecl>) -> bool {
    forall|i: int| 0 <= i < fields.len() ==> (#[trigger] fields[i]).format.wf()
}

/// The binding of field `i` in records `stride` bytes apart: meaningful where
/// the field has an integer slot.
pub open spec fn field_pointer(fields: Seq<FieldDecl>, stride: usize, i: int) -> AttribPointer {
    pointer_for(
        fields[i].format,
        stride,
        field_location(fields[i])->Ok_0,
        offset_of(fields, i) as usize,
    )
}

/// `pointers` are the bindings of the first `n` fields, in order.
pub open spec fn is_layout_prefix(
    fields: Seq<FieldDecl>,
    stride: usize,
    pointers: Seq<AttribPointer>,
    n: int,
) -> bool {
    &&& pointers.len() == n
    &&& forall|i: int| 0 <= i < n ==> #[trigger] pointers[i] == field_pointer(fields, stride, i)
}

/// Field `k` is the first one without an integer slot.
pub open spec fn first_failure(fields: Seq<FieldDecl>, k: int) -> bool {
    &&& 0 <= k < fields.len()
    &&& field_location(fields[k]).is_err()
    &&& forall|i: int| 0 <= i < k ==> (#[trigger] field_location(fields[i])).is_ok()
}

/// What generation gives for the fields of a struct that has at least one,
/// in records `stride` bytes apart: the error of the first field that has no
/// integer slot, or one binding per field.
pub open spec fn fields_outcome(
    fields: Seq<FieldDecl>,
    stride: usize,
    r: Result<Seq<AttribPointer>, LayoutErrorView>,
) -> bool {
    match r {
        Ok(pointers) => {
            &&& fields.len() >= 1
            &&& forall|i: int|
                0 <= i < fields.len() ==> (#[trigger] field_location(fields[i])).is_ok()
            &&& is_layout_prefix(fields, stride, pointers, fields.len() as int)
        },
        Err(e) => exists|k: int| #[trigger]
            first_failure(fields, k) && field_location(fields[k]) == Err::<usize, _>(e),
    }
}

/// The error for a record whose shape has no layout: anything but a struct
/// with at least one named field.
pub open spec fn shape_error(data: RecordData) -> Option<LayoutErrorView> {
    match data {
        RecordData::Enum => Some(LayoutErrorView::Enum),
        RecordData::Union => Some(LayoutErrorView::Union),
        RecordData::TupleStruct => Some(LayoutErrorView::TupleStruct),
        RecordData::UnitStruct => Some(LayoutErrorView::UnitStruct),
        RecordData::Struct { fields } => if fields@.len() == 0 {
            Some(LayoutErrorView::EmptyStruct)
        } else {
            None
        },
    }
}

/// What generation gives for a record of any shape: the shape's error for
/// anything but a struct with at least one named field, else what its fields
/// give.
pub open spec fn data_outcome(
    data: RecordData,
    stride: usize,
    r: Result<Seq<AttribPointer>, LayoutErrorView>,
) -> bool {
    match shape_error(data) {
        Some(e) => r == Err::<Seq<AttribPointer>, _>(e),
        None => fields_outcome(data->fields@, stride, r),
    }
}

/// Views a generation result: bindings as a sequence, the error by its view.
pub open spec fn result_view(r: Result<Vec<AttribPointer>, LayoutError>) -> Result<
    Seq<AttribPointer>,
    LayoutErrorView,
> {
    match r {
        Ok(v) => Ok(v@),
        Err(e) => Err(e@),
    }
}

/// The value of `attr` if it is a `name = value` annotation called `name`.
pub fn get_attr_value(attr: &Attr, name: &str) -> (r: Option<AttrValue>)
    ensures
        r == attr_value(*attr, name@),
{
    match attr {
        Attr::NameValue { name: n, value } => {
            let wanted = String::from_str(name);
            if *n == wanted {
                Some(*value)
            } else {
                None
            }
        },
        Attr::Other => None,
    }
}

/// The value of the first annotation of `field` that is `name = value`.
pub fn find_attr_value(attrs: &Vec<Attr>, name: &str) -> (r: Option<AttrValue>)
    ensures
        r == first_attr_value(attrs@, name@),
{
    let mut i: usize = 0;
    assert(attrs@.skip(0) =~= attrs@);
    while i < attrs.len()
        invariant
            0 <= i <= attrs.len(),
            first_attr_value(attrs@, name@) == first_attr_value(attrs@.skip(i as int), name@),
        decreases attrs.len() - i,
    {
        let found = get_attr_value(&attrs[i], name);
        proof {
            let rest = attrs@.skip(i as int);
            assert(rest[0] == attrs@[i as int]);
            assert(rest.skip(1) =~= attrs@.skip(i + 1));
        }
        if found.is_some() {
            return found;
        }
        i += 1;
    }
    None
}

/// The attribute slot that the annotations `attrs` give the field called
/// `name`: the value of the first `location` annotation. Without one the
/// error names the field; a value that is no integer literal, or one beyond
/// `usize`, has an error of its own.
pub fn field_slot(name: &String, attrs: &Vec<Attr>) -> (r: Result<usize, LayoutError>)
    ensures
        match r {
            Ok(slot) => slot_of(name@, attrs@) == Ok::<usize, LayoutErrorView>(slot),
            Err(e) => slot_of(name@, attrs@) == Err::<usize, _>(e@),
        },
{
    match find_attr_value(attrs, "location") {
        None => Err(LayoutError::MissingLocation { field: name.clone() }),
        Some(AttrValue::Other) => Err(LayoutError::LocationNotInteger),
        Some(AttrValue::TooLarge) => Err(LayoutError::LocationTooLarge),
        Some(AttrValue::Int(slot)) => Ok(slot),
    }
}

/// The binding of one field at `offset` in records `stride` bytes apart. The
/// field needs a `location` annotation, and its value must be an integer
/// literal: the slot.
pub fn generate_struct_field_vertex_attrib_pointer_call(
    field: &FieldDecl,
    stride: usize,
    offset: usize,
) -> (r: Result<AttribPointer, LayoutError>)
    ensures
        match r {
            Ok(p) => field_location(*field) is Ok && p == pointer_for(
                field.format,
                stride,
                field_location(*field)->Ok_0,
                offset,
            ),
            Err(e) => field_location(*field) == Err::<usize, _>(e@),
        },
{
    match field_slot(&field.name, &field.attrs) {
        Err(e) => Err(e),
        Ok(slot) => Ok(field.format.vertex_attrib_pointer(stride, slot, offset)),
    }
}

/// The bindings of a record in records `stride` bytes apart: one per field
/// in declaration order, the first at offset zero, each next one further by
/// the size of the field before it. Only a struct with named fields has a
/// layout, and only if it has a field and every field has an integer
/// `location`; the error is that of the first field without one.
pub fn generate_vertex_attrib_pointer_calls(data: &RecordData, stride: usize) -> (r: Result<
    Vec<AttribPointer>,
    LayoutError,
>)
    requires
        data matches RecordData::Struct { fields } ==> record_size(fields@) <= usize::MAX,
    ensures
        data_outcome(*data, stride, result_view(r)),
{
    match data {
        RecordData::Enum => Err(LayoutError::Enum),
        RecordData::Union => Err(LayoutError::Union),
        RecordData::TupleStruct => Err(LayoutError::TupleStruct),
        RecordData::UnitStruct => Err(LayoutError::UnitStruct),
        RecordData::Struct { fields } => {
            if fields.len() == 0 {
                return Err(LayoutError::EmptyStruct);
            }
            let mut pointers: Vec<AttribPointer> = Vec::new();
            let mut offset: usize = 0;
            let mut i: usize = 0;
            while i < fields.len()
                invariant
                    0 <= i <= fields.len(),
                    *data is Struct && data->fields == *fields,
                    record_size(fields@) <= usize::MAX,
                    offset == offset_of(fields@, i as int),
                    is_layout_prefix(fields@, stride, pointers@, i as int),
                    forall|j: int| 0 <= j < i ==> (#[trigger] field_location(fields@[j])).is_ok(),
                decreases fields.len() - i,
            {
                proof {
                    lemma_offsets_monotone(fields@, i as int + 1, fields@.len() as int);
                }
                match generate_struct_field_vertex_attrib_pointer_call(&fields[i], stride, offset) {
                    Err(e) => {
                        assert(first_failure(fields@, i as int));
                        return Err(e);
                    },
                    Ok(p) => {
                        pointers.push(p);
                    },
                }
                offset = offset + fields[i].format.size;
                i += 1;
            }
            Ok(pointers)
        },
    }
}

/// The size of a struct's record, zero for any other shape.
pub open spec fn stride_of(data: RecordData) -> int {
    match data {
        RecordData::Struct { fields } => record_size(fields@),
        _ => 0,
    }
}

/// The size of one record of `data`, the sizes of its fields added up, or
/// nothing where that size is beyond what `usize` holds.
pub fn checked_record_stride(data: &RecordData) -> (r: Option<usize>)
    ensures
        match r {
            Some(stride) => stride == stride_of(*data),
            None => stride_of(*data) > usize::MAX,
        },
{
    match data {
        RecordData::Struct { fields } => {
            let mut total: usize = 0;
            let mut i: usize = 0;
            while i < fields.len()
                invariant
                    0 <= i <= fields.len(),
                    *data is Struct && data->fields == *fields,
                    total == offset_of(fields@, i as int),
                decreases fields.len() - i,
            {
                let size: usize = fields[i].format.size;
                if size > usize::MAX - total {
                    proof {
                        lemma_offsets_monotone(fields@, i as int + 1, fields@.len() as int);
                    }
                    return None;
                }
                total = total + size;
                i += 1;
            }
            Some(total)
        },
        _ => Some(0),
    }
}

/// The size of one record of `data`: the sizes of its fields added up.
pub fn record_stride(data: &RecordData) -> (r: usize)
    requires
        stride_of(*data) <= usize::MAX,
    ensures
        r == stride_of(*data),
{
    match data {
        RecordData::Struct { fields } => {
            let mut total: usize = 0;
            let mut i: usize = 0;
            while i < fields.len()
                invariant
                    0 <= i <= fields.len(),
                    record_size(fields@) <= usize::MAX,
                    total == offset_of(fields@, i as int),
                decreases fields.len() - i,
            {
                proof {
                    lemma_offsets_monotone(fields@, i as int + 1, fields@.len() as int);
                }
                total = total + fields[i].format.size;
                i += 1;
            }
            total
        },
        _ => 0,
    }
}

/// The layout of a record: its bindings, with the record's own size as the
/// stride.
pub fn generate_impl(ast: &RecordDecl) -> (r: Result<VertexLayout, LayoutError>)
    requires
        stride_of(ast.data) <= usize::MAX,
    ensures
        match r {
            Ok(layout) => {
                &&& layout.name@ == ast.name@
                &&& layout.stride == stride_of(ast.data)
                &&& data_outcome(ast.data, layout.stride, Ok(layout.pointers@))
            },
            Err(e) => data_outcome(ast.data, stride_of(ast.data) as usize, Err(e@)),
        },
{
    let stride: usize = record_stride(&ast.data);
    match generate_vertex_attrib_pointer_calls(&ast.data, stride) {
        Ok(pointers) => Ok(VertexLayout { name: ast.name.clone(), stride, pointers }),
        Err(e) => Err(e),
    }
}

/// Offsets never go down along the fields.
pub proof fn lemma_offsets_monotone(fields: Seq<FieldDecl>, i: int, j: int)
    requires
        0 <= i <= j,
    ensures
        0 <= offset_of(fields, i) <= offset_of(fields, j),
    decreases j,
{
    if j > 0 {
        if i < j {
            lemma_offsets_monotone(fields, i, j - 1);
        } else {
            lemma_offsets_monotone(fields, i - 1, j - 1);
        }
    }
}

/// The offsets of a record start at zero and strictly increase from field to
/// field, and the last field ends where the record ends: its offset plus its
/// size is the stride.
pub proof fn lemma_offsets_increase(fields: Seq<FieldDecl>, i: int, j: int)
    requires
        fields_wf(fields),
        0 <= i < j <= fields.len(),
    ensures
        offset_of(fields, 0) == 0,
        offset_of(fields, i) < offset_of(fields, j),
        offset_of(fields, fields.len() - 1) + fields.last().format.size == record_size(fields),
    decreases j,
{
    assert(fields[j - 1].format.wf());
    if i < j - 1 {
        lemma_offsets_increase(fields, i, j - 1);
    }
}

/// The offsets that generation emits for a record whose formats are usable:
/// the first is zero, each is greater than the one before, and the last
/// plus the size of the last field is the size of the record.
pub proof fn lemma_emitted_offsets(
    fields: Seq<FieldDecl>,
    stride: usize,
    pointers: Seq<AttribPointer>,
    i: int,
    j: int,
)
    requires
        fields_wf(fields),
        record_size(fields) <= usize::MAX,
        is_layout_prefix(fields, stride, pointers, fields.len() as int),
        0 <= i < j < fields.len(),
    ensures
        pointers[0].offset == 0,
        pointers[i].offset < pointers[j].offset,
        pointers.last().offset + fields.last().format.size == record_size(fields),
{
    let n = fields.len() as int;
    lemma_offsets_increase(fields, i, j);
    lemma_offsets_monotone(fields, i, j);
    lemma_offsets_monotone(fields, j, n);
    lemma_offsets_monotone(fields, n - 1, n);
    assert(pointers[0] == field_pointer(fields, stride, 0));
    assert(pointers[i] == field_pointer(fields, stride, i));
    assert(pointers[j] == field_pointer(fields, stride, j));
    assert(pointers[n - 1] == field_pointer(fields, stride, n - 1));
}

} // verus!
