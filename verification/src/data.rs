//! Packed vertex formats and the way each one is described to the GPU.

use vstd::prelude::*;
use vstd::std_specs::convert::FromSpecImpl;
use vstd::string::StringExecFns;

verus! {

/// Largest value of a ten-bit lane.
pub const LANE10_MAX: u32 = 1023;

/// Largest value of the two-bit lane.
pub const LANE2_MAX: u32 = 3;

/// Primitive encoding of the components of one attribute.
#[derive(Clone, Copy, Debug, PartialEq, Eq, Structural)]
pub enum ElementType {
    /// 32-bit floating point components.
    Float,
    /// Four components in one 32-bit word, 10/10/10/2 bits from the low end.
    UnsignedInt2101010Rev,
}

/// What a packed format tells the GPU about itself, wherever it is placed.
#[derive(Clone, Copy, Debug, PartialEq, Eq, Structural)]
pub struct AttribFormat {
    /// Number of components.
    pub components: i32,
    /// Encoding of the components.
    pub element: ElementType,
    /// Whether integer values are mapped to `[0, 1]` when read.
    pub normalized: bool,
    /// Bytes that one value takes in a vertex buffer.
    pub size: usize,
}

/// One attribute binding: the slot to enable and the arguments that describe
/// the attribute's data to the GPU, each in the form the driver takes.
#[derive(Clone, Copy, Debug, PartialEq, Eq, Structural)]
pub struct AttribPointer {
    /// Attribute slot.
    pub location: u32,
    /// Number of components.
    pub components: i32,
    /// Enumerant of the components' encoding.
    pub element_type: u32,
    /// The driver's boolean: one if integer values are mapped to `[0, 1]`
    /// when read, else zero.
    pub normalized: u8,
    /// Bytes between the starts of consecutive records.
    pub stride: i32,
    /// Byte offset of the attribute inside a record.
    pub offset: usize,
}

/// Reads `gl::FLOAT`, the enumerant of 32-bit float components: 0x1406.
#[verifier::external_body]
fn gl_float() -> (r: u32)
    ensures
        r == 0x1406,
{
    gl::FLOAT
}

/// Reads `gl::UNSIGNED_INT_2_10_10_10_REV`, the enumerant of four components
/// packed 10/10/10/2 into one word from the low end: 0x8368.
#[verifier::external_body]
fn gl_unsigned_int_2_10_10_10_rev() -> (r: u32)
    ensures
        r == 0x8368,
{
    gl::UNSIGNED_INT_2_10_10_10_REV
}

/// Reads `gl::TRUE`, the driver's boolean for true: one.
#[verifier::external_body]
fn gl_true() -> (r: u8)
    ensures
        r == 1,
{
    gl::TRUE
}

/// Reads `gl::FALSE`, the driver's boolean for false: zero.
#[verifier::external_body]
fn gl_false() -> (r: u8)
    ensures
        r == 0,
{
    gl::FALSE
}

impl ElementType {
    /// The enumerant by which the driver knows the encoding.
    pub open spec fn spec_gl_enum(self) -> u32 {
        match self {
            ElementType::Float => 0x1406,
            ElementType::UnsignedInt2101010Rev => 0x8368,
        }
    }

    /// The enumerant by which the driver knows the encoding.
    pub fn gl_enum(&self) -> (r: u32)
        ensures
            r == self.spec_gl_enum(),
    {
        match self {
            ElementType::Float => gl_float(),
            ElementType::UnsignedInt2101010Rev => gl_unsigned_int_2_10_10_10_rev(),
        }
    }
}

/// The driver's boolean for `flag`: one for true, zero for false.
pub open spec fn spec_gl_boolean(flag: bool) -> u8 {
    if flag {
        1
    } else {
        0
    }
}

/// The driver's boolean for `flag`.
pub fn gl_boolean(flag: bool) -> (r: u8)
    ensures
        r == spec_gl_boolean(flag),
{
    if flag {
        gl_true()
    } else {
        gl_false()
    }
}

/// The binding of `format` at `location`, `stride` and `offset`. Slot and
/// stride are narrowed to the driver's 32-bit types and keep their low bits.
pub open spec fn pointer_for(
    format: AttribFormat,
    stride: usize,
    location: usize,
    offset: usize,
) -> AttribPointer {
    AttribPointer {
        location: location as u32,
        components: format.components,
        element_type: format.element.spec_gl_enum(),
        normalized: spec_gl_boolean(format.normalized),
        stride: stride as i32,
        offset,
    }
}

impl AttribFormat {
    /// A format is usable in a record when it has components and takes room.
    pub open spec fn wf(self) -> bool {
        1 <= self.components <= 4 && self.size > 0
    }

    /// Three 32-bit floats, not normalized, twelve bytes.
    pub open spec fn spec_f32_f32_f32() -> AttribFormat {
        AttribFormat { components: 3, element: ElementType::Float, normalized: false, size: 12 }
    }

    /// Four normalized components in one 32-bit word, four bytes.
    pub open spec fn spec_u2_u10_u10_u10_rev_float() -> AttribFormat {
        AttribFormat {
            components: 4,
            element: ElementType::UnsignedInt2101010Rev,
            normalized: true,
            size: 4,
        }
    }

    /// The format of a triple of 32-bit floats.
    pub fn f32_f32_f32() -> (r: AttribFormat)
        ensures
            r == Self::spec_f32_f32_f32(),
            r.wf(),
    {
        AttribFormat { components: 3, element: ElementType::Float, normalized: false, size: 12 }
    }

    /// The format of the 10/10/10/2 quantized word.
    pub fn u2_u10_u10_u10_rev_float() -> (r: AttribFormat)
        ensures
            r == Self::spec_u2_u10_u10_u10_rev_float(),
            r.wf(),
    {
        AttribFormat {
            components: 4,
            element: ElementType::UnsignedInt2101010Rev,
            normalized: true,
            size: 4,
        }
    }

    /// Describes an attribute of this format placed at `offset` in records
    /// that are `stride` bytes apart, read through slot `location`.
    pub fn vertex_attrib_pointer(&self, stride: usize, location: usize, offset: usize) -> (r:
        AttribPointer)
        ensures
            r == pointer_for(*self, stride, location, offset),
            location <= u32::MAX ==> r.location == location,
            stride <= i32::MAX ==> r.stride == stride,
    {
        AttribPointer {
            location: #[verifier::truncate] (location as u32),
            components: self.components,
            element_type: self.element.gl_enum(),
            normalized: gl_boolean(self.normalized),
            stride: #[verifier::truncate] (stride as i32),
            offset,
        }
    }
}

/// The packed format that a type name stands for: the two formats of this
/// library under their own names, and nothing for any other name.
pub open spec fn spec_format_by_name(name: Seq<char>) -> Option<AttribFormat> {
    if name == "f32_f32_f32"@ {
        Some(AttribFormat::spec_f32_f32_f32())
    } else if name == "u2_u10_u10_u10_rev_float"@ {
        Some(AttribFormat::spec_u2_u10_u10_u10_rev_float())
    } else {
        None
    }
}

/// The packed format that a type name stands for, if it is one of this
/// library's.
pub fn format_by_name(name: &str) -> (r: Option<AttribFormat>)
    ensures
        r == spec_format_by_name(name@),
{
    let wanted = String::from_str(name);
    if wanted == String::from_str("f32_f32_f32") {
        Some(AttribFormat::f32_f32_f32())
    } else if wanted == String::from_str("u2_u10_u10_u10_rev_float") {
        Some(AttribFormat::u2_u10_u10_u10_rev_float())
    } else {
        None
    }
}

/// `v` held to at most `max`.
pub open spec fn clamp_lane(v: u32, max: u32) -> u32 {
    if v > max {
        max
    } else {
        v
    }
}

/// The word whose lanes, from the low end, are `x`, `y`, `z` (ten bits each)
/// and `w` (two bits).
pub open spec fn packed_word(x: u32, y: u32, z: u32, w: u32) -> int {
    x + y * 0x400 + z * 0x10_0000 + w * 0x4000_0000
}

/// Calls `num::clamp`: the input where it lies between the bounds, else the
/// bound it passed. The bounds must be ordered, as the callee asserts.
#[verifier::external_body]
fn clamp(input: u32, min: u32, max: u32) -> (r: u32)
    requires
        min <= max,
    ensures
        r == if input < min {
            min
        } else if input > max {
            max
        } else {
            input
        },
{
    num::clamp(input, min, max)
}

/// Four quantized components in one 32-bit word: `x`, `y` and `z` in ten bits
/// each from the low end, `w` in the two highest bits.
#[allow(non_camel_case_types)]
#[derive(Clone, Copy, Debug, PartialEq, Eq)]
pub struct u2_u10_u10_u10_rev_float {
    data: u32,
}

impl u2_u10_u10_u10_rev_float {
    /// The packed word.
    pub closed spec fn word(self) -> u32 {
        self.data
    }

    /// Lane `x`: bits 0 to 9.
    pub open spec fn lane_x(self) -> int {
        self.word() as int % 0x400
    }

    /// Lane `y`: bits 10 to 19.
    pub open spec fn lane_y(self) -> int {
        (self.word() as int / 0x400) % 0x400
    }

    /// Lane `z`: bits 20 to 29.
    pub open spec fn lane_z(self) -> int {
        (self.word() as int / 0x10_0000) % 0x400
    }

    /// Lane `w`: bits 30 and 31.
    pub open spec fn lane_w(self) -> int {
        self.word() as int / 0x4000_0000
    }

    /// The value that packs the four components, each held to its lane's
    /// range.
    pub closed spec fn spec_new(x: u32, y: u32, z: u32, w: u32) -> Self {
        u2_u10_u10_u10_rev_float {
            data: packed_word(
                clamp_lane(x, LANE10_MAX),
                clamp_lane(y, LANE10_MAX),
                clamp_lane(z, LANE10_MAX),
                clamp_lane(w, LANE2_MAX),
            ) as u32,
        }
    }

    /// Packs four quantized components. Each is first held to its lane's
    /// range (1023 for `x`, `y`, `z`; 3 for `w`), so that no component
    /// reaches into another lane.
    pub fn new(x: u32, y: u32, z: u32, w: u32) -> (r: u2_u10_u10_u10_rev_float)
        ensures
            r == Self::spec_new(x, y, z, w),
            r.word() == packed_word(
                clamp_lane(x, LANE10_MAX),
                clamp_lane(y, LANE10_MAX),
                clamp_lane(z, LANE10_MAX),
                clamp_lane(w, LANE2_MAX),
            ),
            r.lane_x() == clamp_lane(x, LANE10_MAX),
            r.lane_y() == clamp_lane(y, LANE10_MAX),
            r.lane_z() == clamp_lane(z, LANE10_MAX),
            r.lane_w() == clamp_lane(w, LANE2_MAX),
    {
        let x: u32 = clamp(x, 0, LANE10_MAX);
        let y: u32 = clamp(y, 0, LANE10_MAX);
        let z: u32 = clamp(z, 0, LANE10_MAX);
        let w: u32 = clamp(w, 0, LANE2_MAX);

        let mut c: u32 = 0;
        c |= w << 30;
        c |= z << 20;
        c |= y << 10;
        c |= x << 0;
        proof {
            assert(x <= 1023 && y <= 1023 && z <= 1023 && w <= 3 ==> (((0u32 | (w << 30)) | (z
                << 20)) | (y << 10)) | (x << 0) == x + y * 0x400 + z * 0x10_0000 + w
                * 0x4000_0000) by (bit_vector);
            lemma_pack_unpack(x, y, z, w);
        }
        u2_u10_u10_u10_rev_float { data: c }
    }

    /// The packed word, as it is laid out in a vertex buffer.
    pub fn bits(&self) -> (r: u32)
        ensures
            r == self.word(),
    {
        self.data
    }

    /// Lane `x`.
    pub fn x(&self) -> (r: u32)
        ensures
            r == self.lane_x(),
            r <= LANE10_MAX,
    {
        let d: u32 = self.data;
        assert(d & 0x3ff == d % 0x400) by (bit_vector);
        d & 0x3ff
    }

    /// Lane `y`.
    pub fn y(&self) -> (r: u32)
        ensures
            r == self.lane_y(),
            r <= LANE10_MAX,
    {
        let d: u32 = self.data;
        assert((d >> 10) & 0x3ff == (d / 0x400) % 0x400) by (bit_vector);
        (d >> 10) & 0x3ff
    }

    /// Lane `z`.
    pub fn z(&self) -> (r: u32)
        ensures
            r == self.lane_z(),
            r <= LANE10_MAX,
    {
        let d: u32 = self.data;
        assert((d >> 20) & 0x3ff == (d / 0x10_0000) % 0x400) by (bit_vector);
        (d >> 20) & 0x3ff
    }

    /// Lane `w`.
    pub fn w(&self) -> (r: u32)
        ensures
            r == self.lane_w(),
            r <= LANE2_MAX,
    {
        let d: u32 = self.data;
        assert(d >> 30 == d / 0x4000_0000) by (bit_vector);
        assert(d >> 30 <= 3) by (bit_vector);
        d >> 30
    }

    /// Describes an attribute of this format to the GPU: four components,
    /// packed 10/10/10/2, normalized.
    pub fn vertex_attrib_pointer(stride: usize, location: usize, offset: usize) -> (r:
        AttribPointer)
        ensures
            r == pointer_for(
                AttribFormat::spec_u2_u10_u10_u10_rev_float(),
                stride,
                location,
                offset,
            ),
    {
        AttribFormat::u2_u10_u10_u10_rev_float().vertex_attrib_pointer(stride, location, offset)
    }
}

impl From<(u32, u32, u32, u32)> for u2_u10_u10_u10_rev_float {
    fn from(other: (u32, u32, u32, u32)) -> (r: Self) {
        u2_u10_u10_u10_rev_float::new(other.0, other.1, other.2, other.3)
    }
}

impl FromSpecImpl<(u32, u32, u32, u32)> for u2_u10_u10_u10_rev_float {
    open spec fn obeys_from_spec() -> bool {
        true
    }

    open spec fn from_spec(other: (u32, u32, u32, u32)) -> Self {
        Self::spec_new(other.0, other.1, other.2, other.3)
    }
}

/// Three 32-bit floats, each held as its IEEE 754 bit pattern, in the order
/// in which they lie in a vertex buffer.
#[allow(non_camel_case_types)]
#[derive(Clone, Copy, Debug, PartialEq, Eq, Structural)]
pub struct f32_f32_f32 {
    pub x: u32,
    pub y: u32,
    pub z: u32,
}

impl f32_f32_f32 {
    /// The triple of the three bit patterns.
    pub fn new(x: u32, y: u32, z: u32) -> (r: Self)
        ensures
            r == (f32_f32_f32 { x, y, z }),
    {
        f32_f32_f32 { x, y, z }
    }

    /// Describes an attribute of this format to the GPU: three float
    /// components, not normalized.
    pub fn vertex_attrib_pointer(stride: usize, location: usize, offset: usize) -> (r:
        AttribPointer)
        ensures
            r == pointer_for(AttribFormat::spec_f32_f32_f32(), stride, location, offset),
    {
        AttribFormat::f32_f32_f32().vertex_attrib_pointer(stride, location, offset)
    }
}

impl From<(u32, u32, u32)> for f32_f32_f32 {
    fn from(other: (u32, u32, u32)) -> (r: Self) {
        f32_f32_f32::new(other.0, other.1, other.2)
    }
}

impl FromSpecImpl<(u32, u32, u32)> for f32_f32_f32 {
    open spec fn obeys_from_spec() -> bool {
        true
    }

    open spec fn from_spec(other: (u32, u32, u32)) -> Self {
        f32_f32_f32 { x: other.0, y: other.1, z: other.2 }
    }
}

/// Lanes that lie in range are read back from the packed word unchanged:
/// none reaches into a neighbour.
pub proof fn lemma_pack_unpack(x: u32, y: u32, z: u32, w: u32)
    requires
        x <= LANE10_MAX,
        y <= LANE10_MAX,
        z <= LANE10_MAX,
        w <= LANE2_MAX,
    ensures
        0 <= packed_word(x, y, z, w) <= u32::MAX,
        packed_word(x, y, z, w) % 0x400 == x,
        (packed_word(x, y, z, w) / 0x400) % 0x400 == y,
        (packed_word(x, y, z, w) / 0x10_0000) % 0x400 == z,
        packed_word(x, y, z, w) / 0x4000_0000 == w,
{
}

/// A value is its packed word and nothing more: two values with the same
/// word are equal.
pub proof fn lemma_word_determines(a: u2_u10_u10_u10_rev_float, b: u2_u10_u10_u10_rev_float)
    requires
        a.word() == b.word(),
    ensures
        a == b,
{
}

/// What `spec_new` holds: the packing of the four components, each held to
/// its lane's range, and so each lane reads back as that component.
pub proof fn lemma_spec_new(x: u32, y: u32, z: u32, w: u32)
    ensures
        ({
            let v = u2_u10_u10_u10_rev_float::spec_new(x, y, z, w);
            &&& v.word() == packed_word(
                clamp_lane(x, LANE10_MAX),
                clamp_lane(y, LANE10_MAX),
                clamp_lane(z, LANE10_MAX),
                clamp_lane(w, LANE2_MAX),
            )
            &&& v.lane_x() == clamp_lane(x, LANE10_MAX)
            &&& v.lane_y() == clamp_lane(y, LANE10_MAX)
            &&& v.lane_z() == clamp_lane(z, LANE10_MAX)
            &&& v.lane_w() == clamp_lane(w, LANE2_MAX)
        }),
{
    lemma_pack_unpack(
        clamp_lane(x, LANE10_MAX),
        clamp_lane(y, LANE10_MAX),
        clamp_lane(z, LANE10_MAX),
        clamp_lane(w, LANE2_MAX),
    );
}

/// The four lanes do not overlap and fill the word: every 32-bit word is the
/// packing of its own lanes.
pub proof fn lemma_lanes_fill_word(v: u2_u10_u10_u10_rev_float)
    ensures
        0 <= v.lane_x() <= LANE10_MAX,
        0 <= v.lane_y() <= LANE10_MAX,
        0 <= v.lane_z() <= LANE10_MAX,
        0 <= v.lane_w() <= LANE2_MAX,
        v.word() == v.lane_x() + v.lane_y() * 0x400 + v.lane_z() * 0x10_0000 + v.lane_w()
            * 0x4000_0000,
{
}

} // verus!
