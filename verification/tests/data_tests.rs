use render_gl::data::{
    f32_f32_f32, format_by_name, gl_boolean, u2_u10_u10_u10_rev_float, AttribFormat, AttribPointer, ElementType,
    LANE10_MAX, LANE2_MAX,
};

fn quantize(v: f32, max: u32) -> u32 {
    (num::clamp(v, 0.0, 1.0) * max as f32).round() as u32
}

fn pack(x: f32, y: f32, z: f32, w: f32) -> u2_u10_u10_u10_rev_float {
    u2_u10_u10_u10_rev_float::new(
        quantize(x, LANE10_MAX),
        quantize(y, LANE10_MAX),
        quantize(z, LANE10_MAX),
        quantize(w, LANE2_MAX),
    )
}

#[test]
fn lane_limits() {
    assert_eq!(LANE10_MAX, 1023);
    assert_eq!(LANE2_MAX, 3);
}

#[test]
fn zero_packs_to_zero() {
    assert_eq!(u2_u10_u10_u10_rev_float::new(0, 0, 0, 0).bits(), 0);
}

#[test]
fn each_lane_sits_in_its_own_bits() {
    assert_eq!(u2_u10_u10_u10_rev_float::new(1023, 0, 0, 0).bits(), 0x0000_03ff);
    assert_eq!(u2_u10_u10_u10_rev_float::new(0, 1023, 0, 0).bits(), 0x000f_fc00);
    assert_eq!(u2_u10_u10_u10_rev_float::new(0, 0, 1023, 0).bits(), 0x3ff0_0000);
    assert_eq!(u2_u10_u10_u10_rev_float::new(0, 0, 0, 3).bits(), 0xc000_0000);
}

#[test]
fn full_lanes_fill_the_word() {
    assert_eq!(u2_u10_u10_u10_rev_float::new(1023, 1023, 1023, 3).bits(), u32::MAX);
}

#[test]
fn pack_exact_word() {
    let v = u2_u10_u10_u10_rev_float::new(1, 2, 3, 1);
    assert_eq!(v.bits(), 1 + 2 * 1024 + 3 * 1_048_576 + 1_073_741_824);
    assert_eq!(v.bits(), 0x4030_0801);
}

#[test]
fn lanes_read_back() {
    let v = u2_u10_u10_u10_rev_float::new(17, 512, 1000, 2);
    assert_eq!((v.x(), v.y(), v.z(), v.w()), (17, 512, 1000, 2));
}

#[test]
fn lanes_above_range_are_held_to_the_maximum() {
    let v = u2_u10_u10_u10_rev_float::new(1024, 0, 0, 0);
    assert_eq!(v.bits(), 1023);
    let v = u2_u10_u10_u10_rev_float::new(u32::MAX, 5, 6, 1);
    assert_eq!((v.x(), v.y(), v.z(), v.w()), (1023, 5, 6, 1));
    let v = u2_u10_u10_u10_rev_float::new(1, 4096, 2, 0);
    assert_eq!((v.x(), v.y(), v.z(), v.w()), (1, 1023, 2, 0));
    let v = u2_u10_u10_u10_rev_float::new(1, 2, 70000, 0);
    assert_eq!((v.x(), v.y(), v.z(), v.w()), (1, 2, 1023, 0));
    let v = u2_u10_u10_u10_rev_float::new(1, 2, 3, 4);
    assert_eq!((v.x(), v.y(), v.z(), v.w()), (1, 2, 3, 3));
}

#[test]
fn from_tuple_is_new() {
    let a: u2_u10_u10_u10_rev_float = (100, 200, 300, 2).into();
    assert_eq!(a, u2_u10_u10_u10_rev_float::new(100, 200, 300, 2));
    let b = u2_u10_u10_u10_rev_float::from((5000, 0, 0, 9));
    assert_eq!(b.bits(), 1023 | (3 << 30));
}

#[test]
fn quantized_one_is_the_lane_maximum() {
    let v = pack(1.0, 1.0, 1.0, 1.0);
    assert_eq!(v.bits(), u32::MAX);
}

#[test]
fn quantized_half_rounds_to_nearest() {
    let v = pack(0.5, 0.25, 0.75, 0.5);
    assert_eq!(v.x(), 512);
    assert_eq!(v.y(), 256);
    assert_eq!(v.z(), 767);
    assert_eq!(v.w(), 2);
}

#[test]
fn input_above_one_leaves_other_lanes_alone() {
    let v = pack(2.0, 0.0, 0.0, 0.0);
    assert_eq!(v.x(), 1023);
    assert_eq!(v.y(), 0);
    assert_eq!(v.z(), 0);
    assert_eq!(v.w(), 0);
}

#[test]
fn negative_input_packs_as_zero() {
    let v = pack(-3.5, 1.0, -0.1, -1.0);
    assert_eq!((v.x(), v.y(), v.z(), v.w()), (0, 1023, 0, 0));
}

#[test]
fn round_trip_is_within_one_step() {
    let mut i: i32 = -50;
    while i <= 250 {
        let v = i as f32 / 200.0;
        let p = pack(v, 1.0 - v, v * 0.5, v);
        let c = num::clamp(v, 0.0, 1.0);
        let cy = num::clamp(1.0 - v, 0.0, 1.0);
        let cz = num::clamp(v * 0.5, 0.0, 1.0);
        assert!((p.x() as f32 / 1023.0 - c).abs() <= 1.0 / 1023.0);
        assert!((p.y() as f32 / 1023.0 - cy).abs() <= 1.0 / 1023.0);
        assert!((p.z() as f32 / 1023.0 - cz).abs() <= 1.0 / 1023.0);
        assert!((p.w() as f32 - c * 3.0).abs() <= 1.0);
        i += 1;
    }
}

#[test]
fn float_triple_format() {
    let f = AttribFormat::f32_f32_f32();
    assert_eq!(f.components, 3);
    assert_eq!(f.element, ElementType::Float);
    assert!(!f.normalized);
    assert_eq!(f.size, 12);
}

#[test]
fn packed_word_format() {
    let f = AttribFormat::u2_u10_u10_u10_rev_float();
    assert_eq!(f.components, 4);
    assert_eq!(f.element, ElementType::UnsignedInt2101010Rev);
    assert!(f.normalized);
    assert_eq!(f.size, 4);
}

#[test]
fn float_triple_pointer() {
    let p = f32_f32_f32::vertex_attrib_pointer(16, 0, 0);
    assert_eq!(
        p,
        AttribPointer {
            location: 0,
            components: 3,
            element_type: gl::FLOAT,
            normalized: gl::FALSE,
            stride: 16,
            offset: 0,
        }
    );
}

#[test]
fn packed_word_pointer() {
    let p = u2_u10_u10_u10_rev_float::vertex_attrib_pointer(16, 1, 12);
    assert_eq!(
        p,
        AttribPointer {
            location: 1,
            components: 4,
            element_type: gl::UNSIGNED_INT_2_10_10_10_REV,
            normalized: gl::TRUE,
            stride: 16,
            offset: 12,
        }
    );
}

#[test]
fn pointer_of_any_format() {
    let f = AttribFormat { components: 2, element: ElementType::Float, normalized: false, size: 8 };
    let p = f.vertex_attrib_pointer(24, 7, 16);
    assert_eq!(p.location, 7);
    assert_eq!(p.components, 2);
    assert_eq!(p.element_type, 0x1406);
    assert_eq!(p.normalized, 0);
    assert_eq!(p.stride, 24);
    assert_eq!(p.offset, 16);
}

#[test]
fn float_triple_keeps_its_components() {
    let v = f32_f32_f32::new(0.5f32.to_bits(), (-1.0f32).to_bits(), 0.0f32.to_bits());
    assert_eq!(f32::from_bits(v.x), 0.5);
    assert_eq!(f32::from_bits(v.y), -1.0);
    assert_eq!(f32::from_bits(v.z), 0.0);
    assert_eq!(v.x, 0x3f00_0000);
    let t: f32_f32_f32 = (1, 2, 3).into();
    assert_eq!(t, f32_f32_f32::new(1, 2, 3));
    assert_eq!(std::mem::size_of::<f32_f32_f32>(), AttribFormat::f32_f32_f32().size);
}

#[test]
fn element_types_have_the_driver_s_enumerants() {
    assert_eq!(ElementType::Float.gl_enum(), gl::FLOAT);
    assert_eq!(ElementType::Float.gl_enum(), 0x1406);
    assert_eq!(ElementType::UnsignedInt2101010Rev.gl_enum(), gl::UNSIGNED_INT_2_10_10_10_REV);
    assert_eq!(ElementType::UnsignedInt2101010Rev.gl_enum(), 0x8368);
}

#[test]
fn booleans_are_the_driver_s() {
    assert_eq!(gl_boolean(true), gl::TRUE);
    assert_eq!(gl_boolean(true), 1);
    assert_eq!(gl_boolean(false), gl::FALSE);
    assert_eq!(gl_boolean(false), 0);
}

#[test]
fn formats_by_their_names() {
    assert_eq!(format_by_name("f32_f32_f32"), Some(AttribFormat::f32_f32_f32()));
    assert_eq!(
        format_by_name("u2_u10_u10_u10_rev_float"),
        Some(AttribFormat::u2_u10_u10_u10_rev_float())
    );
    assert_eq!(format_by_name("f32"), None);
    assert_eq!(format_by_name(""), None);
    assert_eq!(format_by_name("F32_F32_F32"), None);
    assert_eq!(format_by_name("f32_f32_f32 "), None);
}

#[test]
fn equal_words_are_equal_values() {
    let a = u2_u10_u10_u10_rev_float::new(1024, 3, 2, 1);
    let b = u2_u10_u10_u10_rev_float::new(1023, 3, 2, 1);
    assert_eq!(a.bits(), b.bits());
    assert_eq!(a, b);
    assert_ne!(a, u2_u10_u10_u10_rev_float::new(1022, 3, 2, 1));
}
