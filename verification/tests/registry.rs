use halide_bridge::halide_type_for;
use halide_bridge::halide_type_t;

#[test]
fn tag_i8() {
    assert_eq!(halide_type_for::<i8>(), halide_type_t { code: 0, bits: 8, lanes: 1 });
}

#[test]
fn tag_i16() {
    assert_eq!(halide_type_for::<i16>(), halide_type_t { code: 0, bits: 16, lanes: 1 });
}

#[test]
fn tag_i32() {
    assert_eq!(halide_type_for::<i32>(), halide_type_t { code: 0, bits: 32, lanes: 1 });
}

#[test]
fn tag_i64() {
    assert_eq!(halide_type_for::<i64>(), halide_type_t { code: 0, bits: 64, lanes: 1 });
}

#[test]
fn tag_u8() {
    assert_eq!(halide_type_for::<u8>(), halide_type_t { code: 1, bits: 8, lanes: 1 });
}

#[test]
fn tag_u16() {
    assert_eq!(halide_type_for::<u16>(), halide_type_t { code: 1, bits: 16, lanes: 1 });
}

#[test]
fn tag_u32() {
    assert_eq!(halide_type_for::<u32>(), halide_type_t { code: 1, bits: 32, lanes: 1 });
}

#[test]
fn tag_u64() {
    assert_eq!(halide_type_for::<u64>(), halide_type_t { code: 1, bits: 64, lanes: 1 });
}
