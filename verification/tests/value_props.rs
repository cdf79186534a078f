use wasm_offload::Val;

#[test]
fn round_trip_bool() {
    let v = Val::from(true);
    assert_eq!(v, Val::Bool(true));
    assert_eq!(v.as_bool(), Some(true));
    assert_eq!(Val::from(false).as_bool(), Some(false));
}

#[test]
fn round_trip_signed() {
    assert_eq!(Val::from(-5i8).as_s8(), Some(-5i8));
    assert_eq!(Val::from(-300i16).as_s16(), Some(-300i16));
    assert_eq!(Val::from(123456i32).as_s32(), Some(123456i32));
    assert_eq!(Val::from(-7_000_000_000i64).as_s64(), Some(-7_000_000_000i64));
}

#[test]
fn round_trip_unsigned() {
    assert_eq!(Val::from(200u8).as_u8(), Some(200u8));
    assert_eq!(Val::from(60000u16).as_u16(), Some(60000u16));
    assert_eq!(Val::from(4_000_000_000u32).as_u32(), Some(4_000_000_000u32));
    assert_eq!(Val::from(18_000_000_000_000_000_000u64).as_u64(), Some(18_000_000_000_000_000_000u64));
}

#[test]
fn round_trip_float_bits() {
    let bits32 = 1.5f32.to_bits();
    let v = Val::Float32(bits32);
    match v {
        Val::Float32(b) => assert_eq!(f32::from_bits(b), 1.5f32),
        _ => panic!(),
    }
    let bits64 = (-2.25f64).to_bits();
    let v = Val::Float64(bits64);
    match v {
        Val::Float64(b) => assert_eq!(f64::from_bits(b), -2.25f64),
        _ => panic!(),
    }
}

#[test]
fn narrowing_accessors_reject_other_cases() {
    assert_eq!(Val::Bool(true).as_s32(), None);
    assert_eq!(Val::S32(1).as_bool(), None);
    assert_eq!(Val::U32(1).as_u64(), None);
}

#[test]
fn into_i32_narrows_signed_32() {
    assert_eq!(Val::S32(-42).into_i32(), -42);
    assert_eq!(Val::from(7i32).into_i32(), 7);
}

#[test]
fn record_field_order_is_preserved() {
    let fields = vec![
        (String::from("a"), Val::S32(1)),
        (String::from("b"), Val::S32(2)),
        (String::from("c"), Val::S32(3)),
    ];
    let v = Val::Record(fields);
    let back = v.record_fields().unwrap();
    assert_eq!(back.len(), 3);
    assert_eq!(back[0], (String::from("a"), Val::S32(1)));
    assert_eq!(back[1], (String::from("b"), Val::S32(2)));
    assert_eq!(back[2], (String::from("c"), Val::S32(3)));
}

#[test]
fn record_fields_rejects_other_cases() {
    assert!(Val::S32(1).record_fields().is_none());
    assert!(Val::List(vec![]).record_fields().is_none());
}
