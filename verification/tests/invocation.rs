use wasm_offload::{OffloadTarget, Val, WasmtimeOffload, WasmtimeOffloadError};

const ADD_COMPONENT: &str = r#"(component
  (core module $m
    (func (export "add") (param i32 i32) (result i32)
      local.get 0
      local.get 1
      i32.add))
  (core instance $i (instantiate $m))
  (func (export "add") (param "x" s32) (param "y" s32) (result s32)
    (canon lift (core func $i "add"))))"#;

const HELLO_COMPONENT: &str = r#"(component
  (core module $m
    (func (export "say-hello")))
  (core instance $i (instantiate $m))
  (func (export "say-hello")
    (canon lift (core func $i "say-hello"))))"#;

const POINT_COMPONENT: &str = r#"(component
  (core module $m
    (func (export "get-x") (param i32 i32) (result i32)
      local.get 0)
    (func (export "get-y") (param i32 i32) (result i32)
      local.get 1))
  (core instance $i (instantiate $m))
  (type $point-def (record (field "x" s32) (field "y" s32)))
  (export $point "point" (type $point-def))
  (func (export "get-x") (param "p" $point) (result s32)
    (canon lift (core func $i "get-x")))
  (func (export "get-y") (param "p" $point) (result s32)
    (canon lift (core func $i "get-y"))))"#;

fn point_value(x: i32, y: i32) -> Val {
    Val::Record(vec![
        (String::from("x"), Val::S32(x)),
        (String::from("y"), Val::S32(y)),
    ])
}

#[test]
fn record_arguments_cross_in_field_order() {
    let mut rt = WasmtimeOffload::new().unwrap();
    let x = rt
        .call_function(POINT_COMPONENT.as_bytes(), "get-x", &[point_value(7, 9)], true)
        .unwrap();
    assert_eq!(x, Some(Val::S32(7)));
    let y = rt
        .call_function(POINT_COMPONENT.as_bytes(), "get-y", &[point_value(7, 9)], true)
        .unwrap();
    assert_eq!(y, Some(Val::S32(9)));
}

const COLOR_COMPONENT: &str = r#"(component
  (core module $m
    (func (export "pick") (result i32)
      i32.const 1))
  (core instance $i (instantiate $m))
  (type $color-def (enum "red" "green" "blue"))
  (export $color "color" (type $color-def))
  (func (export "pick") (result $color)
    (canon lift (core func $i "pick"))))"#;

#[test]
fn composite_results_convert_back() {
    let mut rt = WasmtimeOffload::new().unwrap();
    let r = rt
        .call_function(COLOR_COMPONENT.as_bytes(), "pick", &[], true)
        .unwrap();
    assert_eq!(r, Some(Val::Enum(String::from("green"))));
}

#[test]
fn initialization_is_a_no_op() {
    let mut rt = WasmtimeOffload::new().unwrap();
    assert!(rt.initialize().is_ok());
}

#[test]
fn invocation_without_return_yields_none() {
    let mut rt = WasmtimeOffload::new().unwrap();
    let r = rt
        .call_function(HELLO_COMPONENT.as_bytes(), "say-hello", &[], false)
        .unwrap();
    assert_eq!(r, None);
}

#[test]
fn invocation_with_return_marshals_arguments() {
    let mut rt = WasmtimeOffload::new().unwrap();
    let r = rt
        .call_function(
            ADD_COMPONENT.as_bytes(),
            "add",
            &[Val::S32(1), Val::S32(2)],
            true,
        )
        .unwrap();
    assert_eq!(r, Some(Val::S32(3)));
}

#[test]
fn a_ready_instance_serves_repeated_calls() {
    let mut rt = WasmtimeOffload::new().unwrap();
    for k in 0..3i32 {
        let r = rt
            .call_function(
                ADD_COMPONENT.as_bytes(),
                "add",
                &[Val::S32(k), Val::S32(10)],
                true,
            )
            .unwrap();
        assert_eq!(r, Some(Val::S32(k + 10)));
    }
}

#[test]
fn returned_value_narrows_with_into_i32() {
    let mut rt = WasmtimeOffload::new().unwrap();
    let r = rt
        .call_function(
            ADD_COMPONENT.as_bytes(),
            "add",
            &[Val::S32(20), Val::S32(22)],
            true,
        )
        .unwrap();
    assert_eq!(r.unwrap().into_i32(), 42);
}

#[test]
fn argument_count_mismatch_is_a_shape_error() {
    let mut rt = WasmtimeOffload::new().unwrap();
    let r = rt.call_function(ADD_COMPONENT.as_bytes(), "add", &[Val::S32(1)], true);
    match r {
        Err(WasmtimeOffloadError::ShapeMismatch { expected, got }) => {
            assert_eq!(expected, 2);
            assert_eq!(got, 1);
        }
        other => panic!("expected a shape mismatch, got {:?}", other),
    }
}

#[test]
fn missing_export_is_reported() {
    let mut rt = WasmtimeOffload::new().unwrap();
    let r = rt.call_function(ADD_COMPONENT.as_bytes(), "subtract", &[], false);
    assert!(matches!(r, Err(WasmtimeOffloadError::MissingExport)));
}

#[test]
fn invalid_module_bytes_are_an_engine_error() {
    let mut rt = WasmtimeOffload::new().unwrap();
    let r = rt.call_function(b"not a component", "add", &[], false);
    assert!(matches!(r, Err(WasmtimeOffloadError::Wasmtime(_))));
    let r = rt.call_function(
        ADD_COMPONENT.as_bytes(),
        "add",
        &[Val::S32(1), Val::S32(2)],
        true,
    );
    assert_eq!(r.unwrap(), Some(Val::S32(3)));
}

#[test]
fn float_bit_values_cannot_cross() {
    let mut rt = WasmtimeOffload::new().unwrap();
    let r = rt.call_function(
        ADD_COMPONENT.as_bytes(),
        "add",
        &[Val::Float32(1.5f32.to_bits()), Val::S32(2)],
        true,
    );
    assert!(matches!(r, Err(WasmtimeOffloadError::UnsupportedValue)));
}
