use wasm_offload::offload;
use wasm_offload::pipeline::native_type_text;
use wasm_offload::pipeline::{
    BuildStep, OffloadError, build_plan, component_source, guest_artifact_path,
    guest_interface_path, guest_manifest_path, guest_manifest_text, guest_root_dir,
    guest_source_path,
};
use wasm_offload::translate::{NativeType, TranslationError, TypeContext, UnsupportedKind};

#[test]
fn guest_source_embeds_the_body_verbatim() {
    let body = "    fn double(x: i32) -> i32 {\n        x * 2\n    }";
    let src = component_source(body);
    let expected = format!(
        "mod bindings {{\n    wit_bindgen::generate!({{\n        world: \"offload\"\n    }});\n}}\n\nuse bindings::*;\n\npub struct Component;\nbindings::export!(Component with_types_in bindings);\n\nimpl bindings::Guest for Component {{\n{}\n}}\n",
        body
    );
    assert_eq!(src.as_str(), expected.as_str());
}

#[test]
fn guest_manifest_declares_a_cdylib() {
    let m = guest_manifest_text();
    assert_eq!(
        m.as_str(),
        "\n[package]\nname = \"offloaded\"\nversion = \"0.1.0\"\nedition = \"2021\"\n\n[lib]\ncrate-type = [\"cdylib\"]\n\n[dependencies]\n\n[workspace]\n"
    );
}

#[test]
fn build_environment_layout_is_fixed() {
    assert_eq!(guest_root_dir().as_str(), "offloaded");
    assert_eq!(guest_manifest_path().as_str(), "offloaded/Cargo.toml");
    assert_eq!(guest_source_path().as_str(), "offloaded/src/lib.rs");
    assert_eq!(guest_interface_path().as_str(), "offloaded/wit/offloaded.wit");
    assert_eq!(
        guest_artifact_path().as_str(),
        "offloaded/target/wasm32-wasip2/release/offloaded.wasm"
    );
}

#[test]
fn first_build_initializes_the_environment() {
    let plan = build_plan(false);
    assert_eq!(
        plan,
        vec![
            BuildStep::CreateGuestCrate,
            BuildStep::WriteGuestManifest,
            BuildStep::AddBindingsDependency,
            BuildStep::WriteGuestSource,
            BuildStep::WriteInterfaceText,
            BuildStep::CompileGuest,
            BuildStep::ReadArtifact,
        ]
    );
}

#[test]
fn later_builds_reuse_the_environment() {
    let plan = build_plan(true);
    assert_eq!(
        plan,
        vec![
            BuildStep::WriteGuestSource,
            BuildStep::WriteInterfaceText,
            BuildStep::CompileGuest,
            BuildStep::ReadArtifact,
        ]
    );
}

#[test]
fn stub_impls_convert_records_in_field_order() {
    let mut ctx = TypeContext::new();
    ctx.add_record(
        "Point",
        vec![
            (String::from("x"), NativeType::S32),
            (String::from("y"), NativeType::S32),
        ],
    )
    .unwrap();
    let a = offload(ctx, "noop", vec![], None, "    fn noop() {}").unwrap();
    let expected = "impl Into<wasm_offload::Val> for Point {\n    fn into(self) -> wasm_offload::Val {\n        let mut value = vec![];\n        value.push((\"x\".to_string(), self.x.into()));\n        value.push((\"y\".to_string(), self.y.into()));\n        wasm_offload::Val::Record(value)\n    }\n}\n";
    assert_eq!(a.stub_impls.as_str(), expected);
}

#[test]
fn type_names_rise_to_upper_camel() {
    assert_eq!(wasm_offload::pipeline::upper_camel("point").as_str(), "Point");
    assert_eq!(
        wasm_offload::pipeline::upper_camel("grid-cell").as_str(),
        "GridCell"
    );
}

#[test]
fn offload_produces_consistent_artifacts() {
    let mut ctx = TypeContext::new();
    ctx.add_record(
        "Point",
        vec![
            (String::from("x"), NativeType::S32),
            (String::from("y"), NativeType::S32),
        ],
    )
    .unwrap();
    let body = "    fn man_hattan(p1: Point, p2: Point) -> i32 { 0 }";
    let a = offload(
        ctx,
        "man_hattan",
        vec![
            (String::from("p1"), NativeType::Named(String::from("Point"))),
            (String::from("p2"), NativeType::Named(String::from("Point"))),
        ],
        Some(NativeType::S32),
        body,
    )
    .unwrap();
    assert_eq!(a.package.func.name.as_str(), "man-hattan");
    assert!(a.interface_text.as_str().contains("export man-hattan: func(p1: point, p2: point) -> s32;"));
    assert!(a.guest_source.as_str().contains(body));
}

#[test]
fn stub_function_embeds_module_and_drives_the_runtime() {
    let mut ctx = TypeContext::new();
    ctx.add_record(
        "Point",
        vec![
            (String::from("x"), NativeType::S32),
            (String::from("y"), NativeType::S32),
        ],
    )
    .unwrap();
    let a = offload(
        ctx,
        "man_hattan",
        vec![
            (String::from("p1"), NativeType::Named(String::from("Point"))),
            (String::from("p2"), NativeType::Named(String::from("Point"))),
        ],
        Some(NativeType::S32),
        "    fn man_hattan(p1: Point, p2: Point) -> i32 { 0 }",
    )
    .unwrap();
    let expected = "pub fn man_hattan(p1: Point, p2: Point) -> Result<wasm_offload::Val, Box<dyn std::error::Error>> {\n    let wasm = include_bytes!(\"offloaded/target/wasm32-wasip2/release/offloaded.wasm\").to_vec();\n    let res = OFFLOADER.lock()?.call_function(&wasm, \"man-hattan\", &[p1.into(), p2.into()], true)?;\n    Ok(res.unwrap())\n}\n";
    assert_eq!(a.stub_function.as_str(), expected);
}

#[test]
fn stub_function_without_return_discards_the_output() {
    let a = offload(
        TypeContext::new(),
        "say_hello",
        vec![],
        None,
        "    fn say_hello() {}",
    )
    .unwrap();
    let expected = "pub fn say_hello() -> Result<(), Box<dyn std::error::Error>> {\n    let wasm = include_bytes!(\"offloaded/target/wasm32-wasip2/release/offloaded.wasm\").to_vec();\n    let res = OFFLOADER.lock()?.call_function(&wasm, \"say-hello\", &[], false)?;\n    let _ = res;\n    Ok(())\n}\n";
    assert_eq!(a.stub_function.as_str(), expected);
}

#[test]
fn native_types_render_as_the_stub_spells_them() {
    let t = NativeType::Sequence(Box::new(NativeType::Optional(Box::new(NativeType::U16))));
    assert_eq!(native_type_text(&t).as_str(), "Vec<Option<u16>>");
    let t = NativeType::Outcome(
        Box::new(NativeType::String),
        Box::new(NativeType::Named(String::from("GRID_CELL"))),
    );
    assert_eq!(native_type_text(&t).as_str(), "Result<String, GridCell>");
}

#[test]
fn offload_is_deterministic() {
    let build = || {
        let mut ctx = TypeContext::new();
        ctx.add_record("Point", vec![(String::from("x"), NativeType::S32)])
            .unwrap();
        offload(
            ctx,
            "shift",
            vec![(String::from("p"), NativeType::Named(String::from("point")))],
            None,
            "    fn shift(p: Point) {}",
        )
        .unwrap()
    };
    let first = build();
    let second = build();
    assert_eq!(first.interface_text.as_str(), second.interface_text.as_str());
    assert_eq!(first.guest_source.as_str(), second.guest_source.as_str());
    assert_eq!(first.package, second.package);
}

#[test]
fn offload_surfaces_translation_failures() {
    let r = offload(
        TypeContext::new(),
        "bad",
        vec![(String::from("a"), NativeType::Unsupported(UnsupportedKind::Array))],
        None,
        "    fn bad(a: [i32; 4]) {}",
    );
    assert_eq!(
        r.unwrap_err(),
        OffloadError::Translation(TranslationError::Unsupported(UnsupportedKind::Array))
    );
}

#[test]
fn offload_surfaces_unresolved_references() {
    let r = offload(
        TypeContext::new(),
        "lost",
        vec![(String::from("p"), NativeType::Named(String::from("point")))],
        None,
        "    fn lost(p: Point) {}",
    );
    match r.unwrap_err() {
        OffloadError::Assembly(e) => {
            assert_eq!(format!("{:?}", e).contains("point"), true);
        }
        other => panic!("expected an assembly failure, got {:?}", other),
    }
}
