use wasm_offload::assemble::{
    AssemblyError, FunctionSignature, assemble, hyphenate, translate_signature,
};
use wasm_offload::translate::{NativeType, TranslationError, TypeContext, WitType};

fn point_context() -> TypeContext {
    let mut ctx = TypeContext::new();
    ctx.add_record(
        "Point",
        vec![
            (String::from("x"), NativeType::S32),
            (String::from("y"), NativeType::S32),
        ],
    )
    .unwrap();
    ctx
}

fn dist_signature() -> FunctionSignature {
    translate_signature(
        "dist",
        vec![
            (String::from("p1"), NativeType::Named(String::from("point"))),
            (String::from("p2"), NativeType::Named(String::from("point"))),
        ],
        Some(NativeType::Float32),
    )
    .unwrap()
}

#[test]
fn signatures_reject_duplicate_parameter_names() {
    let r = translate_signature(
        "twice",
        vec![
            (String::from("a"), NativeType::S32),
            (String::from("a"), NativeType::S32),
        ],
        None,
    );
    assert_eq!(
        r.unwrap_err(),
        TranslationError::DuplicateField(String::from("a"))
    );
}

#[test]
fn references_resolve_whatever_case_the_declaration_used() {
    let sig = translate_signature(
        "dist",
        vec![(String::from("p"), NativeType::Named(String::from("Point")))],
        None,
    )
    .unwrap();
    assert_eq!(sig.params[0].1, WitType::Named(String::from("point")));
    let pkg = assemble(point_context(), sig).unwrap();
    assert!(pkg.wit_text().as_str().contains("export dist: func(p: point);"));
}

#[test]
fn hyphenate_normalizes_separators_only() {
    assert_eq!(hyphenate("say_hello").as_str(), "say-hello");
    assert_eq!(hyphenate("Dist").as_str(), "Dist");
}

#[test]
fn signature_translation_keeps_parameter_order() {
    let sig = dist_signature();
    assert_eq!(sig.name.as_str(), "dist");
    assert_eq!(sig.params.len(), 2);
    assert_eq!(sig.params[0].0.as_str(), "p1");
    assert_eq!(sig.params[1].0.as_str(), "p2");
    assert_eq!(sig.ret, Some(WitType::Float32));
}

#[test]
fn assembly_emits_the_expected_interface_text() {
    let pkg = assemble(point_context(), dist_signature()).unwrap();
    let text = pkg.wit_text();
    let expected = "package local:offload;\n\ninterface types {\n  record point {\n    x: s32,\n    y: s32,\n  }\n}\n\nworld offload {\n  use types.{point};\n  export types;\n  export dist: func(p1: point, p2: point) -> f32;\n}\n";
    assert_eq!(text.as_str(), expected);
}

#[test]
fn assembly_without_records_omits_the_use_line() {
    let sig = translate_signature("ping", vec![], None).unwrap();
    let pkg = assemble(TypeContext::new(), sig).unwrap();
    let expected = "package local:offload;\n\ninterface types {\n}\n\nworld offload {\n  export types;\n  export ping: func();\n}\n";
    assert_eq!(pkg.wit_text().as_str(), expected);
}

#[test]
fn assembly_is_deterministic() {
    let first = assemble(point_context(), dist_signature()).unwrap();
    let second = assemble(point_context(), dist_signature()).unwrap();
    assert_eq!(first, second);
    assert_eq!(first.wit_text().as_str(), second.wit_text().as_str());
}

#[test]
fn unresolved_references_are_reported() {
    let sig = translate_signature(
        "lookup",
        vec![(String::from("key"), NativeType::Named(String::from("missing")))],
        None,
    )
    .unwrap();
    let r = assemble(TypeContext::new(), sig);
    assert_eq!(
        r.unwrap_err(),
        AssemblyError::UnresolvedReference(String::from("missing"))
    );
}

#[test]
fn unresolved_reference_inside_a_record_is_reported() {
    let mut ctx = TypeContext::new();
    ctx.add_record(
        "Holder",
        vec![(String::from("inner"), NativeType::Named(String::from("absent")))],
    )
    .unwrap();
    let sig = translate_signature("noop", vec![], None).unwrap();
    let r = assemble(ctx, sig);
    assert_eq!(
        r.unwrap_err(),
        AssemblyError::UnresolvedReference(String::from("absent"))
    );
}
