use wasm_offload::translate::{
    NativeType, TranslationError, TypeContext, UnsupportedKind, WitType, lower_ident, translate,
};

#[test]
fn primitives_map_one_to_one() {
    assert_eq!(translate(&NativeType::S8), Ok(WitType::S8));
    assert_eq!(translate(&NativeType::S16), Ok(WitType::S16));
    assert_eq!(translate(&NativeType::S32), Ok(WitType::S32));
    assert_eq!(translate(&NativeType::S64), Ok(WitType::S64));
    assert_eq!(translate(&NativeType::U8), Ok(WitType::U8));
    assert_eq!(translate(&NativeType::U16), Ok(WitType::U16));
    assert_eq!(translate(&NativeType::U32), Ok(WitType::U32));
    assert_eq!(translate(&NativeType::U64), Ok(WitType::U64));
    assert_eq!(translate(&NativeType::Float32), Ok(WitType::Float32));
    assert_eq!(translate(&NativeType::Float64), Ok(WitType::Float64));
    assert_eq!(translate(&NativeType::String), Ok(WitType::String));
}

#[test]
fn pointer_sized_integers_widen_to_64() {
    assert_eq!(translate(&NativeType::Usize), Ok(WitType::U64));
    assert_eq!(translate(&NativeType::Isize), Ok(WitType::S64));
}

#[test]
fn nested_sequence_translates_to_nested_list() {
    let t = NativeType::Sequence(Box::new(NativeType::Sequence(Box::new(NativeType::S32))));
    assert_eq!(
        translate(&t),
        Ok(WitType::List(Box::new(WitType::List(Box::new(WitType::S32)))))
    );
}

#[test]
fn optional_and_outcome_translate() {
    let t = NativeType::Optional(Box::new(NativeType::String));
    assert_eq!(translate(&t), Ok(WitType::Option(Box::new(WitType::String))));
    let t = NativeType::Outcome(Box::new(NativeType::U32), Box::new(NativeType::String));
    assert_eq!(
        translate(&t),
        Ok(WitType::Result(Box::new(WitType::U32), Box::new(WitType::String)))
    );
}

#[test]
fn bare_names_become_record_references() {
    let t = NativeType::Named(String::from("point"));
    assert_eq!(translate(&t), Ok(WitType::Named(String::from("point"))));
}

#[test]
fn bare_name_references_are_lowered_like_record_names() {
    let t = NativeType::Named(String::from("Point"));
    assert_eq!(translate(&t), Ok(WitType::Named(String::from("point"))));
    let t = NativeType::Named(String::from("GRID_CELL"));
    assert_eq!(translate(&t), Ok(WitType::Named(String::from("grid-cell"))));
}

#[test]
fn record_registration_rejects_duplicate_field_names() {
    let mut ctx = TypeContext::new();
    let r = ctx.add_record(
        "Twice",
        vec![
            (String::from("x"), NativeType::S32),
            (String::from("y"), NativeType::S32),
            (String::from("x"), NativeType::U8),
        ],
    );
    assert_eq!(r, Err(TranslationError::DuplicateField(String::from("x"))));
    assert_eq!(ctx.records.len(), 0);
}

#[test]
fn unsupported_categories_fail_fast() {
    assert_eq!(
        translate(&NativeType::Unsupported(UnsupportedKind::Array)),
        Err(TranslationError::Unsupported(UnsupportedKind::Array))
    );
    assert_eq!(
        translate(&NativeType::Unsupported(UnsupportedKind::Reference)),
        Err(TranslationError::Unsupported(UnsupportedKind::Reference))
    );
    assert_eq!(
        translate(&NativeType::Unsupported(UnsupportedKind::MixedTuple)),
        Err(TranslationError::Unsupported(UnsupportedKind::MixedTuple))
    );
}

#[test]
fn failure_propagates_out_of_compounds() {
    let t = NativeType::Sequence(Box::new(NativeType::Unsupported(UnsupportedKind::Pointer)));
    assert_eq!(
        translate(&t),
        Err(TranslationError::Unsupported(UnsupportedKind::Pointer))
    );
    let t = NativeType::Outcome(
        Box::new(NativeType::S32),
        Box::new(NativeType::Unsupported(UnsupportedKind::TraitObject)),
    );
    assert_eq!(
        translate(&t),
        Err(TranslationError::Unsupported(UnsupportedKind::TraitObject))
    );
}

#[test]
fn lowered_names_fold_case_and_separators() {
    assert_eq!(lower_ident("MyPoint").as_str(), "mypoint");
    assert_eq!(lower_ident("GRID_CELL").as_str(), "grid-cell");
    assert_eq!(lower_ident("point").as_str(), "point");
}

#[test]
fn record_registration_preserves_field_order() {
    let mut ctx = TypeContext::new();
    let r = ctx.add_record(
        "Point",
        vec![
            (String::from("x"), NativeType::S32),
            (String::from("y"), NativeType::S32),
        ],
    );
    assert_eq!(r, Ok(()));
    assert_eq!(ctx.records.len(), 1);
    assert_eq!(ctx.records[0].name.as_str(), "point");
    assert_eq!(ctx.records[0].fields.len(), 2);
    assert_eq!(ctx.records[0].fields[0], (String::from("x"), WitType::S32));
    assert_eq!(ctx.records[0].fields[1], (String::from("y"), WitType::S32));
}

#[test]
fn record_registration_rejects_duplicates() {
    let mut ctx = TypeContext::new();
    assert_eq!(
        ctx.add_record("Point", vec![(String::from("x"), NativeType::S32)]),
        Ok(())
    );
    let r = ctx.add_record("POINT", vec![(String::from("y"), NativeType::S32)]);
    assert_eq!(r, Err(TranslationError::DuplicateRecord(String::from("point"))));
    assert_eq!(ctx.records.len(), 1);
}

#[test]
fn record_registration_fails_on_unsupported_field() {
    let mut ctx = TypeContext::new();
    let r = ctx.add_record(
        "Bad",
        vec![
            (String::from("ok"), NativeType::S32),
            (String::from("bad"), NativeType::Unsupported(UnsupportedKind::Slice)),
        ],
    );
    assert_eq!(r, Err(TranslationError::Unsupported(UnsupportedKind::Slice)));
    assert_eq!(ctx.records.len(), 0);
}
