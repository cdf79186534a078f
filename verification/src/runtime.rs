//! The invocation runtime: holds a persistent connection to the sandbox
//! execution engine, and on each call compiles and instantiates the supplied
//! module bytes, resolves the named export, marshals the arguments in, and
//! marshals the single optional result out.
//!
//! The engine itself is an external collaborator; every call into it stands
//! behind a trusted item whose contract states only what the engine's own
//! source shows. The marshalling decisions around those calls are verified.

use vstd::prelude::*;

use crate::value::Val;
use wasmtime::component::Val as EngineVal;

verus! {

/// A target able to run an offloaded call: the extension point for
/// execution engines.
pub trait OffloadTarget {
    type Error;

    /// A no-op preparation step; a prepared target accepts repeated calls.
    fn initialize(&mut self) -> Result<(), Self::Error>;

    /// Runs the export `name` of the compiled `module` on `args`. A result
    /// value comes back exactly when the caller expects one and the call
    /// succeeded.
    fn call_function(
        &mut self,
        module: &[u8],
        name: &str,
        args: &[Val],
        expects_return: bool,
    ) -> (r: Result<Option<Val>, Self::Error>)
        ensures
            r matches Ok(out) ==> (out is Some <==> expects_return),
    ;
}

/// A failure of an offloaded call.
#[derive(Debug)]
pub enum WasmtimeOffloadError {
    /// The engine failed to compile, instantiate, or run the module.
    Wasmtime(wasmtime::Error),
    /// The module has no export under the requested name.
    MissingExport,
    /// The resolved export takes a different number of arguments than were
    /// supplied.
    ShapeMismatch { expected: usize, got: usize },
    /// A value's shape cannot cross the boundary: a floating-point case, an
    /// engine-only case, or nesting beyond the marshalling bound.
    UnsupportedValue,
}

/// Whether a value holds a floating-point case anywhere inside: such values
/// carry only their bit patterns and cannot be handed to the engine.
pub open spec fn spec_has_float(v: Val) -> bool
    decreases v,
{
    match v {
        Val::Float32(b) => true,
        Val::Float64(b) => true,
        Val::List(items) => exists|i: int| 0 <= i < items@.len() && spec_has_float(items@[i]),
        Val::Tuple(items) => exists|i: int| 0 <= i < items@.len() && spec_has_float(items@[i]),
        Val::Record(fields) => exists|i: int|
            0 <= i < fields@.len() && spec_has_float(fields@[i].1),
        Val::Variant(n, p) => match p {
            Some(b) => spec_has_float(*b),
            None => false,
        },
        Val::Option(p) => match p {
            Some(b) => spec_has_float(*b),
            None => false,
        },
        Val::Result(res) => match res {
            Ok(Some(b)) => spec_has_float(*b),
            Ok(None) => false,
            Err(Some(b)) => spec_has_float(*b),
            Err(None) => false,
        },
        _ => false,
    }
}

#[verifier::external_type_specification]
#[verifier::external_body]
pub struct ExWasiP1Ctx(wasmtime_wasi::p1::WasiP1Ctx);

/// The state carried by the engine's store: the system-interface context
/// and resource table. It is the state type wasmtime-wasi provides
/// ready-made, because that type already implements the engine's view
/// trait, which this library cannot implement for a type of its own.
pub type OffloaderState = wasmtime_wasi::p1::WasiP1Ctx;

/// The engine connection: one engine with its linker and store, and every
/// compiled component, instance and resolved export created through them,
/// in creation order. The trusted calls take positions into these lists,
/// so a compiled or resolved value can only ever be used against the
/// engine and store it belongs to: a value enters a list only inside the
/// trusted call that created it there, and the fields stay private to this
/// module. The handles are small copies; the state they point into
/// accumulates in the store either way.
struct EngineSession {
    engine: wasmtime::Engine,
    linker: wasmtime::component::Linker<OffloaderState>,
    store: wasmtime::Store<OffloaderState>,
    components: Vec<wasmtime::component::Component>,
    instances: Vec<wasmtime::component::Instance>,
    funcs: Vec<wasmtime::component::Func>,
}

#[verifier::external_type_specification]
#[verifier::external_body]
pub struct ExEngine(wasmtime::Engine);

#[verifier::external_type_specification]
#[verifier::external_body]
#[verifier::reject_recursive_types(T)]
pub struct ExStore<T: 'static>(wasmtime::Store<T>);

#[verifier::external_type_specification]
#[verifier::external_body]
#[verifier::reject_recursive_types(T)]
pub struct ExLinker<T: 'static>(wasmtime::component::Linker<T>);

#[verifier::external_type_specification]
#[verifier::external_body]
pub struct ExComponent(wasmtime::component::Component);

#[verifier::external_type_specification]
#[verifier::external_body]
pub struct ExInstance(wasmtime::component::Instance);

#[verifier::external_type_specification]
#[verifier::external_body]
pub struct ExFunc(wasmtime::component::Func);

#[verifier::external_type_specification]
#[verifier::external_body]
pub struct ExEngineVal(EngineVal);

#[verifier::external_type_specification]
#[verifier::external_body]
pub struct ExError(wasmtime::Error);

/// Relies on wasmtime::Engine::default to build an engine with the default
/// configuration (synchronous calls allowed).
#[verifier::external_body]
fn engine_new() -> wasmtime::Engine {
    wasmtime::Engine::default()
}

/// Relies on wasmtime::component::Linker::new.
#[verifier::external_body]
fn linker_new(engine: &wasmtime::Engine) -> wasmtime::component::Linker<OffloaderState> {
    wasmtime::component::Linker::new(engine)
}

/// Relies on wasmtime::Store::new to wrap the given state.
#[verifier::external_body]
fn store_new(engine: &wasmtime::Engine, state: OffloaderState) -> wasmtime::Store<OffloaderState> {
    wasmtime::Store::new(engine, state)
}

/// Relies on wasmtime::component::Component::new: compiles the given bytes
/// with the session's own engine, failing on anything but a valid
/// component binary or text. On success the compiled component is appended
/// to the session's component list and its position returned.
#[verifier::external_body]
fn component_new(session: &mut EngineSession, bytes: &[u8]) -> (r: Result<usize, wasmtime::Error>)
    ensures
        r is Ok ==> r->Ok_0 == old(session).components@.len() && final(session).components@.len() == old(session).components@.len() + 1,
        r is Err ==> final(session).components@ == old(session).components@,
        final(session).instances@ == old(session).instances@,
        final(session).funcs@ == old(session).funcs@,
{
    match wasmtime::component::Component::new(&session.engine, bytes) {
        Ok(component) => {
            session.components.push(component);
            Ok(session.components.len() - 1)
        },
        Err(e) => Err(e),
    }
}

/// Relies on wasmtime_wasi::WasiCtxBuilder::new and build_p1: builds the
/// default system-interface state (context and resource table) the store
/// carries.
#[verifier::external_body]
fn wasi_state_new() -> OffloaderState {
    wasmtime_wasi::WasiCtxBuilder::new().build_p1()
}

/// Relies on wasmtime_wasi::p2::add_to_linker_sync: defines the system
/// interfaces in the linker, so guests that import them instantiate; a
/// failure comes back as the engine's error.
#[verifier::external_body]
fn add_wasi_to_linker(
    linker: &mut wasmtime::component::Linker<OffloaderState>,
) -> Result<(), wasmtime::Error> {
    wasmtime_wasi::p2::add_to_linker_sync(&mut *linker)
}

/// Relies on wasmtime::component::Linker::instantiate: instantiates a
/// component of this session's list, with the session's own linker, in the
/// session's own store — everything from one engine — failing on missing
/// imports or a start trap. On success the instance, which lives in that
/// store, is appended to the session's instance list and its position
/// returned.
#[verifier::external_body]
fn instantiate(session: &mut EngineSession, component_idx: usize) -> (r: Result<
    usize,
    wasmtime::Error,
>)
    requires
        component_idx < old(session).components@.len(),
    ensures
        r is Ok ==> r->Ok_0 == old(session).instances@.len() && final(session).instances@.len() == old(session).instances@.len() + 1,
        r is Err ==> final(session).instances@ == old(session).instances@,
        final(session).components@ == old(session).components@,
        final(session).funcs@ == old(session).funcs@,
{
    let component = &session.components[component_idx];
    match session.linker.instantiate(&mut session.store, component) {
        Ok(instance) => {
            session.instances.push(instance);
            Ok(session.instances.len() - 1)
        },
        Err(e) => Err(e),
    }
}

/// Relies on wasmtime::component::Instance::get_func: resolves an exported
/// function by name, if the instance has one. The position names an
/// instance of this session's list, so the lookup runs against the store
/// that instance lives in (the engine would abort on a foreign store). On
/// success the export, which lives in this session, is appended to the
/// session's export list and its position returned.
#[verifier::external_body]
fn get_func(session: &mut EngineSession, instance_idx: usize, name: &str) -> (r: Option<usize>)
    requires
        instance_idx < old(session).instances@.len(),
    ensures
        r is Some ==> r->Some_0 == old(session).funcs@.len() && final(session).funcs@.len() == old(session).funcs@.len() + 1,
        r is None ==> final(session).funcs@ == old(session).funcs@,
        final(session).components@ == old(session).components@,
        final(session).instances@ == old(session).instances@,
{
    let instance = session.instances[instance_idx];
    match instance.get_func(&mut session.store, name) {
        Some(f) => {
            session.funcs.push(f);
            Some(session.funcs.len() - 1)
        },
        None => None,
    }
}

/// Relies on wasmtime::component::Func::ty and ComponentFunc::params for
/// the number of parameters the resolved export takes. The position names
/// an export of this session's list, so the query runs against the store
/// it lives in.
#[verifier::external_body]
fn func_param_count(session: &mut EngineSession, func_idx: usize) -> (r: usize)
    requires
        func_idx < old(session).funcs@.len(),
    ensures
        final(session).instances@ == old(session).instances@,
        final(session).funcs@ == old(session).funcs@,
{
    let func = session.funcs[func_idx];
    func.ty(&mut session.store).params().len()
}

/// Relies on wasmtime::component::Func::call: runs the export on the given
/// arguments, writing results into the slots in place; the slice's length
/// cannot change, and an argument or slot count mismatch is an error. The
/// position names an export of this session's list, so the call runs
/// against the store it lives in.
#[verifier::external_body]
fn func_call(
    session: &mut EngineSession,
    func_idx: usize,
    args: &Vec<EngineVal>,
    outs: &mut Vec<EngineVal>,
) -> (r: Result<(), wasmtime::Error>)
    requires
        func_idx < old(session).funcs@.len(),
    ensures
        final(session).instances@ == old(session).instances@,
        final(session).funcs@ == old(session).funcs@,
        final(outs)@.len() == old(outs)@.len(),
{
    let func = session.funcs[func_idx];
    func.call(&mut session.store, args.as_slice(), outs.as_mut_slice())
}

/// The engine value the boolean constructor builds from a given payload.
pub uninterp spec fn ev_bool_of(x: bool) -> EngineVal;

/// The engine value the signed 8-bit constructor builds.
pub uninterp spec fn ev_s8_of(x: i8) -> EngineVal;

/// The engine value the unsigned 8-bit constructor builds.
pub uninterp spec fn ev_u8_of(x: u8) -> EngineVal;

/// The engine value the signed 16-bit constructor builds.
pub uninterp spec fn ev_s16_of(x: i16) -> EngineVal;

/// The engine value the unsigned 16-bit constructor builds.
pub uninterp spec fn ev_u16_of(x: u16) -> EngineVal;

/// The engine value the signed 32-bit constructor builds.
pub uninterp spec fn ev_s32_of(x: i32) -> EngineVal;

/// The engine value the unsigned 32-bit constructor builds.
pub uninterp spec fn ev_u32_of(x: u32) -> EngineVal;

/// The engine value the signed 64-bit constructor builds.
pub uninterp spec fn ev_s64_of(x: i64) -> EngineVal;

/// The engine value the unsigned 64-bit constructor builds.
pub uninterp spec fn ev_u64_of(x: u64) -> EngineVal;

/// The engine value the character constructor builds.
pub uninterp spec fn ev_char_of(x: char) -> EngineVal;

/// The engine value the string constructor builds.
pub uninterp spec fn ev_string_of(s: String) -> EngineVal;

/// The engine value the list constructor builds from the given items.
pub uninterp spec fn ev_list_of(items: Seq<EngineVal>) -> EngineVal;

/// The engine value the record constructor builds from the given pairs.
pub uninterp spec fn ev_record_of(fields: Seq<(String, EngineVal)>) -> EngineVal;

/// The engine value the tuple constructor builds from the given items.
pub uninterp spec fn ev_tuple_of(items: Seq<EngineVal>) -> EngineVal;

/// The engine value the variant constructor builds.
pub uninterp spec fn ev_variant_of(name: String, payload: Option<EngineVal>) -> EngineVal;

/// The engine value the enumeration constructor builds.
pub uninterp spec fn ev_enum_of(name: String) -> EngineVal;

/// The engine value the option constructor builds.
pub uninterp spec fn ev_option_of(payload: Option<EngineVal>) -> EngineVal;

/// The engine value the result constructor builds.
pub uninterp spec fn ev_result_of(
    outcome: Result<Option<EngineVal>, Option<EngineVal>>,
) -> EngineVal;

/// The engine value the flags constructor builds from the given names.
pub uninterp spec fn ev_flags_of(names: Seq<String>) -> EngineVal;

/// An optional boxed payload, with the box stripped.
pub open spec fn unbox_opt(p: Option<Box<EngineVal>>) -> Option<EngineVal> {
    match p {
        Some(b) => Some(*b),
        None => None,
    }
}

/// A two-armed outcome of optional boxed payloads, with the boxes stripped.
pub open spec fn unbox_outcome(
    o: Result<Option<Box<EngineVal>>, Option<Box<EngineVal>>>,
) -> Result<Option<EngineVal>, Option<EngineVal>> {
    match o {
        Ok(p) => Ok(unbox_opt(p)),
        Err(p) => Err(unbox_opt(p)),
    }
}

/// Relies on the wasmtime::component::Val constructor for the matching case.
#[verifier::external_body]
fn ev_bool(x: bool) -> (r: EngineVal)
    ensures
        r == ev_bool_of(x),
{
    EngineVal::Bool(x)
}

/// Relies on the wasmtime::component::Val constructor for the matching case.
#[verifier::external_body]
fn ev_s8(x: i8) -> (r: EngineVal)
    ensures
        r == ev_s8_of(x),
{
    EngineVal::S8(x)
}

/// Relies on the wasmtime::component::Val constructor for the matching case.
#[verifier::external_body]
fn ev_u8(x: u8) -> (r: EngineVal)
    ensures
        r == ev_u8_of(x),
{
    EngineVal::U8(x)
}

/// Relies on the wasmtime::component::Val constructor for the matching case.
#[verifier::external_body]
fn ev_s16(x: i16) -> (r: EngineVal)
    ensures
        r == ev_s16_of(x),
{
    EngineVal::S16(x)
}

/// Relies on the wasmtime::component::Val constructor for the matching case.
#[verifier::external_body]
fn ev_u16(x: u16) -> (r: EngineVal)
    ensures
        r == ev_u16_of(x),
{
    EngineVal::U16(x)
}

/// Relies on the wasmtime::component::Val constructor for the matching case.
#[verifier::external_body]
fn ev_s32(x: i32) -> (r: EngineVal)
    ensures
        r == ev_s32_of(x),
{
    EngineVal::S32(x)
}

/// Relies on the wasmtime::component::Val constructor for the matching case.
#[verifier::external_body]
fn ev_u32(x: u32) -> (r: EngineVal)
    ensures
        r == ev_u32_of(x),
{
    EngineVal::U32(x)
}

/// Relies on the wasmtime::component::Val constructor for the matching case.
#[verifier::external_body]
fn ev_s64(x: i64) -> (r: EngineVal)
    ensures
        r == ev_s64_of(x),
{
    EngineVal::S64(x)
}

/// Relies on the wasmtime::component::Val constructor for the matching case.
#[verifier::external_body]
fn ev_u64(x: u64) -> (r: EngineVal)
    ensures
        r == ev_u64_of(x),
{
    EngineVal::U64(x)
}

/// Relies on the wasmtime::component::Val constructor for the matching case.
#[verifier::external_body]
fn ev_char(x: char) -> (r: EngineVal)
    ensures
        r == ev_char_of(x),
{
    EngineVal::Char(x)
}

/// Relies on the wasmtime::component::Val constructor for the matching case.
#[verifier::external_body]
fn ev_string(x: String) -> (r: EngineVal)
    ensures
        r == ev_string_of(x),
{
    EngineVal::String(x)
}

/// Relies on the wasmtime::component::Val constructor for the matching case.
#[verifier::external_body]
fn ev_list(x: Vec<EngineVal>) -> (r: EngineVal)
    ensures
        r == ev_list_of(x@),
{
    EngineVal::List(x)
}

/// Relies on the wasmtime::component::Val constructor for the matching case.
#[verifier::external_body]
fn ev_record(x: Vec<(String, EngineVal)>) -> (r: EngineVal)
    ensures
        r == ev_record_of(x@),
{
    EngineVal::Record(x)
}

/// Relies on the wasmtime::component::Val constructor for the matching case.
#[verifier::external_body]
fn ev_tuple(x: Vec<EngineVal>) -> (r: EngineVal)
    ensures
        r == ev_tuple_of(x@),
{
    EngineVal::Tuple(x)
}

/// Relies on the wasmtime::component::Val constructor for the matching case.
#[verifier::external_body]
fn ev_variant(name: String, payload: Option<Box<EngineVal>>) -> (r: EngineVal)
    ensures
        r == ev_variant_of(name, unbox_opt(payload)),
{
    EngineVal::Variant(name, payload)
}

/// Relies on the wasmtime::component::Val constructor for the matching case.
#[verifier::external_body]
fn ev_enum(name: String) -> (r: EngineVal)
    ensures
        r == ev_enum_of(name),
{
    EngineVal::Enum(name)
}

/// Relies on the wasmtime::component::Val constructor for the matching case.
#[verifier::external_body]
fn ev_option(payload: Option<Box<EngineVal>>) -> (r: EngineVal)
    ensures
        r == ev_option_of(unbox_opt(payload)),
{
    EngineVal::Option(payload)
}

/// Relies on the wasmtime::component::Val constructor for the matching case.
#[verifier::external_body]
fn ev_result(outcome: Result<Option<Box<EngineVal>>, Option<Box<EngineVal>>>) -> (r: EngineVal)
    ensures
        r == ev_result_of(unbox_outcome(outcome)),
{
    EngineVal::Result(outcome)
}

/// Relies on the wasmtime::component::Val constructor for the matching case.
#[verifier::external_body]
fn ev_flags(names: Vec<String>) -> (r: EngineVal)
    ensures
        r == ev_flags_of(names@),
{
    EngineVal::Flags(names)
}

/// The scalar cases an engine value can hold, as plain values.
enum EngineScalar {
    Bool(bool),
    S8(i8),
    U8(u8),
    S16(i16),
    U16(u16),
    S32(i32),
    U32(u32),
    S64(i64),
    U64(u64),
    Char(char),
    Text(String),
    Other,
}

/// The composite cases an engine value can hold, carrying their children.
enum EngineShape {
    List(Vec<EngineVal>),
    Record(Vec<(String, EngineVal)>),
    Tuple(Vec<EngineVal>),
    Variant(String, Option<Box<EngineVal>>),
    EnumCase(String),
    OptionCase(Option<Box<EngineVal>>),
    ResultCase(Result<Option<Box<EngineVal>>, Option<Box<EngineVal>>>),
    Flags(Vec<String>),
    Unsupported,
}

/// Relies on matching wasmtime::component::Val: tells the scalar cases
/// apart, one arm each, copying the payload out. The clauses invert the
/// constructors both ways: on a value a scalar constructor built, the
/// payload handed in comes back out, and a returned scalar case only ever
/// comes from the matching constructor applied to that payload.
#[verifier::external_body]
fn engine_scalar_of(v: &EngineVal) -> (r: EngineScalar)
    ensures
        forall|x: bool| *v == ev_bool_of(x) ==> r == EngineScalar::Bool(x),
        forall|x: i8| *v == ev_s8_of(x) ==> r == EngineScalar::S8(x),
        forall|x: u8| *v == ev_u8_of(x) ==> r == EngineScalar::U8(x),
        forall|x: i16| *v == ev_s16_of(x) ==> r == EngineScalar::S16(x),
        forall|x: u16| *v == ev_u16_of(x) ==> r == EngineScalar::U16(x),
        forall|x: i32| *v == ev_s32_of(x) ==> r == EngineScalar::S32(x),
        forall|x: u32| *v == ev_u32_of(x) ==> r == EngineScalar::U32(x),
        forall|x: i64| *v == ev_s64_of(x) ==> r == EngineScalar::S64(x),
        forall|x: u64| *v == ev_u64_of(x) ==> r == EngineScalar::U64(x),
        forall|x: char| *v == ev_char_of(x) ==> r == EngineScalar::Char(x),
        forall|x: String| *v == ev_string_of(x) ==> r == EngineScalar::Text(x),
        forall|x: bool| r == EngineScalar::Bool(x) ==> *v == ev_bool_of(x),
        forall|x: i8| r == EngineScalar::S8(x) ==> *v == ev_s8_of(x),
        forall|x: u8| r == EngineScalar::U8(x) ==> *v == ev_u8_of(x),
        forall|x: i16| r == EngineScalar::S16(x) ==> *v == ev_s16_of(x),
        forall|x: u16| r == EngineScalar::U16(x) ==> *v == ev_u16_of(x),
        forall|x: i32| r == EngineScalar::S32(x) ==> *v == ev_s32_of(x),
        forall|x: u32| r == EngineScalar::U32(x) ==> *v == ev_u32_of(x),
        forall|x: i64| r == EngineScalar::S64(x) ==> *v == ev_s64_of(x),
        forall|x: u64| r == EngineScalar::U64(x) ==> *v == ev_u64_of(x),
        forall|x: char| r == EngineScalar::Char(x) ==> *v == ev_char_of(x),
        forall|x: String| r == EngineScalar::Text(x) ==> *v == ev_string_of(x),
{
    match v {
        EngineVal::Bool(x) => EngineScalar::Bool(*x),
        EngineVal::S8(x) => EngineScalar::S8(*x),
        EngineVal::U8(x) => EngineScalar::U8(*x),
        EngineVal::S16(x) => EngineScalar::S16(*x),
        EngineVal::U16(x) => EngineScalar::U16(*x),
        EngineVal::S32(x) => EngineScalar::S32(*x),
        EngineVal::U32(x) => EngineScalar::U32(*x),
        EngineVal::S64(x) => EngineScalar::S64(*x),
        EngineVal::U64(x) => EngineScalar::U64(*x),
        EngineVal::Char(x) => EngineScalar::Char(*x),
        EngineVal::String(x) => EngineScalar::Text(x.clone()),
        _ => EngineScalar::Other,
    }
}

/// Relies on matching wasmtime::component::Val: tells the composite cases
/// apart, one arm each, moving the children out. The clauses invert the
/// constructors both ways: on a value a composite constructor built, the
/// children handed in come back out in order, and a returned composite
/// case only ever comes from the matching constructor applied to the
/// children it carries.
#[verifier::external_body]
fn engine_shape_of(v: EngineVal) -> (r: EngineShape)
    ensures
        forall|items: Seq<EngineVal>| v == ev_list_of(items) ==> r is List && r->List_0@ == items,
        forall|fields: Seq<(String, EngineVal)>| v == ev_record_of(fields) ==> r is Record && r->Record_0@ == fields,
        forall|items: Seq<EngineVal>| v == ev_tuple_of(items) ==> r is Tuple && r->Tuple_0@ == items,
        forall|np: (String, Option<EngineVal>)| v == ev_variant_of(np.0, np.1) ==> r is Variant && r->Variant_0 == np.0 && unbox_opt(r->Variant_1) == np.1,
        forall|n: String| v == ev_enum_of(n) ==> r is EnumCase && r->EnumCase_0 == n,
        forall|p: Option<EngineVal>| v == ev_option_of(p) ==> r is OptionCase && unbox_opt(r->OptionCase_0) == p,
        forall|o: (Result<Option<EngineVal>, Option<EngineVal>>)| v == ev_result_of(o) ==> r is ResultCase && unbox_outcome(r->ResultCase_0) == o,
        forall|ns: Seq<String>| v == ev_flags_of(ns) ==> r is Flags && r->Flags_0@ == ns,
        r is List ==> v == ev_list_of(r->List_0@),
        r is Record ==> v == ev_record_of(r->Record_0@),
        r is Tuple ==> v == ev_tuple_of(r->Tuple_0@),
        r is Variant ==> v == ev_variant_of(r->Variant_0, unbox_opt(r->Variant_1)),
        r is EnumCase ==> v == ev_enum_of(r->EnumCase_0),
        r is OptionCase ==> v == ev_option_of(unbox_opt(r->OptionCase_0)),
        r is ResultCase ==> v == ev_result_of(unbox_outcome(r->ResultCase_0)),
        r is Flags ==> v == ev_flags_of(r->Flags_0@),
{
    match v {
        EngineVal::List(x) => EngineShape::List(x),
        EngineVal::Record(x) => EngineShape::Record(x),
        EngineVal::Tuple(x) => EngineShape::Tuple(x),
        EngineVal::Variant(n, p) => EngineShape::Variant(n, p),
        EngineVal::Enum(n) => EngineShape::EnumCase(n),
        EngineVal::Option(p) => EngineShape::OptionCase(p),
        EngineVal::Result(r) => EngineShape::ResultCase(r),
        EngineVal::Flags(f) => EngineShape::Flags(f),
        _ => EngineShape::Unsupported,
    }
}

/// Whether an engine value is the call representation of a value, case for
/// case over the constructors' named results: structure, element order,
/// field and case names all preserved. Floating-point cases never cross and
/// have no representation.
pub open spec fn is_engine_image(v: Val, w: EngineVal) -> bool
    decreases v,
{
    match v {
        Val::Bool(x) => w == ev_bool_of(x),
        Val::S8(x) => w == ev_s8_of(x),
        Val::U8(x) => w == ev_u8_of(x),
        Val::S16(x) => w == ev_s16_of(x),
        Val::U16(x) => w == ev_u16_of(x),
        Val::S32(x) => w == ev_s32_of(x),
        Val::U32(x) => w == ev_u32_of(x),
        Val::S64(x) => w == ev_s64_of(x),
        Val::U64(x) => w == ev_u64_of(x),
        Val::Float32(b) => false,
        Val::Float64(b) => false,
        Val::Char(x) => w == ev_char_of(x),
        Val::String(x) => w == ev_string_of(x),
        Val::List(items) => exists|ws: Seq<EngineVal>|
            ws.len() == items@.len() && (forall|i: int|
                0 <= i < items@.len() ==> is_engine_image(items@[i], ws[i])) && w == ev_list_of(ws),
        Val::Record(fields) => exists|ws: Seq<(String, EngineVal)>|
            ws.len() == fields@.len() && (forall|i: int|
                0 <= i < fields@.len() ==> ws[i].0 == fields@[i].0 && is_engine_image(
                    fields@[i].1,
                    ws[i].1,
                )) && w == ev_record_of(ws),
        Val::Tuple(items) => exists|ws: Seq<EngineVal>|
            ws.len() == items@.len() && (forall|i: int|
                0 <= i < items@.len() ==> is_engine_image(items@[i], ws[i])) && w == ev_tuple_of(
                ws,
            ),
        Val::Variant(n, p) => match p {
            Some(b) => exists|pw: EngineVal|
                #![trigger ev_variant_of(n, Some(pw))]
                is_engine_image(*b, pw) && w == ev_variant_of(n, Some(pw)),
            None => w == ev_variant_of(n, None),
        },
        Val::Enum(n) => w == ev_enum_of(n),
        Val::Option(p) => match p {
            Some(b) => exists|pw: EngineVal|
                #![trigger ev_option_of(Some(pw))]
                is_engine_image(*b, pw) && w == ev_option_of(Some(pw)),
            None => w == ev_option_of(None),
        },
        Val::Result(res) => match res {
            Ok(Some(b)) => exists|pw: EngineVal|
                #![trigger ev_result_of(Ok(Some(pw)))]
                is_engine_image(*b, pw) && w == ev_result_of(Ok(Some(pw))),
            Ok(None) => w == ev_result_of(Ok(None)),
            Err(Some(b)) => exists|pw: EngineVal|
                #![trigger ev_result_of(Err(Some(pw)))]
                is_engine_image(*b, pw) && w == ev_result_of(Err(Some(pw))),
            Err(None) => w == ev_result_of(Err(None)),
        },
        Val::Flags(names) => w == ev_flags_of(names@),
    }
}

/// Converts a value into the engine's call representation, case for case.
/// Exactly the values free of floating-point cases cross, and what crosses
/// is the value's engine representation.
fn to_engine(v: &Val) -> (r: Result<EngineVal, WasmtimeOffloadError>)
    ensures
        r is Ok <==> !spec_has_float(*v),
        r matches Ok(w) ==> is_engine_image(*v, w),
        r is Err ==> r matches Err(WasmtimeOffloadError::UnsupportedValue),
    decreases *v, 1int,
{
    match v {
        Val::Bool(x) => Ok(ev_bool(*x)),
        Val::S8(x) => Ok(ev_s8(*x)),
        Val::U8(x) => Ok(ev_u8(*x)),
        Val::S16(x) => Ok(ev_s16(*x)),
        Val::U16(x) => Ok(ev_u16(*x)),
        Val::S32(x) => Ok(ev_s32(*x)),
        Val::U32(x) => Ok(ev_u32(*x)),
        Val::S64(x) => Ok(ev_s64(*x)),
        Val::U64(x) => Ok(ev_u64(*x)),
        Val::Float32(b) => Err(WasmtimeOffloadError::UnsupportedValue),
        Val::Float64(b) => Err(WasmtimeOffloadError::UnsupportedValue),
        Val::Char(x) => Ok(ev_char(*x)),
        Val::String(x) => Ok(ev_string(x.clone())),
        Val::List(items) => match to_engine_items(v, items) {
            Ok(out) => {
                let w = ev_list(out);
                proof {
                    assert(is_engine_image(*v, w));
                }
                Ok(w)
            },
            Err(e) => Err(e),
        },
        Val::Tuple(items) => match to_engine_items(v, items) {
            Ok(out) => {
                let w = ev_tuple(out);
                proof {
                    assert(is_engine_image(*v, w));
                }
                Ok(w)
            },
            Err(e) => Err(e),
        },
        Val::Record(fields) => match to_engine_fields(v, fields) {
            Ok(out) => {
                let w = ev_record(out);
                proof {
                    assert(is_engine_image(*v, w));
                }
                Ok(w)
            },
            Err(e) => Err(e),
        },
        Val::Variant(name, payload) => match payload {
            Some(b) => {
                proof {
                    assert(decreases_to!(*v => **b));
                }
                match to_engine(b) {
                    Ok(w) => {
                        let ev = ev_variant(name.clone(), Some(Box::new(w)));
                        proof {
                            assert(is_engine_image(**b, w));
                            assert(ev == ev_variant_of(*name, Some(w)));
                            assert(is_engine_image(*v, ev));
                        }
                        Ok(ev)
                    },
                    Err(e) => Err(e),
                }
            },
            None => {
                let ev = ev_variant(name.clone(), None);
                proof {
                    assert(unbox_opt(None::<Box<EngineVal>>) == None::<EngineVal>);
                }
                Ok(ev)
            },
        },
        Val::Enum(name) => Ok(ev_enum(name.clone())),
        Val::Option(payload) => match payload {
            Some(b) => {
                proof {
                    assert(decreases_to!(*v => **b));
                }
                match to_engine(b) {
                    Ok(w) => {
                        let ev = ev_option(Some(Box::new(w)));
                        proof {
                            assert(is_engine_image(**b, w));
                            assert(ev == ev_option_of(Some(w)));
                            assert(is_engine_image(*v, ev));
                        }
                        Ok(ev)
                    },
                    Err(e) => Err(e),
                }
            },
            None => {
                let ev = ev_option(None);
                proof {
                    assert(unbox_opt(None::<Box<EngineVal>>) == None::<EngineVal>);
                }
                Ok(ev)
            },
        },
        Val::Result(res) => match res {
            Ok(Some(b)) => {
                proof {
                    assert(decreases_to!(*v => **b));
                }
                match to_engine(b) {
                    Ok(w) => {
                        let ev = ev_result(Ok(Some(Box::new(w))));
                        proof {
                            assert(unbox_outcome(Ok(Some(Box::new(w)))) == Ok::<
                                Option<EngineVal>,
                                Option<EngineVal>,
                            >(Some(w)));
                            assert(is_engine_image(*v, ev));
                        }
                        Ok(ev)
                    },
                    Err(e) => Err(e),
                }
            },
            Ok(None) => {
                let ev = ev_result(Ok(None));
                proof {
                    assert(unbox_outcome(Ok(None)) == Ok::<Option<EngineVal>, Option<EngineVal>>(
                        None,
                    ));
                }
                Ok(ev)
            },
            Err(Some(b)) => {
                proof {
                    assert(decreases_to!(*v => **b));
                }
                match to_engine(b) {
                    Ok(w) => {
                        let ev = ev_result(Err(Some(Box::new(w))));
                        proof {
                            assert(unbox_outcome(Err(Some(Box::new(w)))) == Err::<
                                Option<EngineVal>,
                                Option<EngineVal>,
                            >(Some(w)));
                            assert(is_engine_image(*v, ev));
                        }
                        Ok(ev)
                    },
                    Err(e) => Err(e),
                }
            },
            Err(None) => {
                let ev = ev_result(Err(None));
                proof {
                    assert(unbox_outcome(Err(None)) == Err::<Option<EngineVal>, Option<EngineVal>>(
                        None,
                    ));
                }
                Ok(ev)
            },
        },
        Val::Flags(names) => Ok(ev_flags(names.clone())),
    }
}

/// Converts the fields of a record case, in declared order.
fn to_engine_fields(whole: &Val, fields: &Vec<(String, Val)>) -> (r: Result<
    Vec<(String, EngineVal)>,
    WasmtimeOffloadError,
>)
    requires
        *whole == Val::Record(*fields),
    ensures
        r is Ok <==> !(exists|i: int| 0 <= i < fields@.len() && spec_has_float(fields@[i].1)),
        r matches Ok(out) ==> out@.len() == fields@.len() && (forall|i: int|
            0 <= i < fields@.len() ==> out@[i].0 == fields@[i].0 && is_engine_image(
                fields@[i].1,
                out@[i].1,
            )),
        r is Err ==> r matches Err(WasmtimeOffloadError::UnsupportedValue),
    decreases *whole, 0int,
{
    let mut out: Vec<(String, EngineVal)> = Vec::new();
    let mut j: usize = 0;
    while j < fields.len()
        invariant
            j <= fields@.len(),
            *whole == Val::Record(*fields),
            out@.len() == j,
            forall|k: int| 0 <= k < j ==> !spec_has_float(fields@[k].1),
            forall|k: int|
                0 <= k < j ==> out@[k].0 == fields@[k].0 && is_engine_image(
                    fields@[k].1,
                    out@[k].1,
                ),
        decreases fields@.len() - j,
    {
        proof {
            assert(decreases_to!(*whole => whole->Record_0));
            assert(decreases_to!(whole->Record_0 => whole->Record_0@));
            assert(decreases_to!(whole->Record_0@ => whole->Record_0@[j as int]));
            assert(decreases_to!(whole->Record_0@[j as int] => whole->Record_0@[j as int].1));
        }
        match to_engine(&fields[j].1) {
            Ok(w) => out.push((fields[j].0.clone(), w)),
            Err(e) => {
                proof {
                    assert(spec_has_float(fields@[j as int].1));
                }
                return Err(e);
            },
        }
        j = j + 1;
    }
    Ok(out)
}

/// Converts the items of a list or tuple case, in order.
fn to_engine_items(whole: &Val, items: &Vec<Val>) -> (r: Result<
    Vec<EngineVal>,
    WasmtimeOffloadError,
>)
    requires
        *whole == Val::List(*items) || *whole == Val::Tuple(*items),
    ensures
        r is Ok <==> !(exists|i: int| 0 <= i < items@.len() && spec_has_float(items@[i])),
        r matches Ok(out) ==> out@.len() == items@.len() && (forall|i: int|
            0 <= i < items@.len() ==> is_engine_image(items@[i], out@[i])),
        r is Err ==> r matches Err(WasmtimeOffloadError::UnsupportedValue),
    decreases *whole, 0int,
{
    let mut out: Vec<EngineVal> = Vec::new();
    let mut j: usize = 0;
    while j < items.len()
        invariant
            j <= items@.len(),
            *whole == Val::List(*items) || *whole == Val::Tuple(*items),
            out@.len() == j,
            forall|k: int| 0 <= k < j ==> !spec_has_float(items@[k]),
            forall|k: int| 0 <= k < j ==> is_engine_image(items@[k], out@[k]),
        decreases items@.len() - j,
    {
        proof {
            if *whole == Val::List(*items) {
                assert(decreases_to!(*whole => whole->List_0));
                assert(decreases_to!(whole->List_0 => whole->List_0@));
                assert(decreases_to!(whole->List_0@ => whole->List_0@[j as int]));
            } else {
                assert(decreases_to!(*whole => whole->Tuple_0));
                assert(decreases_to!(whole->Tuple_0 => whole->Tuple_0@));
                assert(decreases_to!(whole->Tuple_0@ => whole->Tuple_0@[j as int]));
            }
        }
        match to_engine(&items[j]) {
            Ok(w) => out.push(w),
            Err(e) => {
                proof {
                    assert(spec_has_float(items@[j as int]));
                }
                return Err(e);
            },
        }
        j = j + 1;
    }
    Ok(out)
}

/// How deep a result value handed back by the engine is followed before the
/// conversion gives up.
pub const MAX_RESULT_DEPTH: u64 = 4096;

/// Whether no scalar constructor's named result equals the given engine
/// value; holds of every value the scalar classifier maps to its catch-all.
pub open spec fn no_scalar_name(v: EngineVal) -> bool {
    &&& forall|x: bool| v != ev_bool_of(x)
    &&& forall|x: i8| v != ev_s8_of(x)
    &&& forall|x: u8| v != ev_u8_of(x)
    &&& forall|x: i16| v != ev_s16_of(x)
    &&& forall|x: u16| v != ev_u16_of(x)
    &&& forall|x: i32| v != ev_s32_of(x)
    &&& forall|x: u32| v != ev_u32_of(x)
    &&& forall|x: i64| v != ev_s64_of(x)
    &&& forall|x: u64| v != ev_u64_of(x)
    &&& forall|x: char| v != ev_char_of(x)
    &&& forall|x: String| v != ev_string_of(x)
}

/// Converts an engine value handed back by a call into a value of the
/// model. The engine value is opaque, so the result is whatever the engine
/// produced; values nested beyond `depth`, floating-point cases, and
/// engine-only cases are refused. On a value a scalar constructor built,
/// the conversion inverts that constructor.
fn from_engine(v: EngineVal, depth: u64) -> (r: Result<Val, WasmtimeOffloadError>)
    ensures
        r is Err ==> r matches Err(WasmtimeOffloadError::UnsupportedValue),
        forall|x: bool| v == ev_bool_of(x) ==> r == Ok::<Val, WasmtimeOffloadError>(Val::Bool(x)),
        forall|x: i8| v == ev_s8_of(x) ==> r == Ok::<Val, WasmtimeOffloadError>(Val::S8(x)),
        forall|x: u8| v == ev_u8_of(x) ==> r == Ok::<Val, WasmtimeOffloadError>(Val::U8(x)),
        forall|x: i16| v == ev_s16_of(x) ==> r == Ok::<Val, WasmtimeOffloadError>(Val::S16(x)),
        forall|x: u16| v == ev_u16_of(x) ==> r == Ok::<Val, WasmtimeOffloadError>(Val::U16(x)),
        forall|x: i32| v == ev_s32_of(x) ==> r == Ok::<Val, WasmtimeOffloadError>(Val::S32(x)),
        forall|x: u32| v == ev_u32_of(x) ==> r == Ok::<Val, WasmtimeOffloadError>(Val::U32(x)),
        forall|x: i64| v == ev_s64_of(x) ==> r == Ok::<Val, WasmtimeOffloadError>(Val::S64(x)),
        forall|x: u64| v == ev_u64_of(x) ==> r == Ok::<Val, WasmtimeOffloadError>(Val::U64(x)),
        forall|x: char| v == ev_char_of(x) ==> r == Ok::<Val, WasmtimeOffloadError>(Val::Char(x)),
        forall|x: String| v == ev_string_of(x) ==> r == Ok::<Val, WasmtimeOffloadError>(Val::String(x)),
        r matches Ok(x) ==> is_engine_image(x, v),
    decreases depth, 0int,
{
    match engine_scalar_of(&v) {
        EngineScalar::Bool(x) => Ok(Val::Bool(x)),
        EngineScalar::S8(x) => Ok(Val::S8(x)),
        EngineScalar::U8(x) => Ok(Val::U8(x)),
        EngineScalar::S16(x) => Ok(Val::S16(x)),
        EngineScalar::U16(x) => Ok(Val::U16(x)),
        EngineScalar::S32(x) => Ok(Val::S32(x)),
        EngineScalar::U32(x) => Ok(Val::U32(x)),
        EngineScalar::S64(x) => Ok(Val::S64(x)),
        EngineScalar::U64(x) => Ok(Val::U64(x)),
        EngineScalar::Char(x) => Ok(Val::Char(x)),
        EngineScalar::Text(x) => Ok(Val::String(x)),
        EngineScalar::Other => {
            proof {
                assert(no_scalar_name(v));
            }
            if depth == 0 {
                return Err(WasmtimeOffloadError::UnsupportedValue);
            }
            match engine_shape_of(v) {
                EngineShape::List(children) => {
                    let ghost children0 = children@;
                    match from_engine_items(children, depth - 1) {
                        Ok(out) => {
                            let rv = Val::List(out);
                            proof {
                                assert(is_engine_image(rv, v));
                            }
                            Ok(rv)
                        },
                        Err(e) => Err(e),
                    }
                },
                EngineShape::Tuple(children) => {
                    let ghost children0 = children@;
                    match from_engine_items(children, depth - 1) {
                        Ok(out) => {
                            let rv = Val::Tuple(out);
                            proof {
                                assert(is_engine_image(rv, v));
                            }
                            Ok(rv)
                        },
                        Err(e) => Err(e),
                    }
                },
                EngineShape::Record(children) => {
                    let ghost children0 = children@;
                    let mut work = children;
                    let mut out: Vec<(String, Val)> = Vec::new();
                    while work.len() > 0
                        invariant
                            depth >= 1,
                            no_scalar_name(v),
                            out@.len() + work@.len() == children0.len(),
                            work@ == children0.skip(out@.len() as int),
                            forall|i: int|
                                0 <= i < out@.len() ==> out@[i].0 == children0[i].0
                                    && is_engine_image(out@[i].1, children0[i].1),
                        decreases work@.len(),
                    {
                        let ghost k = out@.len() as int;
                        let (fname, w) = work.remove(0);
                        proof {
                            assert((fname, w) == children0[k]);
                            assert(work@ =~= children0.skip(k + 1));
                        }
                        match from_engine(w, depth - 1) {
                            Ok(x) => out.push((fname, x)),
                            Err(e) => {
                                return Err(e);
                            },
                        }
                    }
                    let rv = Val::Record(out);
                    proof {
                        assert(is_engine_image(rv, v));
                    }
                    Ok(rv)
                },
                EngineShape::Variant(name, payload) => match payload {
                    Some(b) => match from_engine(*b, depth - 1) {
                        Ok(x) => {
                            let ghost pw = *b;
                            let rv = Val::Variant(name, Some(Box::new(x)));
                            proof {
                                assert(v == ev_variant_of(rv->Variant_0, Some(pw)));
                                assert(is_engine_image(rv, v));
                            }
                            Ok(rv)
                        },
                        Err(e) => Err(e),
                    },
                    None => {
                        let rv = Val::Variant(name, None);
                        proof {
                            assert(unbox_opt(None::<Box<EngineVal>>) == None::<EngineVal>);
                            assert(is_engine_image(rv, v));
                        }
                        Ok(rv)
                    },
                },
                EngineShape::EnumCase(name) => Ok(Val::Enum(name)),
                EngineShape::OptionCase(payload) => match payload {
                    Some(b) => match from_engine(*b, depth - 1) {
                        Ok(x) => {
                            let ghost pw = *b;
                            let rv = Val::Option(Some(Box::new(x)));
                            proof {
                                assert(v == ev_option_of(Some(pw)));
                                assert(is_engine_image(rv, v));
                            }
                            Ok(rv)
                        },
                        Err(e) => Err(e),
                    },
                    None => {
                        let rv = Val::Option(None);
                        proof {
                            assert(unbox_opt(None::<Box<EngineVal>>) == None::<EngineVal>);
                            assert(is_engine_image(rv, v));
                        }
                        Ok(rv)
                    },
                },
                EngineShape::ResultCase(outcome) => match outcome {
                    Ok(Some(b)) => match from_engine(*b, depth - 1) {
                        Ok(x) => {
                            let ghost pw = *b;
                            let rv = Val::Result(Ok(Some(Box::new(x))));
                            proof {
                                assert(v == ev_result_of(Ok(Some(pw))));
                                assert(is_engine_image(rv, v));
                            }
                            Ok(rv)
                        },
                        Err(e) => Err(e),
                    },
                    Ok(None) => {
                        let rv = Val::Result(Ok(None));
                        proof {
                            assert(unbox_outcome(Ok(None)) == Ok::<
                                Option<EngineVal>,
                                Option<EngineVal>,
                            >(None));
                            assert(is_engine_image(rv, v));
                        }
                        Ok(rv)
                    },
                    Err(Some(b)) => match from_engine(*b, depth - 1) {
                        Ok(x) => {
                            let ghost pw = *b;
                            let rv = Val::Result(Err(Some(Box::new(x))));
                            proof {
                                assert(v == ev_result_of(Err(Some(pw))));
                                assert(is_engine_image(rv, v));
                            }
                            Ok(rv)
                        },
                        Err(e) => Err(e),
                    },
                    Err(None) => {
                        let rv = Val::Result(Err(None));
                        proof {
                            assert(unbox_outcome(Err(None)) == Err::<
                                Option<EngineVal>,
                                Option<EngineVal>,
                            >(None));
                            assert(is_engine_image(rv, v));
                        }
                        Ok(rv)
                    },
                },
                EngineShape::Flags(names) => Ok(Val::Flags(names)),
                EngineShape::Unsupported => Err(WasmtimeOffloadError::UnsupportedValue),
            }
        },
    }
}

/// Converts the children of a list or tuple handed back by the engine, in
/// order; each converted element is the image-preimage of the child it
/// came from.
fn from_engine_items(children: Vec<EngineVal>, depth: u64) -> (r: Result<
    Vec<Val>,
    WasmtimeOffloadError,
>)
    ensures
        r is Err ==> r matches Err(WasmtimeOffloadError::UnsupportedValue),
        r matches Ok(out) ==> out@.len() == children@.len() && (forall|i: int|
            0 <= i < children@.len() ==> is_engine_image(out@[i], children@[i])),
    decreases depth, 1int,
{
    let ghost children0 = children@;
    let mut work = children;
    let mut out: Vec<Val> = Vec::new();
    while work.len() > 0
        invariant
            out@.len() + work@.len() == children0.len(),
            work@ == children0.skip(out@.len() as int),
            forall|i: int| 0 <= i < out@.len() ==> is_engine_image(out@[i], children0[i]),
        decreases work@.len(),
    {
        let ghost k = out@.len() as int;
        let w = work.remove(0);
        proof {
            assert(w == children0[k]);
            assert(work@ =~= children0.skip(k + 1));
        }
        match from_engine(w, depth) {
            Ok(x) => out.push(x),
            Err(e) => {
                return Err(e);
            },
        }
    }
    Ok(out)
}

/// The persistent connection to the sandbox execution engine. One instance
/// is meant to be shared process-wide behind a mutual-exclusion lock; a call
/// borrows it exclusively for its full duration.
pub struct WasmtimeOffload {
    session: EngineSession,
}

impl WasmtimeOffload {
    /// Builds the engine, its linker with the system interfaces defined,
    /// and a store carrying the system-interface state; the one failure
    /// mode is the engine refusing the interface definitions, surfaced as
    /// the engine's error.
    pub fn new() -> (r: Result<WasmtimeOffload, WasmtimeOffloadError>)
        ensures
            r matches Err(e) ==> e is Wasmtime,
    {
        let engine = engine_new();
        let mut linker = linker_new(&engine);
        match add_wasi_to_linker(&mut linker) {
            Ok(()) => {},
            Err(e) => {
                return Err(WasmtimeOffloadError::Wasmtime(e));
            },
        }
        let store = store_new(&engine, wasi_state_new());
        let session = EngineSession {
            engine,
            linker,
            store,
            components: Vec::new(),
            instances: Vec::new(),
            funcs: Vec::new(),
        };
        Ok(WasmtimeOffload { session })
    }
}

impl OffloadTarget for WasmtimeOffload {
    type Error = WasmtimeOffloadError;

    fn initialize(&mut self) -> (r: Result<(), WasmtimeOffloadError>)
        ensures
            r is Ok,
            *final(self) == *old(self),
    {
        Ok(())
    }

    /// Compiles and instantiates the module, resolves the export, checks the
    /// argument count against the export's own arity, marshals the arguments
    /// in, seeds exactly one output slot when a return is expected, calls,
    /// and marshals the output slot back. The instance stays usable for
    /// further calls whatever the outcome.
    fn call_function(
        &mut self,
        module: &[u8],
        name: &str,
        args: &[Val],
        expects_return: bool,
    ) -> (r: Result<Option<Val>, WasmtimeOffloadError>)
        ensures
            r matches Ok(out) ==> (out is Some <==> expects_return),
            r matches Err(WasmtimeOffloadError::ShapeMismatch { expected, got }) ==> got
                == args@.len() && expected != got,
            (exists|i: int| 0 <= i < args@.len() && spec_has_float(args@[i])) ==> r is Err,
            !expects_return && (r matches Err(WasmtimeOffloadError::UnsupportedValue))
                ==> exists|i: int| 0 <= i < args@.len() && spec_has_float(args@[i]),
    {
        let component_idx = match component_new(&mut self.session, module) {
            Ok(c) => c,
            Err(e) => {
                return Err(WasmtimeOffloadError::Wasmtime(e));
            },
        };
        let instance_idx = match instantiate(&mut self.session, component_idx) {
            Ok(i) => i,
            Err(e) => {
                return Err(WasmtimeOffloadError::Wasmtime(e));
            },
        };
        let func_idx = match get_func(&mut self.session, instance_idx, name) {
            Some(f) => f,
            None => {
                return Err(WasmtimeOffloadError::MissingExport);
            },
        };
        let expected = func_param_count(&mut self.session, func_idx);
        if expected != args.len() {
            return Err(WasmtimeOffloadError::ShapeMismatch { expected, got: args.len() });
        }
        let mut eargs: Vec<EngineVal> = Vec::new();
        let mut i: usize = 0;
        while i < args.len()
            invariant
                i <= args@.len(),
                eargs@.len() == i,
                forall|k: int| 0 <= k < i ==> !spec_has_float(args@[k]),
                forall|k: int| 0 <= k < i ==> is_engine_image(args@[k], eargs@[k]),
            decreases args@.len() - i,
        {
            match to_engine(&args[i]) {
                Ok(w) => eargs.push(w),
                Err(e) => {
                    proof {
                        assert(spec_has_float(args@[i as int]));
                    }
                    return Err(e);
                },
            }
            i = i + 1;
        }
        let mut outs: Vec<EngineVal> = Vec::new();
        if expects_return {
            outs.push(ev_u32(0));
        }
        match func_call(&mut self.session, func_idx, &eargs, &mut outs) {
            Ok(()) => {},
            Err(e) => {
                return Err(WasmtimeOffloadError::Wasmtime(e));
            },
        }
        if expects_return {
            match outs.pop() {
                Some(w) => match from_engine(w, MAX_RESULT_DEPTH) {
                    Ok(x) => Ok(Some(x)),
                    Err(e) => Err(e),
                },
                None => vstd::pervasive::unreached(),
            }
        } else {
            Ok(None)
        }
    }
}

} // verus!
