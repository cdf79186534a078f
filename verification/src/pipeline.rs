//! The build pipeline's decisions, as pure functions: the guest-side texts
//! to materialize, the fixed file layout of the standalone build
//! environment, and the ordered steps an executor must perform. The file
//! writes and toolchain invocations themselves are outside work and stay
//! with the caller that performs them.

use vstd::prelude::*;

use crate::assemble::AssemblyError;
use crate::assemble::FuncSigView;
use crate::assemble::InterfacePackage;
use crate::assemble::PackageView;
use crate::assemble::assemble;
use crate::assemble::first_unresolved_in_package;
use crate::assemble::spec_hyphenate;
use crate::assemble::spec_wit_text;
use crate::assemble::translate_signature;
use crate::translate::NativeTy;
use crate::translate::NativeType;
use crate::translate::RecordDefView;
use crate::translate::RecordDefinition;
use crate::translate::WitType;
use crate::translate::push_char;
use crate::translate::lower_ident;
use crate::translate::spec_lower_ident;
use crate::assemble::hyphenate;
use crate::translate::TranslationError;
use crate::translate::TypeContext;
use crate::translate::UnsupportedKind;
use crate::translate::WitTy;
use crate::translate::native_fields_view;
use crate::translate::spec_names_unique;
use crate::translate::spec_translate;
use crate::translate::spec_translate_fields;

verus! {

/// The guest implementation unit: the generated bindings boilerplate with
/// the offloaded function item embedded verbatim.
pub open spec fn spec_component_source(body: Seq<char>) -> Seq<char> {
    "mod bindings {\n    wit_bindgen::generate!({\n        world: \"offload\"\n    });\n}\n\nuse bindings::*;\n\npub struct Component;\nbindings::export!(Component with_types_in bindings);\n\nimpl bindings::Guest for Component {\n"@
        + body + "\n}\n"@
}

/// Materializes the guest implementation unit around the given function
/// item text.
pub fn component_source(body: &str) -> (r: String)
    ensures
        r@ == spec_component_source(body@),
{
    let mut s = String::from_str(
        "mod bindings {\n    wit_bindgen::generate!({\n        world: \"offload\"\n    });\n}\n\nuse bindings::*;\n\npub struct Component;\nbindings::export!(Component with_types_in bindings);\n\nimpl bindings::Guest for Component {\n",
    );
    s.append(body);
    s.append("\n}\n");
    s
}

/// The manifest of the standalone guest build environment.
pub fn guest_manifest_text() -> (r: String)
    ensures
        r@
            == "\n[package]\nname = \"offloaded\"\nversion = \"0.1.0\"\nedition = \"2021\"\n\n[lib]\ncrate-type = [\"cdylib\"]\n\n[dependencies]\n\n[workspace]\n"@,
{
    String::from_str(
        "\n[package]\nname = \"offloaded\"\nversion = \"0.1.0\"\nedition = \"2021\"\n\n[lib]\ncrate-type = [\"cdylib\"]\n\n[dependencies]\n\n[workspace]\n",
    )
}

/// The build environment's root directory; its presence marks an already
/// initialized environment.
pub fn guest_root_dir() -> (r: String)
    ensures
        r@ == "offloaded"@,
{
    String::from_str("offloaded")
}

/// Where the environment's manifest is written.
pub fn guest_manifest_path() -> (r: String)
    ensures
        r@ == "offloaded/Cargo.toml"@,
{
    String::from_str("offloaded/Cargo.toml")
}

/// Where the guest implementation unit is written.
pub fn guest_source_path() -> (r: String)
    ensures
        r@ == "offloaded/src/lib.rs"@,
{
    String::from_str("offloaded/src/lib.rs")
}

/// Where the interface-description text is written.
pub fn guest_interface_path() -> (r: String)
    ensures
        r@ == "offloaded/wit/offloaded.wit"@,
{
    String::from_str("offloaded/wit/offloaded.wit")
}

/// Where the compiled guest module is read back from.
pub fn guest_artifact_path() -> (r: String)
    ensures
        r@ == "offloaded/target/wasm32-wasip2/release/offloaded.wasm"@,
{
    String::from_str("offloaded/target/wasm32-wasip2/release/offloaded.wasm")
}

/// One step an executor of the build pipeline performs, in order.
#[derive(Debug, PartialEq, Eq, Structural, Clone, Copy)]
pub enum BuildStep {
    /// Create the standalone guest crate.
    CreateGuestCrate,
    /// Write the guest manifest text.
    WriteGuestManifest,
    /// Add the bindings-generator dependency to the guest crate.
    AddBindingsDependency,
    /// Write the guest implementation unit.
    WriteGuestSource,
    /// Write the interface-description text.
    WriteInterfaceText,
    /// Compile the guest crate for the sandbox's component target,
    /// release-optimized.
    CompileGuest,
    /// Read the compiled module bytes back.
    ReadArtifact,
}

/// The ordered steps of one build: environment initialization happens once,
/// detected by the marker directory's presence, and is skipped thereafter.
pub fn build_plan(env_ready: bool) -> (r: Vec<BuildStep>)
    ensures
        !env_ready ==> r@ =~= seq![
            BuildStep::CreateGuestCrate,
            BuildStep::WriteGuestManifest,
            BuildStep::AddBindingsDependency,
            BuildStep::WriteGuestSource,
            BuildStep::WriteInterfaceText,
            BuildStep::CompileGuest,
            BuildStep::ReadArtifact,
        ],
        env_ready ==> r@ =~= seq![
            BuildStep::WriteGuestSource,
            BuildStep::WriteInterfaceText,
            BuildStep::CompileGuest,
            BuildStep::ReadArtifact,
        ],
{
    let mut steps: Vec<BuildStep> = Vec::new();
    if !env_ready {
        steps.push(BuildStep::CreateGuestCrate);
        steps.push(BuildStep::WriteGuestManifest);
        steps.push(BuildStep::AddBindingsDependency);
    }
    steps.push(BuildStep::WriteGuestSource);
    steps.push(BuildStep::WriteInterfaceText);
    steps.push(BuildStep::CompileGuest);
    steps.push(BuildStep::ReadArtifact);
    steps
}

/// An upper-cased identifier character: ASCII lowercase letters rise to
/// uppercase; any other character passes through unchanged.
pub open spec fn upper_char(c: char) -> char {
    if 'a' <= c && c <= 'z' {
        ((c as u8) - 32) as char
    } else {
        c
    }
}

/// The upper-camel text of a lowered name from some position on: a hyphen
/// is dropped and capitalizes what follows; the flag says whether the next
/// letter is capitalized.
pub open spec fn spec_camel_rec(s: Seq<char>, cap: bool) -> Seq<char>
    decreases s.len(),
{
    if s.len() == 0 {
        Seq::empty()
    } else if s.first() == '-' {
        spec_camel_rec(s.drop_first(), true)
    } else if cap {
        seq![upper_char(s.first())] + spec_camel_rec(s.drop_first(), false)
    } else {
        seq![s.first()] + spec_camel_rec(s.drop_first(), false)
    }
}

/// The upper-camel type name derived from a lowered record name, as the
/// generated host-side conversion spells it.
pub open spec fn spec_upper_camel(s: Seq<char>) -> Seq<char> {
    spec_camel_rec(s, true)
}

/// Derives the upper-camel type name from a lowered record name.
pub fn upper_camel(name: &str) -> (r: String)
    ensures
        r@ == spec_upper_camel(name@),
{
    let n = name.unicode_len();
    let mut out = String::new();
    let mut cap = true;
    let mut i: usize = 0;
    proof {
        assert(name@.skip(0) =~= name@);
        assert(out@ + spec_camel_rec(name@, true) =~= spec_camel_rec(name@, true));
    }
    while i < n
        invariant
            i <= n,
            n == name@.len(),
            out@ + spec_camel_rec(name@.skip(i as int), cap) == spec_upper_camel(name@),
        decreases n - i,
    {
        proof {
            assert(name@.skip(i as int).first() == name@[i as int]);
            assert(name@.skip(i as int).drop_first() =~= name@.skip(i + 1));
        }
        let ghost out0 = out@;
        let c = name.get_char(i);
        if c == '-' {
            cap = true;
        } else {
            let u = c as u32;
            let oc: char = if cap && 97 <= u && u <= 122 {
                ((c as u8) - 32) as char
            } else {
                c
            };
            proof {
                assert(oc == if cap {
                    upper_char(name@[i as int])
                } else {
                    name@[i as int]
                });
            }
            push_char(&mut out, oc);
            proof {
                assert(out@ + spec_camel_rec(name@.skip(i + 1), false) =~= out0 + (seq![oc]
                    + spec_camel_rec(name@.skip(i + 1), false)));
            }
            cap = false;
        }
        i = i + 1;
    }
    proof {
        assert(name@.skip(n as int) =~= Seq::<char>::empty());
        assert(out@ + Seq::<char>::empty() =~= out@);
    }
    out
}

/// One field line of the generated host-side conversion: pushes the field
/// by name, in place, converting its value.
pub open spec fn spec_field_push_line(name: Seq<char>) -> Seq<char> {
    "        value.push((\""@ + name + "\".to_string(), self."@ + name + ".into()));\n"@
}

/// The field lines of one record's conversion, in declared order.
pub open spec fn spec_field_push_lines(fs: Seq<(Seq<char>, crate::translate::WitTy)>) -> Seq<char>
    decreases fs.len(),
{
    if fs.len() == 0 {
        Seq::empty()
    } else {
        spec_field_push_lines(fs.drop_last()) + spec_field_push_line(fs.last().0)
    }
}

/// The host-side conversion impl for one record: it builds the value's
/// field pairs in declared order and wraps them as a record value.
pub open spec fn spec_into_impl_text(r: RecordDefView) -> Seq<char> {
    "impl Into<wasm_offload::Val> for "@ + spec_upper_camel(r.name)
        + " {\n    fn into(self) -> wasm_offload::Val {\n        let mut value = vec![];\n"@
        + spec_field_push_lines(r.fields) + "        wasm_offload::Val::Record(value)\n    }\n}\n"@
}

/// The conversion impls for all registered records, in registration order.
pub open spec fn spec_into_impls_text(rs: Seq<RecordDefView>) -> Seq<char>
    decreases rs.len(),
{
    if rs.len() == 0 {
        Seq::empty()
    } else {
        spec_into_impls_text(rs.drop_last()) + spec_into_impl_text(rs.last())
    }
}

fn field_push_lines(fields: &Vec<(String, WitType)>) -> (r: String)
    ensures
        r@ == spec_field_push_lines(fields@.map(|i: int, p: (String, WitType)| (p.0@, p.1@))),
{
    let ghost fsv = fields@.map(|i: int, p: (String, WitType)| (p.0@, p.1@));
    let mut s = String::new();
    let mut i: usize = 0;
    while i < fields.len()
        invariant
            i <= fields@.len(),
            fsv == fields@.map(|k: int, p: (String, WitType)| (p.0@, p.1@)),
            s@ == spec_field_push_lines(fsv.take(i as int)),
        decreases fields@.len() - i,
    {
        s.append("        value.push((\"");
        s.append(fields[i].0.as_str());
        s.append("\".to_string(), self.");
        s.append(fields[i].0.as_str());
        s.append(".into()));\n");
        i = i + 1;
        proof {
            assert(fsv.take(i as int).drop_last() =~= fsv.take(i - 1));
            assert(fsv.take(i as int).last() == fsv[i - 1]);
        }
    }
    proof {
        assert(fsv.take(fsv.len() as int) =~= fsv);
    }
    s
}

/// Materializes the host-side conversion impl for one record definition.
pub fn record_into_impl_text(rd: &RecordDefinition) -> (r: String)
    ensures
        r@ == spec_into_impl_text(rd@),
{
    let mut s = String::from_str("impl Into<wasm_offload::Val> for ");
    let camel = upper_camel(rd.name.as_str());
    s.append(camel.as_str());
    s.append(" {\n    fn into(self) -> wasm_offload::Val {\n        let mut value = vec![];\n");
    let fl = field_push_lines(&rd.fields);
    s.append(fl.as_str());
    s.append("        wasm_offload::Val::Record(value)\n    }\n}\n");
    s
}

fn records_into_impls_text(records: &Vec<RecordDefinition>) -> (r: String)
    ensures
        r@ == spec_into_impls_text(records@.map(|i: int, rd: RecordDefinition| rd@)),
{
    let ghost rs = records@.map(|i: int, rd: RecordDefinition| rd@);
    let mut s = String::new();
    let mut i: usize = 0;
    while i < records.len()
        invariant
            i <= records@.len(),
            rs == records@.map(|k: int, rd: RecordDefinition| rd@),
            s@ == spec_into_impls_text(rs.take(i as int)),
        decreases records@.len() - i,
    {
        let it = record_into_impl_text(&records[i]);
        s.append(it.as_str());
        i = i + 1;
        proof {
            assert(rs.take(i as int).drop_last() =~= rs.take(i - 1));
            assert(rs.take(i as int).last() == rs[i - 1]);
        }
    }
    proof {
        assert(rs.take(rs.len() as int) =~= rs);
    }
    s
}

/// The Rust text of a native type, as the generated stub's signature
/// spells it: sequence, optional and outcome wrappers by their native
/// names, a record reference by its upper-camel type name, and nothing for
/// an unsupported category (which never survives translation).
pub open spec fn spec_native_type_text(t: NativeTy) -> Seq<char>
    decreases t,
{
    match t {
        NativeTy::S8 => "i8"@,
        NativeTy::S16 => "i16"@,
        NativeTy::S32 => "i32"@,
        NativeTy::S64 => "i64"@,
        NativeTy::U8 => "u8"@,
        NativeTy::U16 => "u16"@,
        NativeTy::U32 => "u32"@,
        NativeTy::U64 => "u64"@,
        NativeTy::Isize => "isize"@,
        NativeTy::Usize => "usize"@,
        NativeTy::Float32 => "f32"@,
        NativeTy::Float64 => "f64"@,
        NativeTy::String => "String"@,
        NativeTy::Sequence(inner) => "Vec<"@ + spec_native_type_text(*inner) + ">"@,
        NativeTy::Optional(inner) => "Option<"@ + spec_native_type_text(*inner) + ">"@,
        NativeTy::Outcome(ok, err) => "Result<"@ + spec_native_type_text(*ok) + ", "@
            + spec_native_type_text(*err) + ">"@,
        NativeTy::Named(n) => spec_upper_camel(spec_lower_ident(n)),
        NativeTy::Unsupported(k) => Seq::empty(),
    }
}

/// Renders one native type as the stub's signature spells it.
pub fn native_type_text(t: &NativeType) -> (r: String)
    ensures
        r@ == spec_native_type_text(t@),
    decreases *t,
{
    match t {
        NativeType::S8 => String::from_str("i8"),
        NativeType::S16 => String::from_str("i16"),
        NativeType::S32 => String::from_str("i32"),
        NativeType::S64 => String::from_str("i64"),
        NativeType::U8 => String::from_str("u8"),
        NativeType::U16 => String::from_str("u16"),
        NativeType::U32 => String::from_str("u32"),
        NativeType::U64 => String::from_str("u64"),
        NativeType::Isize => String::from_str("isize"),
        NativeType::Usize => String::from_str("usize"),
        NativeType::Float32 => String::from_str("f32"),
        NativeType::Float64 => String::from_str("f64"),
        NativeType::String => String::from_str("String"),
        NativeType::Sequence(inner) => {
            let mut s = String::from_str("Vec<");
            let it = native_type_text(inner);
            s.append(it.as_str());
            s.append(">");
            s
        },
        NativeType::Optional(inner) => {
            let mut s = String::from_str("Option<");
            let it = native_type_text(inner);
            s.append(it.as_str());
            s.append(">");
            s
        },
        NativeType::Outcome(ok, err) => {
            let mut s = String::from_str("Result<");
            let ot = native_type_text(ok);
            s.append(ot.as_str());
            s.append(", ");
            let et = native_type_text(err);
            s.append(et.as_str());
            s.append(">");
            s
        },
        NativeType::Named(n) => {
            let lowered = lower_ident(n.as_str());
            upper_camel(lowered.as_str())
        },
        NativeType::Unsupported(k) => String::new(),
    }
}

/// The stub's comma-separated parameter list, in declared order.
pub open spec fn spec_stub_params_text(ps: Seq<(Seq<char>, NativeTy)>) -> Seq<char>
    decreases ps.len(),
{
    if ps.len() == 0 {
        Seq::empty()
    } else if ps.len() == 1 {
        ps.last().0 + ": "@ + spec_native_type_text(ps.last().1)
    } else {
        spec_stub_params_text(ps.drop_last()) + ", "@ + ps.last().0 + ": "@
            + spec_native_type_text(ps.last().1)
    }
}

/// The stub's comma-separated argument conversions, in declared order.
pub open spec fn spec_stub_args_text(ps: Seq<(Seq<char>, NativeTy)>) -> Seq<char>
    decreases ps.len(),
{
    if ps.len() == 0 {
        Seq::empty()
    } else if ps.len() == 1 {
        ps.last().0 + ".into()"@
    } else {
        spec_stub_args_text(ps.drop_last()) + ", "@ + ps.last().0 + ".into()"@
    }
}

fn stub_params_text(params: &Vec<(String, NativeType)>) -> (r: String)
    ensures
        r@ == spec_stub_params_text(params@.map(|i: int, p: (String, NativeType)| (p.0@, p.1@))),
{
    let ghost psv = params@.map(|i: int, p: (String, NativeType)| (p.0@, p.1@));
    let mut s = String::new();
    let mut i: usize = 0;
    while i < params.len()
        invariant
            i <= params@.len(),
            psv == params@.map(|k: int, p: (String, NativeType)| (p.0@, p.1@)),
            s@ == spec_stub_params_text(psv.take(i as int)),
        decreases params@.len() - i,
    {
        if i > 0 {
            s.append(", ");
        }
        s.append(params[i].0.as_str());
        s.append(": ");
        let tt = native_type_text(&params[i].1);
        s.append(tt.as_str());
        i = i + 1;
        proof {
            assert(psv.take(i as int).drop_last() =~= psv.take(i - 1));
            assert(psv.take(i as int).last() == psv[i - 1]);
        }
    }
    proof {
        assert(psv.take(psv.len() as int) =~= psv);
    }
    s
}

fn stub_args_text(params: &Vec<(String, NativeType)>) -> (r: String)
    ensures
        r@ == spec_stub_args_text(params@.map(|i: int, p: (String, NativeType)| (p.0@, p.1@))),
{
    let ghost psv = params@.map(|i: int, p: (String, NativeType)| (p.0@, p.1@));
    let mut s = String::new();
    let mut i: usize = 0;
    while i < params.len()
        invariant
            i <= params@.len(),
            psv == params@.map(|k: int, p: (String, NativeType)| (p.0@, p.1@)),
            s@ == spec_stub_args_text(psv.take(i as int)),
        decreases params@.len() - i,
    {
        if i > 0 {
            s.append(", ");
        }
        s.append(params[i].0.as_str());
        s.append(".into()");
        i = i + 1;
        proof {
            assert(psv.take(i as int).drop_last() =~= psv.take(i - 1));
            assert(psv.take(i as int).last() == psv[i - 1]);
        }
    }
    proof {
        assert(psv.take(psv.len() as int) =~= psv);
    }
    s
}

/// The host-side replacement function for one offload site: it converts
/// the native arguments, locks the shared runtime, calls the export under
/// the lowered name with the module bytes named by `module_expr`, and
/// hands back the result value, or unit when no return is declared.
pub open spec fn spec_stub_function_text(
    name: Seq<char>,
    params: Seq<(Seq<char>, NativeTy)>,
    expects_return: bool,
    module_expr: Seq<char>,
) -> Seq<char> {
    "pub fn "@ + name + "("@ + spec_stub_params_text(params) + (if expects_return {
        ") -> Result<wasm_offload::Val, Box<dyn std::error::Error>> {\n    let wasm = "@
    } else {
        ") -> Result<(), Box<dyn std::error::Error>> {\n    let wasm = "@
    }) + module_expr + ";\n    let res = OFFLOADER.lock()?.call_function(&wasm, \""@
        + spec_hyphenate(name) + "\", &["@ + spec_stub_args_text(params) + (if expects_return {
        "], true)?;\n    Ok(res.unwrap())\n}\n"@
    } else {
        "], false)?;\n    let _ = res;\n    Ok(())\n}\n"@
    })
}

/// Materializes the host-side replacement function for one offload site.
pub fn stub_function_text(
    name: &str,
    params: &Vec<(String, NativeType)>,
    expects_return: bool,
    module_expr: &str,
) -> (r: String)
    ensures
        r@ == spec_stub_function_text(
            name@,
            params@.map(|i: int, p: (String, NativeType)| (p.0@, p.1@)),
            expects_return,
            module_expr@,
        ),
{
    let mut s = String::from_str("pub fn ");
    s.append(name);
    s.append("(");
    let pt = stub_params_text(params);
    s.append(pt.as_str());
    if expects_return {
        s.append(") -> Result<wasm_offload::Val, Box<dyn std::error::Error>> {\n    let wasm = ");
    } else {
        s.append(") -> Result<(), Box<dyn std::error::Error>> {\n    let wasm = ");
    }
    s.append(module_expr);
    s.append(";\n    let res = OFFLOADER.lock()?.call_function(&wasm, \"");
    let hy = hyphenate(name);
    s.append(hy.as_str());
    s.append("\", &[");
    let at = stub_args_text(params);
    s.append(at.as_str());
    if expects_return {
        s.append("], true)?;\n    Ok(res.unwrap())\n}\n");
    } else {
        s.append("], false)?;\n    let _ = res;\n    Ok(())\n}\n");
    }
    s
}

/// The artifacts of one offload site that the executor writes out: the
/// assembled package, its interface-description text, the guest
/// implementation unit, the host-side conversion impls, and the host-side
/// replacement function that embeds the compiled module and drives the
/// shared runtime.
#[derive(Debug)]
pub struct OffloadArtifacts {
    pub package: InterfacePackage,
    pub interface_text: String,
    pub guest_source: String,
    pub stub_impls: String,
    pub stub_function: String,
}

/// A failure of the offload step.
#[derive(Debug, PartialEq)]
pub enum OffloadError {
    Translation(TranslationError),
    Assembly(AssemblyError),
}

/// The explicit offload step: translates the declared signature against the
/// registered records, assembles the interface package fail-fast, and
/// materializes the texts the build environment needs. Fatal at
/// code-generation time: any failure aborts this site with its diagnosis.
pub fn offload(
    ctx: TypeContext,
    name: &str,
    params: Vec<(String, NativeType)>,
    ret: Option<NativeType>,
    body: &str,
) -> (r: Result<OffloadArtifacts, OffloadError>)
    ensures
        match r {
            Ok(a) => {
                &&& spec_names_unique(native_fields_view(params@))
                &&& a.package@.records == ctx@
                &&& a.package@.func.name == spec_hyphenate(name@)
                &&& spec_translate_fields(native_fields_view(params@)) == Ok::<
                    Seq<(Seq<char>, WitTy)>,
                    UnsupportedKind,
                >(a.package@.func.params)
                &&& match (ret, a.package@.func.ret) {
                    (Some(t), Some(w)) => spec_translate(t@) == Ok::<WitTy, UnsupportedKind>(w),
                    (None, None) => true,
                    _ => false,
                }
                &&& first_unresolved_in_package(a.package@) is None
                &&& a.interface_text@ == spec_wit_text(a.package@)
                &&& a.guest_source@ == spec_component_source(body@)
                &&& a.stub_impls@ == spec_into_impls_text(ctx@)
                &&& a.stub_function@ == spec_stub_function_text(
                    name@,
                    native_fields_view(params@),
                    ret is Some,
                    "include_bytes!(\"offloaded/target/wasm32-wasip2/release/offloaded.wasm\").to_vec()"@,
                )
            },
            Err(OffloadError::Translation(TranslationError::DuplicateField(n))) => {
                &&& exists|i: int, j: int|
                    0 <= i < j < params@.len() && params@[i].0@ == n@ && params@[j].0@ == n@
            },
            Err(OffloadError::Translation(TranslationError::Unsupported(k))) => {
                &&& spec_names_unique(native_fields_view(params@))
                &&& {
                    ||| spec_translate_fields(native_fields_view(params@)) == Err::<
                        Seq<(Seq<char>, WitTy)>,
                        UnsupportedKind,
                    >(k)
                    ||| {
                        &&& spec_translate_fields(native_fields_view(params@)) is Ok
                        &&& ret matches Some(t) && spec_translate(t@) == Err::<
                            WitTy,
                            UnsupportedKind,
                        >(k)
                    }
                }
            },
            Err(OffloadError::Translation(TranslationError::DuplicateRecord(n))) => false,
            Err(OffloadError::Assembly(AssemblyError::UnresolvedReference(n))) => {
                &&& spec_translate_fields(native_fields_view(params@)) is Ok
                &&& (ret matches Some(t) ==> spec_translate(t@) is Ok)
                &&& first_unresolved_in_package(
                    (PackageView {
                        records: ctx@,
                        func: (FuncSigView {
                            name: spec_hyphenate(name@),
                            params: spec_translate_fields(native_fields_view(params@))->Ok_0,
                            ret: match ret {
                                Some(t) => Some(spec_translate(t@)->Ok_0),
                                None => None,
                            },
                        }),
                    }),
                ) == Some(n@)
            },
        },
{
    let expects_return: bool = match &ret {
        Some(t) => true,
        None => false,
    };
    let stub_function = stub_function_text(
        name,
        &params,
        expects_return,
        "include_bytes!(\"offloaded/target/wasm32-wasip2/release/offloaded.wasm\").to_vec()",
    );
    let sig = match translate_signature(name, params, ret) {
        Ok(sig) => sig,
        Err(e) => {
            return Err(OffloadError::Translation(e));
        },
    };
    let package = match assemble(ctx, sig) {
        Ok(p) => p,
        Err(e) => {
            return Err(OffloadError::Assembly(e));
        },
    };
    let interface_text = package.wit_text();
    let guest_source = component_source(body);
    let stub_impls = records_into_impls_text(&package.records);
    Ok(OffloadArtifacts { package, interface_text, guest_source, stub_impls, stub_function })
}

} // verus!
