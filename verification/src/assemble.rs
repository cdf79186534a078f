//! The interface assembler: composes the registered record definitions and
//! one function signature into a complete interface package, and emits the
//! package's interface-description text deterministically.
//!
//! Assembly is fail-fast: a named reference that matches no registered
//! record definition is reported, never emitted dangling.

use vstd::prelude::*;

use crate::translate::NativeType;
use crate::translate::RecordDefView;
use crate::translate::RecordDefinition;
use crate::translate::TranslationError;
use crate::translate::TypeContext;
use crate::translate::WitTy;
use crate::translate::WitType;
use crate::translate::native_fields_view;
use crate::translate::push_char;
use crate::translate::first_duplicate_name;
use crate::translate::spec_names_unique;
use crate::translate::spec_has_record;
use crate::translate::spec_translate;
use crate::translate::spec_translate_fields;
use crate::translate::translate;

verus! {

/// A function signature: a lowered name, parameters in declared order, and
/// an optional single return type.
#[derive(Debug, PartialEq)]
pub struct FunctionSignature {
    pub name: String,
    pub params: Vec<(String, WitType)>,
    pub ret: Option<WitType>,
}

/// The spec-level value of a function signature.
pub struct FuncSigView {
    pub name: Seq<char>,
    pub params: Seq<(Seq<char>, WitTy)>,
    pub ret: Option<WitTy>,
}

impl View for FunctionSignature {
    type V = FuncSigView;

    open spec fn view(&self) -> FuncSigView {
        FuncSigView {
            name: self.name@,
            params: self.params@.map(|i: int, p: (String, WitType)| (p.0@, p.1@)),
            ret: match self.ret {
                Some(t) => Some(t@),
                None => None,
            },
        }
    }
}

/// A word-separator normalization: underscores become hyphens, character for
/// character, as exported function names are written in the
/// interface description.
pub open spec fn spec_hyphenate(s: Seq<char>) -> Seq<char> {
    s.map(|i: int, c: char| if c == '_' { '-' } else { c })
}

/// Normalizes word separators in a declared function name: underscores
/// become hyphens, character for character.
pub fn hyphenate(name: &str) -> (r: String)
    ensures
        r@ == spec_hyphenate(name@),
{
    let n = name.unicode_len();
    let mut out = String::new();
    let mut i: usize = 0;
    while i < n
        invariant
            i <= n,
            n == name@.len(),
            out@ == spec_hyphenate(name@.take(i as int)),
        decreases n - i,
    {
        let c = name.get_char(i);
        let hc: char = if c == '_' {
            '-'
        } else {
            c
        };
        push_char(&mut out, hc);
        i = i + 1;
        proof {
            assert(name@.take(i as int).map(|j: int, c: char| if c == '_' {
                '-'
            } else {
                c
            }) =~= name@.take(i - 1).map(|j: int, c: char| if c == '_' {
                '-'
            } else {
                c
            }).push(if name@[i - 1] == '_' {
                '-'
            } else {
                name@[i - 1]
            }));
        }
    }
    proof {
        assert(name@.take(n as int) =~= name@);
    }
    out
}

/// Translates a declared signature: each parameter's type independently and
/// in order, the return type last, with the exported name's word separators
/// normalized. A repeated parameter name is refused first; after that the
/// first unsupported type wins, as with record fields.
pub fn translate_signature(
    name: &str,
    params: Vec<(String, NativeType)>,
    ret: Option<NativeType>,
) -> (r: Result<FunctionSignature, TranslationError>)
    ensures
        match r {
            Ok(sig) => {
                &&& spec_names_unique(native_fields_view(params@))
                &&& sig@.name == spec_hyphenate(name@)
                &&& spec_translate_fields(native_fields_view(params@)) == Ok::<
                    Seq<(Seq<char>, WitTy)>,
                    crate::translate::UnsupportedKind,
                >(sig@.params)
                &&& match (ret, sig@.ret) {
                    (Some(t), Some(w)) => spec_translate(t@) == Ok::<
                        WitTy,
                        crate::translate::UnsupportedKind,
                    >(w),
                    (None, None) => true,
                    _ => false,
                }
            },
            Err(TranslationError::DuplicateField(n)) => {
                &&& exists|i: int, j: int|
                    0 <= i < j < params@.len() && params@[i].0@ == n@ && params@[j].0@ == n@
            },
            Err(TranslationError::Unsupported(k)) => {
                &&& spec_names_unique(native_fields_view(params@))
                &&& {
                    ||| spec_translate_fields(native_fields_view(params@))
                        == Err::<Seq<(Seq<char>, WitTy)>, crate::translate::UnsupportedKind>(k)
                    ||| {
                        &&& spec_translate_fields(native_fields_view(params@)) is Ok
                        &&& ret matches Some(t) && spec_translate(t@) == Err::<
                            WitTy,
                            crate::translate::UnsupportedKind,
                        >(k)
                    }
                }
            },
            Err(TranslationError::DuplicateRecord(n)) => false,
        },
{
    if let Some(n) = first_duplicate_name(&params) {
        return Err(TranslationError::DuplicateField(n));
    }
    let mut ctx_params: Vec<(String, WitType)> = Vec::new();
    let mut i: usize = 0;
    proof {
        assert(native_fields_view(params@.take(0)) =~= Seq::<
            (Seq<char>, crate::translate::NativeTy),
        >::empty());
        assert(ctx_params@.map(|j: int, p: (String, WitType)| (p.0@, p.1@)) =~= Seq::<
            (Seq<char>, WitTy),
        >::empty());
    }
    while i < params.len()
        invariant
            i <= params@.len(),
            spec_names_unique(native_fields_view(params@)),
            spec_translate_fields(native_fields_view(params@.take(i as int))) == Ok::<
                Seq<(Seq<char>, WitTy)>,
                crate::translate::UnsupportedKind,
            >(ctx_params@.map(|j: int, p: (String, WitType)| (p.0@, p.1@))),
        decreases params@.len() - i,
    {
        let ghost done0 = ctx_params@;
        proof {
            assert(native_fields_view(params@.take(i + 1)).drop_last() =~= native_fields_view(
                params@.take(i as int),
            ));
            assert(native_fields_view(params@.take(i + 1)).last() == (
                params@[i as int].0@,
                params@[i as int].1@,
            ));
        }
        let pname = params[i].0.clone();
        match translate(&params[i].1) {
            Ok(w) => {
                ctx_params.push((pname, w));
                proof {
                    assert(ctx_params@.map(|j: int, p: (String, WitType)| (p.0@, p.1@))
                        =~= done0.map(|j: int, p: (String, WitType)| (p.0@, p.1@)).push(
                        (params@[i as int].0@, w@),
                    ));
                }
            },
            Err(e) => {
                proof {
                    assert(native_fields_view(params@).take(i as int) =~= native_fields_view(
                        params@.take(i as int),
                    ));
                    crate::translate::lemma_translate_fields_prefix_error(
                        native_fields_view(params@),
                        i as int,
                    );
                }
                return Err(e);
            },
        }
        i = i + 1;
    }
    proof {
        assert(params@.take(params@.len() as int) =~= params@);
    }
    let wit_ret: Option<WitType> = match &ret {
        Some(t) => match translate(t) {
            Ok(w) => Some(w),
            Err(e) => {
                return Err(e);
            },
        },
        None => None,
    };
    Ok(FunctionSignature { name: hyphenate(name), params: ctx_params, ret: wit_ret })
}

/// A failure of assembly.
#[derive(Debug, PartialEq)]
pub enum AssemblyError {
    /// A named type reference matches no registered record definition.
    UnresolvedReference(String),
}

/// The complete interface package: the record definitions and the one
/// function export. Write-once; the build pipeline reads it.
#[derive(Debug, PartialEq)]
pub struct InterfacePackage {
    pub records: Vec<RecordDefinition>,
    pub func: FunctionSignature,
}

/// The spec-level value of an interface package.
pub struct PackageView {
    pub records: Seq<RecordDefView>,
    pub func: FuncSigView,
}

impl View for InterfacePackage {
    type V = PackageView;

    open spec fn view(&self) -> PackageView {
        PackageView {
            records: self.records@.map(|i: int, r: RecordDefinition| r@),
            func: self.func@,
        }
    }
}

/// The first unresolved named reference inside one type node, scanning
/// depth-first, or nothing if every reference names a registered record.
pub open spec fn first_unresolved_in_ty(t: WitTy, rs: Seq<RecordDefView>) -> Option<Seq<char>>
    decreases t,
{
    match t {
        WitTy::List(inner) => first_unresolved_in_ty(*inner, rs),
        WitTy::Option(inner) => first_unresolved_in_ty(*inner, rs),
        WitTy::Result(ok, err) => match first_unresolved_in_ty(*ok, rs) {
            Some(n) => Some(n),
            None => first_unresolved_in_ty(*err, rs),
        },
        WitTy::Named(n) => if spec_has_record(rs, n) {
            None
        } else {
            Some(n)
        },
        _ => None,
    }
}

/// The first unresolved reference in a (name, type) pair list, in order.
pub open spec fn first_unresolved_in_fields(
    fs: Seq<(Seq<char>, WitTy)>,
    rs: Seq<RecordDefView>,
) -> Option<Seq<char>>
    decreases fs.len(),
{
    if fs.len() == 0 {
        None
    } else {
        match first_unresolved_in_ty(fs.first().1, rs) {
            Some(n) => Some(n),
            None => first_unresolved_in_fields(fs.drop_first(), rs),
        }
    }
}

/// The first unresolved reference among the record definitions, in order.
pub open spec fn first_unresolved_in_records(
    defs: Seq<RecordDefView>,
    rs: Seq<RecordDefView>,
) -> Option<Seq<char>>
    decreases defs.len(),
{
    if defs.len() == 0 {
        None
    } else {
        match first_unresolved_in_fields(defs.first().fields, rs) {
            Some(n) => Some(n),
            None => first_unresolved_in_records(defs.drop_first(), rs),
        }
    }
}

/// The first unresolved reference in the whole package: record fields first,
/// the function's parameters next, its return type last.
pub open spec fn first_unresolved_in_package(p: PackageView) -> Option<Seq<char>> {
    match first_unresolved_in_records(p.records, p.records) {
        Some(n) => Some(n),
        None => match first_unresolved_in_fields(p.func.params, p.records) {
            Some(n) => Some(n),
            None => match p.func.ret {
                Some(t) => first_unresolved_in_ty(t, p.records),
                None => None,
            },
        },
    }
}

fn has_record_exec(records: &Vec<RecordDefinition>, name: &String) -> (r: bool)
    ensures
        r == spec_has_record(
            records@.map(|i: int, rd: RecordDefinition| rd@),
            name@,
        ),
{
    let ghost rs = records@.map(|i: int, rd: RecordDefinition| rd@);
    let mut i: usize = 0;
    while i < records.len()
        invariant
            i <= records@.len(),
            rs == records@.map(|k: int, rd: RecordDefinition| rd@),
            forall|j: int| 0 <= j < i ==> rs[j].name != name@,
        decreases records@.len() - i,
    {
        if records[i].name == *name {
            proof {
                assert(rs[i as int].name == name@);
            }
            return true;
        }
        i = i + 1;
    }
    false
}

fn check_ty(t: &WitType, records: &Vec<RecordDefinition>) -> (r: Option<String>)
    ensures
        match r {
            Some(n) => first_unresolved_in_ty(t@, records@.map(|i: int, rd: RecordDefinition| rd@))
                == Some(n@),
            None => first_unresolved_in_ty(t@, records@.map(|i: int, rd: RecordDefinition| rd@))
                is None,
        },
    decreases *t,
{
    match t {
        WitType::List(inner) => check_ty(inner, records),
        WitType::Option(inner) => check_ty(inner, records),
        WitType::Result(ok, err) => match check_ty(ok, records) {
            Some(n) => Some(n),
            None => check_ty(err, records),
        },
        WitType::Named(n) => if has_record_exec(records, n) {
            None
        } else {
            Some(n.clone())
        },
        _ => None,
    }
}

/// If every pair before position i resolves and the type at i has an
/// unresolved reference, that reference is the list's first unresolved one.
proof fn lemma_fields_hit(fs: Seq<(Seq<char>, WitTy)>, rs: Seq<RecordDefView>, i: int)
    requires
        0 <= i < fs.len(),
        first_unresolved_in_fields(fs.take(i), rs) is None,
        first_unresolved_in_ty(fs[i].1, rs) is Some,
    ensures
        first_unresolved_in_fields(fs, rs) == first_unresolved_in_ty(fs[i].1, rs),
    decreases i,
{
    if i == 0 {
    } else {
        assert(fs.take(i).first() == fs.first());
        assert(fs.take(i).drop_first() =~= fs.drop_first().take(i - 1));
        lemma_fields_hit(fs.drop_first(), rs, i - 1);
    }
}

/// Appending one pair to a list leaves its first unresolved reference in
/// place, or contributes its own when the list had none.
proof fn lemma_fields_push(
    fs: Seq<(Seq<char>, WitTy)>,
    p: (Seq<char>, WitTy),
    rs: Seq<RecordDefView>,
)
    ensures
        first_unresolved_in_fields(fs.push(p), rs) == match first_unresolved_in_fields(fs, rs) {
            Some(n) => Some(n),
            None => first_unresolved_in_ty(p.1, rs),
        },
    decreases fs.len(),
{
    if fs.len() == 0 {
        assert(fs.push(p).first() == p);
        assert(fs.push(p).drop_first() =~= Seq::<(Seq<char>, WitTy)>::empty());
    } else {
        assert(fs.push(p).first() == fs.first());
        assert(fs.push(p).drop_first() =~= fs.drop_first().push(p));
        lemma_fields_push(fs.drop_first(), p, rs);
    }
}

fn check_fields(fields: &Vec<(String, WitType)>, records: &Vec<RecordDefinition>) -> (r: Option<
    String,
>)
    ensures
        ({
            let fsv = fields@.map(|i: int, p: (String, WitType)| (p.0@, p.1@));
            let rs = records@.map(|i: int, rd: RecordDefinition| rd@);
            match r {
                Some(n) => first_unresolved_in_fields(fsv, rs) == Some(n@),
                None => first_unresolved_in_fields(fsv, rs) is None,
            }
        }),
{
    let ghost fsv = fields@.map(|i: int, p: (String, WitType)| (p.0@, p.1@));
    let ghost rs = records@.map(|i: int, rd: RecordDefinition| rd@);
    let mut i: usize = 0;
    while i < fields.len()
        invariant
            i <= fields@.len(),
            fsv == fields@.map(|k: int, p: (String, WitType)| (p.0@, p.1@)),
            rs == records@.map(|k: int, rd: RecordDefinition| rd@),
            first_unresolved_in_fields(fsv.take(i as int), rs) is None,
        decreases fields@.len() - i,
    {
        match check_ty(&fields[i].1, records) {
            Some(n) => {
                proof {
                    lemma_fields_hit(fsv, rs, i as int);
                }
                return Some(n);
            },
            None => {
                proof {
                    assert(fsv.take(i + 1) =~= fsv.take(i as int).push(fsv[i as int]));
                    lemma_fields_push(fsv.take(i as int), fsv[i as int], rs);
                }
            },
        }
        i = i + 1;
    }
    proof {
        assert(fsv.take(fsv.len() as int) =~= fsv);
    }
    None
}

/// The record-list analogue of the field-list lemmas: the first unresolved
/// reference among records up to position i, and the one at i, give the
/// whole list's.
proof fn lemma_records_hit(defs: Seq<RecordDefView>, rs: Seq<RecordDefView>, i: int)
    requires
        0 <= i < defs.len(),
        first_unresolved_in_records(defs.take(i), rs) is None,
        first_unresolved_in_fields(defs[i].fields, rs) is Some,
    ensures
        first_unresolved_in_records(defs, rs) == first_unresolved_in_fields(defs[i].fields, rs),
    decreases i,
{
    if i == 0 {
    } else {
        assert(defs.take(i).first() == defs.first());
        assert(defs.take(i).drop_first() =~= defs.drop_first().take(i - 1));
        lemma_records_hit(defs.drop_first(), rs, i - 1);
    }
}

/// Appending one record definition to a list leaves its first unresolved
/// reference in place, or contributes its own when the list had none.
proof fn lemma_records_push(defs: Seq<RecordDefView>, d: RecordDefView, rs: Seq<RecordDefView>)
    ensures
        first_unresolved_in_records(defs.push(d), rs) == match first_unresolved_in_records(
            defs,
            rs,
        ) {
            Some(n) => Some(n),
            None => first_unresolved_in_fields(d.fields, rs),
        },
    decreases defs.len(),
{
    if defs.len() == 0 {
        assert(defs.push(d).first() == d);
        assert(defs.push(d).drop_first() =~= Seq::<RecordDefView>::empty());
    } else {
        assert(defs.push(d).first() == defs.first());
        assert(defs.push(d).drop_first() =~= defs.drop_first().push(d));
        lemma_records_push(defs.drop_first(), d, rs);
    }
}

fn check_records(records: &Vec<RecordDefinition>) -> (r: Option<String>)
    ensures
        ({
            let rs = records@.map(|i: int, rd: RecordDefinition| rd@);
            match r {
                Some(n) => first_unresolved_in_records(rs, rs) == Some(n@),
                None => first_unresolved_in_records(rs, rs) is None,
            }
        }),
{
    let ghost rs = records@.map(|i: int, rd: RecordDefinition| rd@);
    let mut i: usize = 0;
    while i < records.len()
        invariant
            i <= records@.len(),
            rs == records@.map(|k: int, rd: RecordDefinition| rd@),
            first_unresolved_in_records(rs.take(i as int), rs) is None,
        decreases records@.len() - i,
    {
        match check_fields(&records[i].fields, records) {
            Some(n) => {
                proof {
                    lemma_records_hit(rs, rs, i as int);
                }
                return Some(n);
            },
            None => {
                proof {
                    assert(rs.take(i + 1) =~= rs.take(i as int).push(rs[i as int]));
                    lemma_records_push(rs.take(i as int), rs[i as int], rs);
                }
            },
        }
        i = i + 1;
    }
    proof {
        assert(rs.take(rs.len() as int) =~= rs);
    }
    None
}

/// The interface-description text of one type node.
pub open spec fn spec_wit_ty_text(t: WitTy) -> Seq<char>
    decreases t,
{
    match t {
        WitTy::S8 => "s8"@,
        WitTy::S16 => "s16"@,
        WitTy::S32 => "s32"@,
        WitTy::S64 => "s64"@,
        WitTy::U8 => "u8"@,
        WitTy::U16 => "u16"@,
        WitTy::U32 => "u32"@,
        WitTy::U64 => "u64"@,
        WitTy::Float32 => "f32"@,
        WitTy::Float64 => "f64"@,
        WitTy::String => "string"@,
        WitTy::List(inner) => "list<"@ + spec_wit_ty_text(*inner) + ">"@,
        WitTy::Option(inner) => "option<"@ + spec_wit_ty_text(*inner) + ">"@,
        WitTy::Result(ok, err) => "result<"@ + spec_wit_ty_text(*ok) + ", "@ + spec_wit_ty_text(
            *err,
        ) + ">"@,
        WitTy::Named(n) => n,
    }
}

/// The text of one record field line.
pub open spec fn spec_field_text(f: (Seq<char>, WitTy)) -> Seq<char> {
    "    "@ + f.0 + ": "@ + spec_wit_ty_text(f.1) + ",\n"@
}

/// The text of a record's field lines, in field order.
pub open spec fn spec_fields_text(fs: Seq<(Seq<char>, WitTy)>) -> Seq<char>
    decreases fs.len(),
{
    if fs.len() == 0 {
        Seq::empty()
    } else {
        spec_fields_text(fs.drop_last()) + spec_field_text(fs.last())
    }
}

/// The text of one record definition block.
pub open spec fn spec_record_text(r: RecordDefView) -> Seq<char> {
    "  record "@ + r.name + " {\n"@ + spec_fields_text(r.fields) + "  }\n"@
}

/// The text of the record definition blocks, in registration order.
pub open spec fn spec_records_text(rs: Seq<RecordDefView>) -> Seq<char>
    decreases rs.len(),
{
    if rs.len() == 0 {
        Seq::empty()
    } else {
        spec_records_text(rs.drop_last()) + spec_record_text(rs.last())
    }
}

/// The text of one function parameter.
pub open spec fn spec_param_text(p: (Seq<char>, WitTy)) -> Seq<char> {
    p.0 + ": "@ + spec_wit_ty_text(p.1)
}

/// The comma-separated parameter list, in declared order.
pub open spec fn spec_params_text(ps: Seq<(Seq<char>, WitTy)>) -> Seq<char>
    decreases ps.len(),
{
    if ps.len() == 0 {
        Seq::empty()
    } else if ps.len() == 1 {
        spec_param_text(ps.last())
    } else {
        spec_params_text(ps.drop_last()) + ", "@ + spec_param_text(ps.last())
    }
}

/// The comma-separated list of record names brought into the world.
pub open spec fn spec_use_names_text(rs: Seq<RecordDefView>) -> Seq<char>
    decreases rs.len(),
{
    if rs.len() == 0 {
        Seq::empty()
    } else if rs.len() == 1 {
        rs.last().name
    } else {
        spec_use_names_text(rs.drop_last()) + ", "@ + rs.last().name
    }
}

/// The function export line.
pub open spec fn spec_func_text(f: FuncSigView) -> Seq<char> {
    "  export "@ + f.name + ": func("@ + spec_params_text(f.params) + ")"@ + (match f.ret {
        Some(t) => " -> "@ + spec_wit_ty_text(t),
        None => Seq::empty(),
    }) + ";\n"@
}

/// The full interface-description text of a package: one interface block
/// holding the record definitions, and one world that uses those records,
/// exports the interface, and exports the one function.
pub open spec fn spec_wit_text(p: PackageView) -> Seq<char> {
    "package local:offload;\n\ninterface types {\n"@ + spec_records_text(p.records)
        + "}\n\nworld offload {\n"@ + (if p.records.len() > 0 {
        "  use types.{"@ + spec_use_names_text(p.records) + "};\n"@
    } else {
        Seq::empty()
    }) + "  export types;\n"@ + spec_func_text(p.func) + "}\n"@
}

/// Renders one type node.
pub fn wit_ty_text(t: &WitType) -> (r: String)
    ensures
        r@ == spec_wit_ty_text(t@),
    decreases *t,
{
    match t {
        WitType::S8 => String::from_str("s8"),
        WitType::S16 => String::from_str("s16"),
        WitType::S32 => String::from_str("s32"),
        WitType::S64 => String::from_str("s64"),
        WitType::U8 => String::from_str("u8"),
        WitType::U16 => String::from_str("u16"),
        WitType::U32 => String::from_str("u32"),
        WitType::U64 => String::from_str("u64"),
        WitType::Float32 => String::from_str("f32"),
        WitType::Float64 => String::from_str("f64"),
        WitType::String => String::from_str("string"),
        WitType::List(inner) => {
            let mut s = String::from_str("list<");
            let it = wit_ty_text(inner);
            s.append(it.as_str());
            s.append(">");
            s
        },
        WitType::Option(inner) => {
            let mut s = String::from_str("option<");
            let it = wit_ty_text(inner);
            s.append(it.as_str());
            s.append(">");
            s
        },
        WitType::Result(ok, err) => {
            let mut s = String::from_str("result<");
            let ot = wit_ty_text(ok);
            s.append(ot.as_str());
            s.append(", ");
            let et = wit_ty_text(err);
            s.append(et.as_str());
            s.append(">");
            s
        },
        WitType::Named(n) => n.clone(),
    }
}

fn fields_text(fields: &Vec<(String, WitType)>) -> (r: String)
    ensures
        r@ == spec_fields_text(fields@.map(|i: int, p: (String, WitType)| (p.0@, p.1@))),
{
    let ghost fsv = fields@.map(|i: int, p: (String, WitType)| (p.0@, p.1@));
    let mut s = String::new();
    let mut i: usize = 0;
    while i < fields.len()
        invariant
            i <= fields@.len(),
            fsv == fields@.map(|k: int, p: (String, WitType)| (p.0@, p.1@)),
            s@ == spec_fields_text(fsv.take(i as int)),
        decreases fields@.len() - i,
    {
        s.append("    ");
        s.append(fields[i].0.as_str());
        s.append(": ");
        let tt = wit_ty_text(&fields[i].1);
        s.append(tt.as_str());
        s.append(",\n");
        i = i + 1;
        proof {
            assert(fsv.take(i as int).drop_last() =~= fsv.take(i - 1));
            assert(fsv.take(i as int).last() == fsv[i - 1]);
        }
    }
    proof {
        assert(fsv.take(fsv.len() as int) =~= fsv);
    }
    s
}

fn records_text(records: &Vec<RecordDefinition>) -> (r: String)
    ensures
        r@ == spec_records_text(records@.map(|i: int, rd: RecordDefinition| rd@)),
{
    let ghost rs = records@.map(|i: int, rd: RecordDefinition| rd@);
    let mut s = String::new();
    let mut i: usize = 0;
    while i < records.len()
        invariant
            i <= records@.len(),
            rs == records@.map(|k: int, rd: RecordDefinition| rd@),
            s@ == spec_records_text(rs.take(i as int)),
        decreases records@.len() - i,
    {
        s.append("  record ");
        s.append(records[i].name.as_str());
        s.append(" {\n");
        let ft = fields_text(&records[i].fields);
        s.append(ft.as_str());
        s.append("  }\n");
        i = i + 1;
        proof {
            assert(rs.take(i as int).drop_last() =~= rs.take(i - 1));
            assert(rs.take(i as int).last() == rs[i - 1]);
        }
    }
    proof {
        assert(rs.take(rs.len() as int) =~= rs);
    }
    s
}

fn params_text(params: &Vec<(String, WitType)>) -> (r: String)
    ensures
        r@ == spec_params_text(params@.map(|i: int, p: (String, WitType)| (p.0@, p.1@))),
{
    let ghost psv = params@.map(|i: int, p: (String, WitType)| (p.0@, p.1@));
    let mut s = String::new();
    let mut i: usize = 0;
    while i < params.len()
        invariant
            i <= params@.len(),
            psv == params@.map(|k: int, p: (String, WitType)| (p.0@, p.1@)),
            s@ == spec_params_text(psv.take(i as int)),
        decreases params@.len() - i,
    {
        if i > 0 {
            s.append(", ");
        }
        s.append(params[i].0.as_str());
        s.append(": ");
        let tt = wit_ty_text(&params[i].1);
        s.append(tt.as_str());
        i = i + 1;
        proof {
            assert(psv.take(i as int).drop_last() =~= psv.take(i - 1));
            assert(psv.take(i as int).last() == psv[i - 1]);
        }
    }
    proof {
        assert(psv.take(psv.len() as int) =~= psv);
    }
    s
}

fn use_names_text(records: &Vec<RecordDefinition>) -> (r: String)
    ensures
        r@ == spec_use_names_text(records@.map(|i: int, rd: RecordDefinition| rd@)),
{
    let ghost rs = records@.map(|i: int, rd: RecordDefinition| rd@);
    let mut s = String::new();
    let mut i: usize = 0;
    while i < records.len()
        invariant
            i <= records@.len(),
            rs == records@.map(|k: int, rd: RecordDefinition| rd@),
            s@ == spec_use_names_text(rs.take(i as int)),
        decreases records@.len() - i,
    {
        if i > 0 {
            s.append(", ");
        }
        s.append(records[i].name.as_str());
        i = i + 1;
        proof {
            assert(rs.take(i as int).drop_last() =~= rs.take(i - 1));
            assert(rs.take(i as int).last() == rs[i - 1]);
        }
    }
    proof {
        assert(rs.take(rs.len() as int) =~= rs);
    }
    s
}

impl InterfacePackage {
    /// Emits the package's interface-description text. The text is a pure
    /// function of the package's value: equal packages emit identical text
    /// on every run.
    pub fn wit_text(&self) -> (r: String)
        ensures
            r@ == spec_wit_text(self@),
    {
        let mut s = String::from_str("package local:offload;\n\ninterface types {\n");
        let rt = records_text(&self.records);
        s.append(rt.as_str());
        s.append("}\n\nworld offload {\n");
        if self.records.len() > 0 {
            s.append("  use types.{");
            let un = use_names_text(&self.records);
            s.append(un.as_str());
            s.append("};\n");
        }
        s.append("  export types;\n");
        s.append("  export ");
        s.append(self.func.name.as_str());
        s.append(": func(");
        let pt = params_text(&self.func.params);
        s.append(pt.as_str());
        s.append(")");
        match &self.func.ret {
            Some(t) => {
                s.append(" -> ");
                let tt = wit_ty_text(t);
                s.append(tt.as_str());
            },
            None => {},
        }
        s.append(";\n");
        s.append("}\n");
        s
    }
}

/// Emission is deterministic: packages of equal value yield identical
/// interface-description text.
pub proof fn lemma_emission_deterministic(p1: PackageView, p2: PackageView)
    requires
        p1.records == p2.records,
        p1.func.name == p2.func.name,
        p1.func.params == p2.func.params,
        p1.func.ret == p2.func.ret,
    ensures
        spec_wit_text(p1) == spec_wit_text(p2),
{
}

/// Composes the registered record definitions and one function signature
/// into an interface package, checking fail-fast that every named type
/// reference resolves to a registered record definition.
pub fn assemble(ctx: TypeContext, func: FunctionSignature) -> (r: Result<
    InterfacePackage,
    AssemblyError,
>)
    ensures
        match r {
            Ok(p) => {
                &&& p@.records == ctx@
                &&& p@.func == func@
                &&& first_unresolved_in_package(p@) is None
            },
            Err(AssemblyError::UnresolvedReference(n)) => first_unresolved_in_package(
                PackageView { records: ctx@, func: func@ },
            ) == Some(n@),
        },
{
    let pkg = InterfacePackage { records: ctx.records, func };
    if let Some(n) = check_records(&pkg.records) {
        return Err(AssemblyError::UnresolvedReference(n));
    }
    if let Some(n) = check_fields(&pkg.func.params, &pkg.records) {
        return Err(AssemblyError::UnresolvedReference(n));
    }
    if let Some(t) = &pkg.func.ret {
        if let Some(n) = check_ty(t, &pkg.records) {
            return Err(AssemblyError::UnresolvedReference(n));
        }
    }
    Ok(pkg)
}

} // verus!
