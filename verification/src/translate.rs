//! The type translator: converts native type descriptors into
//! interface-description type nodes, and native record declarations into
//! record definitions with deterministically lowered names.

use vstd::prelude::*;

verus! {

/// A structural category of native types that the translator refuses.
#[derive(Debug, PartialEq, Eq, Structural, Clone, Copy)]
pub enum UnsupportedKind {
    Array,
    Function,
    Reference,
    Pointer,
    Slice,
    MixedTuple,
    Union,
    TraitObject,
    Opaque,
}

/// A native type descriptor, as read off a host-language signature.
#[derive(Debug, PartialEq)]
pub enum NativeType {
    S8,
    S16,
    S32,
    S64,
    U8,
    U16,
    U32,
    U64,
    /// Pointer-sized signed integer, treated as 64-bit.
    Isize,
    /// Pointer-sized unsigned integer, treated as 64-bit.
    Usize,
    Float32,
    Float64,
    String,
    /// A one-argument wrapper recognized as a sequence.
    Sequence(Box<NativeType>),
    /// A one-argument wrapper recognized as optional.
    Optional(Box<NativeType>),
    /// A two-argument wrapper recognized as a two-armed outcome.
    Outcome(Box<NativeType>, Box<NativeType>),
    /// A bare name, taken as a forward reference to a record type; it is
    /// lowered like a record name, so references resolve against the
    /// registry whatever case the declaration used.
    Named(String),
    /// A structural category that cannot be translated.
    Unsupported(UnsupportedKind),
}

/// The spec-level mirror of a native type descriptor, with names as
/// character sequences.
pub enum NativeTy {
    S8,
    S16,
    S32,
    S64,
    U8,
    U16,
    U32,
    U64,
    Isize,
    Usize,
    Float32,
    Float64,
    String,
    Sequence(Box<NativeTy>),
    Optional(Box<NativeTy>),
    Outcome(Box<NativeTy>, Box<NativeTy>),
    Named(Seq<char>),
    Unsupported(UnsupportedKind),
}

/// The spec-level value of a native type descriptor.
pub open spec fn native_ty_of(t: NativeType) -> NativeTy
    decreases t,
{
    match t {
        NativeType::S8 => NativeTy::S8,
        NativeType::S16 => NativeTy::S16,
        NativeType::S32 => NativeTy::S32,
        NativeType::S64 => NativeTy::S64,
        NativeType::U8 => NativeTy::U8,
        NativeType::U16 => NativeTy::U16,
        NativeType::U32 => NativeTy::U32,
        NativeType::U64 => NativeTy::U64,
        NativeType::Isize => NativeTy::Isize,
        NativeType::Usize => NativeTy::Usize,
        NativeType::Float32 => NativeTy::Float32,
        NativeType::Float64 => NativeTy::Float64,
        NativeType::String => NativeTy::String,
        NativeType::Sequence(inner) => NativeTy::Sequence(Box::new(native_ty_of(*inner))),
        NativeType::Optional(inner) => NativeTy::Optional(Box::new(native_ty_of(*inner))),
        NativeType::Outcome(ok, err) => NativeTy::Outcome(
            Box::new(native_ty_of(*ok)),
            Box::new(native_ty_of(*err)),
        ),
        NativeType::Named(name) => NativeTy::Named(name@),
        NativeType::Unsupported(k) => NativeTy::Unsupported(k),
    }
}

impl View for NativeType {
    type V = NativeTy;

    open spec fn view(&self) -> NativeTy {
        native_ty_of(*self)
    }
}

/// An interface-description type node.
#[derive(Debug, PartialEq)]
pub enum WitType {
    S8,
    S16,
    S32,
    S64,
    U8,
    U16,
    U32,
    U64,
    Float32,
    Float64,
    String,
    List(Box<WitType>),
    Option(Box<WitType>),
    Result(Box<WitType>, Box<WitType>),
    /// A reference to a record definition by its lowered name.
    Named(String),
}

/// The spec-level mirror of an interface-description type node.
pub enum WitTy {
    S8,
    S16,
    S32,
    S64,
    U8,
    U16,
    U32,
    U64,
    Float32,
    Float64,
    String,
    List(Box<WitTy>),
    Option(Box<WitTy>),
    Result(Box<WitTy>, Box<WitTy>),
    Named(Seq<char>),
}

/// The spec-level value of an interface-description type node.
pub open spec fn wit_ty_of(t: WitType) -> WitTy
    decreases t,
{
    match t {
        WitType::S8 => WitTy::S8,
        WitType::S16 => WitTy::S16,
        WitType::S32 => WitTy::S32,
        WitType::S64 => WitTy::S64,
        WitType::U8 => WitTy::U8,
        WitType::U16 => WitTy::U16,
        WitType::U32 => WitTy::U32,
        WitType::U64 => WitTy::U64,
        WitType::Float32 => WitTy::Float32,
        WitType::Float64 => WitTy::Float64,
        WitType::String => WitTy::String,
        WitType::List(inner) => WitTy::List(Box::new(wit_ty_of(*inner))),
        WitType::Option(inner) => WitTy::Option(Box::new(wit_ty_of(*inner))),
        WitType::Result(ok, err) => WitTy::Result(
            Box::new(wit_ty_of(*ok)),
            Box::new(wit_ty_of(*err)),
        ),
        WitType::Named(name) => WitTy::Named(name@),
    }
}

impl View for WitType {
    type V = WitTy;

    open spec fn view(&self) -> WitTy {
        wit_ty_of(*self)
    }
}

/// A failure of translation.
#[derive(Debug, PartialEq)]
pub enum TranslationError {
    /// The native type falls in a structural category that has no
    /// interface-description counterpart.
    Unsupported(UnsupportedKind),
    /// A record was registered twice under one lowered name.
    DuplicateRecord(String),
    /// One declaration uses a field or parameter name twice.
    DuplicateField(String),
}

/// What translating a native type descriptor yields: the matching
/// interface-description node, or the unsupported category.
pub open spec fn spec_translate(t: NativeTy) -> Result<WitTy, UnsupportedKind>
    decreases t,
{
    match t {
        NativeTy::S8 => Ok(WitTy::S8),
        NativeTy::S16 => Ok(WitTy::S16),
        NativeTy::S32 => Ok(WitTy::S32),
        NativeTy::S64 => Ok(WitTy::S64),
        NativeTy::U8 => Ok(WitTy::U8),
        NativeTy::U16 => Ok(WitTy::U16),
        NativeTy::U32 => Ok(WitTy::U32),
        NativeTy::U64 => Ok(WitTy::U64),
        NativeTy::Isize => Ok(WitTy::S64),
        NativeTy::Usize => Ok(WitTy::U64),
        NativeTy::Float32 => Ok(WitTy::Float32),
        NativeTy::Float64 => Ok(WitTy::Float64),
        NativeTy::String => Ok(WitTy::String),
        NativeTy::Sequence(inner) => match spec_translate(*inner) {
            Ok(w) => Ok(WitTy::List(Box::new(w))),
            Err(k) => Err(k),
        },
        NativeTy::Optional(inner) => match spec_translate(*inner) {
            Ok(w) => Ok(WitTy::Option(Box::new(w))),
            Err(k) => Err(k),
        },
        NativeTy::Outcome(ok, err) => match (spec_translate(*ok), spec_translate(*err)) {
            (Ok(wo), Ok(we)) => Ok(WitTy::Result(Box::new(wo), Box::new(we))),
            (Err(k), _) => Err(k),
            (_, Err(k)) => Err(k),
        },
        NativeTy::Named(name) => Ok(WitTy::Named(spec_lower_ident(name))),
        NativeTy::Unsupported(k) => Err(k),
    }
}

/// Translates one native type descriptor into an interface-description node,
/// failing fast on any unsupported structural category.
pub fn translate(t: &NativeType) -> (r: Result<WitType, TranslationError>)
    ensures
        match r {
            Ok(w) => spec_translate(t@) == Ok::<WitTy, UnsupportedKind>(w@),
            Err(e) => e matches TranslationError::Unsupported(k) && spec_translate(t@) == Err::<
                WitTy,
                UnsupportedKind,
            >(k),
        },
    decreases *t,
{
    match t {
        NativeType::S8 => Ok(WitType::S8),
        NativeType::S16 => Ok(WitType::S16),
        NativeType::S32 => Ok(WitType::S32),
        NativeType::S64 => Ok(WitType::S64),
        NativeType::U8 => Ok(WitType::U8),
        NativeType::U16 => Ok(WitType::U16),
        NativeType::U32 => Ok(WitType::U32),
        NativeType::U64 => Ok(WitType::U64),
        NativeType::Isize => Ok(WitType::S64),
        NativeType::Usize => Ok(WitType::U64),
        NativeType::Float32 => Ok(WitType::Float32),
        NativeType::Float64 => Ok(WitType::Float64),
        NativeType::String => Ok(WitType::String),
        NativeType::Sequence(inner) => match translate(inner) {
            Ok(w) => Ok(WitType::List(Box::new(w))),
            Err(e) => Err(e),
        },
        NativeType::Optional(inner) => match translate(inner) {
            Ok(w) => Ok(WitType::Option(Box::new(w))),
            Err(e) => Err(e),
        },
        NativeType::Outcome(ok, err) => match translate(ok) {
            Ok(wo) => match translate(err) {
                Ok(we) => Ok(WitType::Result(Box::new(wo), Box::new(we))),
                Err(e) => Err(e),
            },
            Err(e) => Err(e),
        },
        NativeType::Named(name) => Ok(WitType::Named(lower_ident(name.as_str()))),
        NativeType::Unsupported(k) => Err(TranslationError::Unsupported(*k)),
    }
}

/// A lowered identifier character: ASCII uppercase letters fold to lowercase
/// and underscores become hyphens, as the interface-description naming
/// convention asks. The folding is ASCII only: any character outside the
/// ASCII uppercase range passes through unchanged.
pub open spec fn lower_char(c: char) -> char {
    if c == '_' {
        '-'
    } else if 'A' <= c && c <= 'Z' {
        ((c as u8) + 32) as char
    } else {
        c
    }
}

/// The deterministic lowering of a declared name to an
/// interface-description name.
pub open spec fn spec_lower_ident(s: Seq<char>) -> Seq<char> {
    s.map(|i: int, c: char| lower_char(c))
}

/// Relies on String::push to append one character at the end.
#[verifier::external_body]
pub(crate) fn push_char(s: &mut String, c: char)
    ensures
        final(s)@ == old(s)@.push(c),
{
    s.push(c);
}

fn lower_char_exec(c: char) -> (r: char)
    ensures
        r == lower_char(c),
{
    if c == '_' {
        '-'
    } else {
        let u = c as u32;
        if 65 <= u && u <= 90 {
            ((c as u8) + 32) as char
        } else {
            c
        }
    }
}

/// Derives the lowered name of a declared identifier: case-folded (ASCII
/// letters only) and word-separator normalized, character for character.
pub fn lower_ident(name: &str) -> (r: String)
    ensures
        r@ == spec_lower_ident(name@),
{
    let n = name.unicode_len();
    let mut out = String::new();
    let mut i: usize = 0;
    while i < n
        invariant
            i <= n,
            n == name@.len(),
            out@ == spec_lower_ident(name@.take(i as int)),
        decreases n - i,
    {
        let c = name.get_char(i);
        let lc = lower_char_exec(c);
        push_char(&mut out, lc);
        i = i + 1;
        proof {
            assert(name@.take(i as int).map(|j: int, c: char| lower_char(c)) =~= name@.take(
                i - 1,
            ).map(|j: int, c: char| lower_char(c)).push(lower_char(name@[i - 1])));
        }
    }
    proof {
        assert(name@.take(n as int) =~= name@);
    }
    out
}

/// A record definition: a lowered name plus an ordered sequence of
/// (field-name, type-node) pairs. Field order is significant and preserved.
#[derive(Debug, PartialEq)]
pub struct RecordDefinition {
    pub name: String,
    pub fields: Vec<(String, WitType)>,
}

/// The spec-level value of a record definition.
pub struct RecordDefView {
    pub name: Seq<char>,
    pub fields: Seq<(Seq<char>, WitTy)>,
}

impl View for RecordDefinition {
    type V = RecordDefView;

    open spec fn view(&self) -> RecordDefView {
        RecordDefView {
            name: self.name@,
            fields: self.fields@.map(|i: int, p: (String, WitType)| (p.0@, p.1@)),
        }
    }
}

/// The spec-level value of a sequence of declared fields.
pub open spec fn native_fields_view(fs: Seq<(String, NativeType)>) -> Seq<(Seq<char>, NativeTy)> {
    fs.map(|i: int, p: (String, NativeType)| (p.0@, p.1@))
}

/// What translating a field list yields: each field's declared type is
/// translated independently, in order, and the first failure wins.
pub open spec fn spec_translate_fields(fs: Seq<(Seq<char>, NativeTy)>) -> Result<
    Seq<(Seq<char>, WitTy)>,
    UnsupportedKind,
>
    decreases fs.len(),
{
    if fs.len() == 0 {
        Ok(Seq::empty())
    } else {
        match spec_translate_fields(fs.drop_last()) {
            Ok(done) => match spec_translate(fs.last().1) {
                Ok(w) => Ok(done.push((fs.last().0, w))),
                Err(k) => Err(k),
            },
            Err(k) => Err(k),
        }
    }
}

/// Field or parameter names are pairwise distinct within one declaration.
pub open spec fn spec_names_unique(fs: Seq<(Seq<char>, NativeTy)>) -> bool {
    forall|i: int, j: int| 0 <= i < j < fs.len() ==> fs[i].0 != fs[j].0
}

/// Finds a name that one declaration uses twice, if any.
pub fn first_duplicate_name(fields: &Vec<(String, NativeType)>) -> (r: Option<String>)
    ensures
        match r {
            Some(n) => exists|i: int, j: int|
                0 <= i < j < fields@.len() && fields@[i].0@ == n@ && fields@[j].0@ == n@,
            None => spec_names_unique(native_fields_view(fields@)),
        },
{
    let mut j: usize = 1;
    while j < fields.len()
        invariant
            1 <= j,
            forall|i2: int, j2: int|
                0 <= i2 < j2 < j && j2 < fields@.len() ==> fields@[i2].0@ != fields@[j2].0@,
        decreases fields@.len() - j,
    {
        let mut i: usize = 0;
        while i < j
            invariant
                i <= j,
                j < fields@.len(),
                forall|i2: int| 0 <= i2 < i ==> fields@[i2].0@ != fields@[j as int].0@,
            decreases j - i,
        {
            if fields[i].0 == fields[j].0 {
                return Some(fields[j].0.clone());
            }
            i = i + 1;
        }
        j = j + 1;
    }
    None
}

/// Whether a record with the given lowered name is registered.
pub open spec fn spec_has_record(rs: Seq<RecordDefView>, name: Seq<char>) -> bool {
    exists|i: int| 0 <= i < rs.len() && rs[i].name == name
}

/// The registry of record definitions referenced by a signature, in
/// registration order, one definition per distinct lowered name.
#[derive(Debug)]
pub struct TypeContext {
    pub records: Vec<RecordDefinition>,
}

impl View for TypeContext {
    type V = Seq<RecordDefView>;

    open spec fn view(&self) -> Seq<RecordDefView> {
        self.records@.map(|i: int, r: RecordDefinition| r@)
    }
}

impl TypeContext {
    /// Registered names are pairwise distinct.
    pub open spec fn wf(self) -> bool {
        forall|i: int, j: int|
            0 <= i < j < self@.len() ==> self@[i].name != self@[j].name
    }

    /// An empty registry.
    pub fn new() -> (r: TypeContext)
        ensures
            r@ == Seq::<RecordDefView>::empty(),
            r.wf(),
    {
        TypeContext { records: Vec::new() }
    }

    fn has_record(&self, name: &String) -> (r: bool)
        ensures
            r == spec_has_record(self@, name@),
    {
        let mut i: usize = 0;
        while i < self.records.len()
            invariant
                i <= self.records@.len(),
                forall|j: int| 0 <= j < i ==> self@[j].name != name@,
            decreases self.records@.len() - i,
        {
            if self.records[i].name == *name {
                proof {
                    assert(self@[i as int].name == name@);
                }
                return true;
            }
            i = i + 1;
        }
        proof {
            assert forall|j: int| 0 <= j < self@.len() implies self@[j].name != name@ by {}
        }
        false
    }

    /// Registers a record declaration: translates each field's declared type
    /// independently and in order, derives the lowered record name
    /// deterministically, and appends the definition. Fails fast if a field
    /// name repeats, a field type is unsupported, or the lowered name is
    /// already registered; the registry is unchanged on failure.
    pub fn add_record(&mut self, name: &str, fields: Vec<(String, NativeType)>) -> (r: Result<
        (),
        TranslationError,
    >)
        ensures
            match r {
                Ok(()) => {
                    &&& spec_names_unique(native_fields_view(fields@))
                    &&& spec_translate_fields(native_fields_view(fields@)) matches Ok(ws)
                        && final(self)@ == old(self)@.push(
                        RecordDefView { name: spec_lower_ident(name@), fields: ws },
                    )
                    &&& !spec_has_record(old(self)@, spec_lower_ident(name@))
                },
                Err(TranslationError::DuplicateField(n)) => {
                    &&& exists|i: int, j: int|
                        0 <= i < j < fields@.len() && fields@[i].0@ == n@ && fields@[j].0@ == n@
                    &&& final(self)@ == old(self)@
                },
                Err(TranslationError::Unsupported(k)) => {
                    &&& spec_names_unique(native_fields_view(fields@))
                    &&& spec_translate_fields(native_fields_view(fields@)) == Err::<
                        Seq<(Seq<char>, WitTy)>,
                        UnsupportedKind,
                    >(k)
                    &&& final(self)@ == old(self)@
                },
                Err(TranslationError::DuplicateRecord(n)) => {
                    &&& spec_names_unique(native_fields_view(fields@))
                    &&& n@ == spec_lower_ident(name@)
                    &&& spec_translate_fields(native_fields_view(fields@)) is Ok
                    &&& spec_has_record(old(self)@, n@)
                    &&& final(self)@ == old(self)@
                },
            },
            old(self).wf() ==> final(self).wf(),
    {
        if let Some(n) = first_duplicate_name(&fields) {
            return Err(TranslationError::DuplicateField(n));
        }
        let mut done: Vec<(String, WitType)> = Vec::new();
        let mut i: usize = 0;
        proof {
            assert(native_fields_view(fields@.take(0)) =~= Seq::<(Seq<char>, NativeTy)>::empty());
            assert(done@.map(|j: int, p: (String, WitType)| (p.0@, p.1@)) =~= Seq::<
                (Seq<char>, WitTy),
            >::empty());
        }
        while i < fields.len()
            invariant
                i <= fields@.len(),
                spec_names_unique(native_fields_view(fields@)),
                spec_translate_fields(native_fields_view(fields@.take(i as int))) == Ok::<
                    Seq<(Seq<char>, WitTy)>,
                    UnsupportedKind,
                >(done@.map(|j: int, p: (String, WitType)| (p.0@, p.1@))),
            decreases fields@.len() - i,
        {
            let ghost done0 = done@;
            proof {
                assert(native_fields_view(fields@.take(i + 1)).drop_last() =~= native_fields_view(
                    fields@.take(i as int),
                ));
                assert(native_fields_view(fields@.take(i + 1)).last() == (
                    fields@[i as int].0@,
                    fields@[i as int].1@,
                ));
            }
            let fname = fields[i].0.clone();
            match translate(&fields[i].1) {
                Ok(w) => {
                    proof {
                        assert(spec_translate(fields@[i as int].1@) == Ok::<
                            WitTy,
                            UnsupportedKind,
                        >(w@));
                    }
                    done.push((fname, w));
                    proof {
                        assert(done@ == done0.push((fname, w)));
                        assert(done@.map(|j: int, p: (String, WitType)| (p.0@, p.1@))
                            =~= done0.map(|j: int, p: (String, WitType)| (p.0@, p.1@)).push(
                            (fields@[i as int].0@, w@),
                        ));
                    }
                },
                Err(e) => {
                    proof {
                        assert(native_fields_view(fields@).take(i as int) =~= native_fields_view(
                            fields@.take(i as int),
                        ));
                        lemma_translate_fields_prefix_error(native_fields_view(fields@), i as int);
                    }
                    return Err(e);
                },
            }
            i = i + 1;
        }
        proof {
            assert(fields@.take(fields@.len() as int) =~= fields@);
        }
        let lowered = lower_ident(name);
        if self.has_record(&lowered) {
            return Err(TranslationError::DuplicateRecord(lowered));
        }
        self.records.push(RecordDefinition { name: lowered, fields: done });
        proof {
            assert(self@ =~= old(self)@.push(
                RecordDefView {
                    name: spec_lower_ident(name@),
                    fields: spec_translate_fields(native_fields_view(fields@))->Ok_0,
                },
            ));
        }
        Ok(())
    }
}

/// If a field's type fails to translate, the whole field list fails with
/// that same category, provided every earlier field translated.
pub proof fn lemma_translate_fields_prefix_error(fs: Seq<(Seq<char>, NativeTy)>, i: int)
    requires
        0 <= i < fs.len(),
        spec_translate_fields(fs.take(i)) is Ok,
        spec_translate(fs[i].1) is Err,
    ensures
        spec_translate_fields(fs) == Err::<Seq<(Seq<char>, WitTy)>, UnsupportedKind>(
            spec_translate(fs[i].1)->Err_0,
        ),
    decreases fs.len(),
{
    if fs.len() - 1 > i {
        assert(fs.drop_last().take(i) =~= fs.take(i));
        lemma_translate_fields_prefix_error(fs.drop_last(), i);
    } else {
        assert(fs.take(i) =~= fs.drop_last());
    }
}

/// Every unsupported structural category fails, surfacing that category:
/// translation never degrades it silently to an approximate type.
pub proof fn lemma_unsupported_fails(k: UnsupportedKind)
    ensures
        spec_translate(NativeTy::Unsupported(k)) == Err::<WitTy, UnsupportedKind>(k),
{
}

/// A failure anywhere inside a compound type makes the whole translation
/// fail with that same category: no partial emission.
pub proof fn lemma_failure_propagates(t: NativeTy, k: UnsupportedKind)
    requires
        spec_translate(t) == Err::<WitTy, UnsupportedKind>(k),
    ensures
        spec_translate(NativeTy::Sequence(Box::new(t))) == Err::<WitTy, UnsupportedKind>(k),
        spec_translate(NativeTy::Optional(Box::new(t))) == Err::<WitTy, UnsupportedKind>(k),
        forall|u: NativeTy| #[trigger] spec_translate(NativeTy::Outcome(Box::new(t), Box::new(u)))
            == Err::<WitTy, UnsupportedKind>(k),
{
}

} // verus!
