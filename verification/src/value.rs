//! The value model: a closed, self-describing tagged union covering every
//! transportable value shape that crosses the host/guest boundary.
//!
//! Floating-point cases carry their IEEE-754 bit patterns, so that the model
//! itself stays in plain integers; the host converts a native float to and
//! from its bits at the boundary.

use vstd::prelude::*;
use vstd::std_specs::convert::FromSpec;
use vstd::std_specs::convert::FromSpecImpl;

verus! {

/// A generic tagged value, constructed at the host/guest boundary per call.
#[derive(Debug, PartialEq)]
pub enum Val {
    Bool(bool),
    S8(i8),
    U8(u8),
    S16(i16),
    U16(u16),
    S32(i32),
    U32(u32),
    S64(i64),
    U64(u64),
    /// IEEE-754 bits of a 32-bit float.
    Float32(u32),
    /// IEEE-754 bits of a 64-bit float.
    Float64(u64),
    Char(char),
    String(String),
    List(Vec<Val>),
    Record(Vec<(String, Val)>),
    Tuple(Vec<Val>),
    Variant(String, Option<Box<Val>>),
    Enum(String),
    Option(Option<Box<Val>>),
    Result(Result<Option<Box<Val>>, Option<Box<Val>>>),
    Flags(Vec<String>),
}

/// The boolean carried by a value, when it is the boolean case.
pub open spec fn spec_as_bool(v: Val) -> Option<bool> {
    match v {
        Val::Bool(x) => Some(x),
        _ => None,
    }
}

/// The signed 8-bit integer carried by a value, when it is that case.
pub open spec fn spec_as_s8(v: Val) -> Option<i8> {
    match v {
        Val::S8(x) => Some(x),
        _ => None,
    }
}

/// The unsigned 8-bit integer carried by a value, when it is that case.
pub open spec fn spec_as_u8(v: Val) -> Option<u8> {
    match v {
        Val::U8(x) => Some(x),
        _ => None,
    }
}

/// The signed 16-bit integer carried by a value, when it is that case.
pub open spec fn spec_as_s16(v: Val) -> Option<i16> {
    match v {
        Val::S16(x) => Some(x),
        _ => None,
    }
}

/// The unsigned 16-bit integer carried by a value, when it is that case.
pub open spec fn spec_as_u16(v: Val) -> Option<u16> {
    match v {
        Val::U16(x) => Some(x),
        _ => None,
    }
}

/// The signed 32-bit integer carried by a value, when it is that case.
pub open spec fn spec_as_s32(v: Val) -> Option<i32> {
    match v {
        Val::S32(x) => Some(x),
        _ => None,
    }
}

/// The unsigned 32-bit integer carried by a value, when it is that case.
pub open spec fn spec_as_u32(v: Val) -> Option<u32> {
    match v {
        Val::U32(x) => Some(x),
        _ => None,
    }
}

/// The signed 64-bit integer carried by a value, when it is that case.
pub open spec fn spec_as_s64(v: Val) -> Option<i64> {
    match v {
        Val::S64(x) => Some(x),
        _ => None,
    }
}

/// The unsigned 64-bit integer carried by a value, when it is that case.
pub open spec fn spec_as_u64(v: Val) -> Option<u64> {
    match v {
        Val::U64(x) => Some(x),
        _ => None,
    }
}

/// The field pairs carried by a value, when it is the record case.
pub open spec fn spec_record_fields(v: Val) -> Option<Seq<(String, Val)>> {
    match v {
        Val::Record(fs) => Some(fs@),
        _ => None,
    }
}

impl Val {
    /// Narrowing accessor for the signed-32 case; callers must already know
    /// the value is signed-32.
    pub fn into_i32(self) -> (r: i32)
        requires
            self is S32,
        ensures
            r == self->S32_0,
    {
        match self {
            Val::S32(v) => v,
            _ => vstd::pervasive::unreached(),
        }
    }

    /// Extracts the boolean case, if the value is one.
    pub fn as_bool(&self) -> (r: Option<bool>)
        ensures
            r == spec_as_bool(*self),
    {
        match self {
            Val::Bool(v) => Some(*v),
            _ => None,
        }
    }

    /// Extracts the signed 8-bit case, if the value is one.
    pub fn as_s8(&self) -> (r: Option<i8>)
        ensures
            r == spec_as_s8(*self),
    {
        match self {
            Val::S8(v) => Some(*v),
            _ => None,
        }
    }

    /// Extracts the unsigned 8-bit case, if the value is one.
    pub fn as_u8(&self) -> (r: Option<u8>)
        ensures
            r == spec_as_u8(*self),
    {
        match self {
            Val::U8(v) => Some(*v),
            _ => None,
        }
    }

    /// Extracts the signed 16-bit case, if the value is one.
    pub fn as_s16(&self) -> (r: Option<i16>)
        ensures
            r == spec_as_s16(*self),
    {
        match self {
            Val::S16(v) => Some(*v),
            _ => None,
        }
    }

    /// Extracts the unsigned 16-bit case, if the value is one.
    pub fn as_u16(&self) -> (r: Option<u16>)
        ensures
            r == spec_as_u16(*self),
    {
        match self {
            Val::U16(v) => Some(*v),
            _ => None,
        }
    }

    /// Extracts the signed 32-bit case, if the value is one.
    pub fn as_s32(&self) -> (r: Option<i32>)
        ensures
            r == spec_as_s32(*self),
    {
        match self {
            Val::S32(v) => Some(*v),
            _ => None,
        }
    }

    /// Extracts the unsigned 32-bit case, if the value is one.
    pub fn as_u32(&self) -> (r: Option<u32>)
        ensures
            r == spec_as_u32(*self),
    {
        match self {
            Val::U32(v) => Some(*v),
            _ => None,
        }
    }

    /// Extracts the signed 64-bit case, if the value is one.
    pub fn as_s64(&self) -> (r: Option<i64>)
        ensures
            r == spec_as_s64(*self),
    {
        match self {
            Val::S64(v) => Some(*v),
            _ => None,
        }
    }

    /// Extracts the unsigned 64-bit case, if the value is one.
    pub fn as_u64(&self) -> (r: Option<u64>)
        ensures
            r == spec_as_u64(*self),
    {
        match self {
            Val::U64(v) => Some(*v),
            _ => None,
        }
    }

    /// Extracts the field pairs of the record case, in their stored order,
    /// if the value is a record.
    pub fn record_fields(self) -> (r: Option<Vec<(String, Val)>>)
        ensures
            match r {
                Some(fs) => self is Record && fs == self->Record_0,
                None => !(self is Record),
            },
    {
        match self {
            Val::Record(fs) => Some(fs),
            _ => None,
        }
    }
}

impl From<bool> for Val {
    fn from(value: bool) -> Self {
        Val::Bool(value)
    }
}

impl FromSpecImpl<bool> for Val {
    open spec fn obeys_from_spec() -> bool {
        true
    }

    open spec fn from_spec(t: bool) -> Val {
        Val::Bool(t)
    }
}

impl From<i8> for Val {
    fn from(value: i8) -> Self {
        Val::S8(value)
    }
}

impl FromSpecImpl<i8> for Val {
    open spec fn obeys_from_spec() -> bool {
        true
    }

    open spec fn from_spec(t: i8) -> Val {
        Val::S8(t)
    }
}

impl From<i16> for Val {
    fn from(value: i16) -> Self {
        Val::S16(value)
    }
}

impl FromSpecImpl<i16> for Val {
    open spec fn obeys_from_spec() -> bool {
        true
    }

    open spec fn from_spec(t: i16) -> Val {
        Val::S16(t)
    }
}

impl From<i32> for Val {
    fn from(value: i32) -> Self {
        Val::S32(value)
    }
}

impl FromSpecImpl<i32> for Val {
    open spec fn obeys_from_spec() -> bool {
        true
    }

    open spec fn from_spec(t: i32) -> Val {
        Val::S32(t)
    }
}

impl From<i64> for Val {
    fn from(value: i64) -> Self {
        Val::S64(value)
    }
}

impl FromSpecImpl<i64> for Val {
    open spec fn obeys_from_spec() -> bool {
        true
    }

    open spec fn from_spec(t: i64) -> Val {
        Val::S64(t)
    }
}

impl From<u8> for Val {
    fn from(value: u8) -> Self {
        Val::U8(value)
    }
}

impl FromSpecImpl<u8> for Val {
    open spec fn obeys_from_spec() -> bool {
        true
    }

    open spec fn from_spec(t: u8) -> Val {
        Val::U8(t)
    }
}

impl From<u16> for Val {
    fn from(value: u16) -> Self {
        Val::U16(value)
    }
}

impl FromSpecImpl<u16> for Val {
    open spec fn obeys_from_spec() -> bool {
        true
    }

    open spec fn from_spec(t: u16) -> Val {
        Val::U16(t)
    }
}

impl From<u32> for Val {
    fn from(value: u32) -> Self {
        Val::U32(value)
    }
}

impl FromSpecImpl<u32> for Val {
    open spec fn obeys_from_spec() -> bool {
        true
    }

    open spec fn from_spec(t: u32) -> Val {
        Val::U32(t)
    }
}

impl From<u64> for Val {
    fn from(value: u64) -> Self {
        Val::U64(value)
    }
}

impl FromSpecImpl<u64> for Val {
    open spec fn obeys_from_spec() -> bool {
        true
    }

    open spec fn from_spec(t: u64) -> Val {
        Val::U64(t)
    }
}

/// Round trip for the boolean case: converting a native boolean to a value
/// and extracting it again yields the original.
pub proof fn lemma_round_trip_bool(x: bool)
    ensures
        <Val as FromSpec<bool>>::from_spec(x) == Val::Bool(x),
        spec_as_bool(<Val as FromSpec<bool>>::from_spec(x)) == Some(x),
{
}

/// Round trip for the signed 8-bit case.
pub proof fn lemma_round_trip_s8(x: i8)
    ensures
        <Val as FromSpec<i8>>::from_spec(x) == Val::S8(x),
        spec_as_s8(<Val as FromSpec<i8>>::from_spec(x)) == Some(x),
{
}

/// Round trip for the unsigned 8-bit case.
pub proof fn lemma_round_trip_u8(x: u8)
    ensures
        <Val as FromSpec<u8>>::from_spec(x) == Val::U8(x),
        spec_as_u8(<Val as FromSpec<u8>>::from_spec(x)) == Some(x),
{
}

/// Round trip for the signed 16-bit case.
pub proof fn lemma_round_trip_s16(x: i16)
    ensures
        <Val as FromSpec<i16>>::from_spec(x) == Val::S16(x),
        spec_as_s16(<Val as FromSpec<i16>>::from_spec(x)) == Some(x),
{
}

/// Round trip for the unsigned 16-bit case.
pub proof fn lemma_round_trip_u16(x: u16)
    ensures
        <Val as FromSpec<u16>>::from_spec(x) == Val::U16(x),
        spec_as_u16(<Val as FromSpec<u16>>::from_spec(x)) == Some(x),
{
}

/// Round trip for the signed 32-bit case.
pub proof fn lemma_round_trip_s32(x: i32)
    ensures
        <Val as FromSpec<i32>>::from_spec(x) == Val::S32(x),
        spec_as_s32(<Val as FromSpec<i32>>::from_spec(x)) == Some(x),
{
}

/// Round trip for the unsigned 32-bit case.
pub proof fn lemma_round_trip_u32(x: u32)
    ensures
        <Val as FromSpec<u32>>::from_spec(x) == Val::U32(x),
        spec_as_u32(<Val as FromSpec<u32>>::from_spec(x)) == Some(x),
{
}

/// Round trip for the signed 64-bit case.
pub proof fn lemma_round_trip_s64(x: i64)
    ensures
        <Val as FromSpec<i64>>::from_spec(x) == Val::S64(x),
        spec_as_s64(<Val as FromSpec<i64>>::from_spec(x)) == Some(x),
{
}

/// Round trip for the unsigned 64-bit case.
pub proof fn lemma_round_trip_u64(x: u64)
    ensures
        <Val as FromSpec<u64>>::from_spec(x) == Val::U64(x),
        spec_as_u64(<Val as FromSpec<u64>>::from_spec(x)) == Some(x),
{
}

/// A record value built from field pairs keeps them in exactly that order,
/// and extracting the fields again recovers the original pairs.
pub proof fn lemma_record_round_trip(fields: Vec<(String, Val)>)
    ensures
        spec_record_fields(Val::Record(fields)) == Some(fields@),
        forall|i: int|
            0 <= i < fields@.len() ==> spec_record_fields(Val::Record(fields))->Some_0[i]
                == fields@[i],
{
}

} // verus!
