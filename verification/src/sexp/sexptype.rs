//! R's type codes (`SEXPTYPE`), their names and the kinds of vector the
//! interface distinguishes.

use vstd::prelude::*;

verus! {

pub const NILSXP: u32 = 0;
pub const SYMSXP: u32 = 1;
pub const LISTSXP: u32 = 2;
pub const CLOSXP: u32 = 3;
pub const ENVSXP: u32 = 4;
pub const PROMSXP: u32 = 5;
pub const LANGSXP: u32 = 6;
pub const SPECIALSXP: u32 = 7;
pub const BUILTINSXP: u32 = 8;
pub const CHARSXP: u32 = 9;
pub const LGLSXP: u32 = 10;
pub const INTSXP: u32 = 13;
pub const REALSXP: u32 = 14;
pub const CPLXSXP: u32 = 15;
pub const STRSXP: u32 = 16;
pub const DOTSXP: u32 = 17;
pub const ANYSXP: u32 = 18;
pub const VECSXP: u32 = 19;
pub const EXPRSXP: u32 = 20;
pub const BCODESXP: u32 = 21;
pub const EXTPTRSXP: u32 = 22;
pub const WEAKREFSXP: u32 = 23;
pub const RAWSXP: u32 = 24;
pub const S4SXP: u32 = 25;

/// The name of a type code in messages.
pub open spec fn type_name_spec(ty: u32) -> Seq<char> {
    if ty == NILSXP { "NULL"@ }
    else if ty == SYMSXP { "a symbol"@ }
    else if ty == LISTSXP { "a pairlist"@ }
    else if ty == CLOSXP { "a closure"@ }
    else if ty == ENVSXP { "a environment"@ }
    else if ty == PROMSXP { "a promise"@ }
    else if ty == LANGSXP { "a language"@ }
    else if ty == SPECIALSXP { "a special function"@ }
    else if ty == BUILTINSXP { "a builtin function"@ }
    else if ty == CHARSXP { "string"@ }
    else if ty == LGLSXP { "logical"@ }
    else if ty == INTSXP { "integer"@ }
    else if ty == REALSXP { "real"@ }
    else if ty == CPLXSXP { "complex"@ }
    else if ty == STRSXP { "string"@ }
    else if ty == DOTSXP { "dot"@ }
    else if ty == ANYSXP { "ANYSXP"@ }
    else if ty == VECSXP { "a list"@ }
    else if ty == EXPRSXP { "expression"@ }
    else if ty == BCODESXP { "byte code"@ }
    else if ty == EXTPTRSXP { "external pointer"@ }
    else if ty == WEAKREFSXP { "weak reference"@ }
    else if ty == RAWSXP { "raw vector"@ }
    else if ty == S4SXP { "S4 object"@ }
    else { "Unknown"@ }
}

/// The name of a type code in messages.
pub fn get_human_readable_type_name(ty: u32) -> (name: &'static str)
    ensures
        name@ == type_name_spec(ty),
{
    if ty == NILSXP { "NULL" }
    else if ty == SYMSXP { "a symbol" }
    else if ty == LISTSXP { "a pairlist" }
    else if ty == CLOSXP { "a closure" }
    else if ty == ENVSXP { "a environment" }
    else if ty == PROMSXP { "a promise" }
    else if ty == LANGSXP { "a language" }
    else if ty == SPECIALSXP { "a special function" }
    else if ty == BUILTINSXP { "a builtin function" }
    else if ty == CHARSXP { "string" }
    else if ty == LGLSXP { "logical" }
    else if ty == INTSXP { "integer" }
    else if ty == REALSXP { "real" }
    else if ty == CPLXSXP { "complex" }
    else if ty == STRSXP { "string" }
    else if ty == DOTSXP { "dot" }
    else if ty == ANYSXP { "ANYSXP" }
    else if ty == VECSXP { "a list" }
    else if ty == EXPRSXP { "expression" }
    else if ty == BCODESXP { "byte code" }
    else if ty == EXTPTRSXP { "external pointer" }
    else if ty == WEAKREFSXP { "weak reference" }
    else if ty == RAWSXP { "raw vector" }
    else if ty == S4SXP { "S4 object" }
    else { "Unknown" }
}

/// The kinds of object that a `SEXP` is sorted into.
#[derive(Clone, Copy, Debug, PartialEq, Eq, Structural)]
pub enum TypedKind {
    Integer,
    Real,
    String,
    Logical,
    List,
    ExternalPointer,
    Environment,
    Function,
    Null,
    Other,
}

/// The kind of object of a type code: closures, builtins and specials are
/// all functions.
pub open spec fn typed_kind_spec(ty: u32) -> TypedKind {
    if ty == INTSXP { TypedKind::Integer }
    else if ty == REALSXP { TypedKind::Real }
    else if ty == STRSXP { TypedKind::String }
    else if ty == LGLSXP { TypedKind::Logical }
    else if ty == VECSXP { TypedKind::List }
    else if ty == EXTPTRSXP { TypedKind::ExternalPointer }
    else if ty == ENVSXP { TypedKind::Environment }
    else if ty == CLOSXP || ty == BUILTINSXP || ty == SPECIALSXP { TypedKind::Function }
    else if ty == NILSXP { TypedKind::Null }
    else { TypedKind::Other }
}

/// Sorts a type code into the kind of object that `Sexp::into_typed` gives.
pub fn into_typed_kind(ty: u32) -> (k: TypedKind)
    ensures
        k == typed_kind_spec(ty),
{
    match ty {
        INTSXP => TypedKind::Integer,
        REALSXP => TypedKind::Real,
        STRSXP => TypedKind::String,
        LGLSXP => TypedKind::Logical,
        VECSXP => TypedKind::List,
        EXTPTRSXP => TypedKind::ExternalPointer,
        ENVSXP => TypedKind::Environment,
        CLOSXP | BUILTINSXP | SPECIALSXP => TypedKind::Function,
        NILSXP => TypedKind::Null,
        _ => TypedKind::Other,
    }
}

} // verus!
