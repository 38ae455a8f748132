//! The builtin types that the AST names directly.

use vstd::prelude::*;

verus! {

#[derive(Clone, Copy, PartialEq, Eq, Structural, Debug)]
pub enum PrimitiveType {
    U8, U16, U32, U64, U128, Usize,
    I8, I16, I32, I64, I128, Isize,
    F16, F32, F64, F128,
    Bool, B8, B16, B32, B64,
    Char, Char7, Char8, Char16, Char32,
}

#[derive(Clone, Copy, PartialEq, Eq, Structural, Debug)]
pub enum StringSliceType {
    Str, Str7, Str8, Str16, Str32, CStr,
}

} // verus!
