use vstd::prelude::*;
use crate::text::str_eq;

verus! {

/// Marker for types that are guaranteed to hold no indirect heap allocation.
/// The generated per-field assertions are only well-typed at types that
/// implement it, which is what turns registry membership into a build-time
/// check.
pub trait StackOnly {

}

impl StackOnly for i8 {

}

impl StackOnly for i16 {

}

impl StackOnly for i32 {

}

impl StackOnly for i64 {

}

impl StackOnly for i128 {

}

impl StackOnly for isize {

}

impl StackOnly for u8 {

}

impl StackOnly for u16 {

}

impl StackOnly for u32 {

}

impl StackOnly for u64 {

}

impl StackOnly for u128 {

}

impl StackOnly for usize {

}

impl StackOnly for bool {

}

impl StackOnly for char {

}

impl StackOnly for () {

}

/// The closed allow-list of primitive type names known to contain no
/// indirection. The two floating-point names belong to the list even though
/// this crate itself never holds such a value.
pub open spec fn type_in_registry(name: Seq<char>) -> bool {
    ||| name == "i8"@
    ||| name == "i16"@
    ||| name == "i32"@
    ||| name == "i64"@
    ||| name == "i128"@
    ||| name == "isize"@
    ||| name == "u8"@
    ||| name == "u16"@
    ||| name == "u32"@
    ||| name == "u64"@
    ||| name == "u128"@
    ||| name == "usize"@
    ||| name == "f32"@
    ||| name == "f64"@
    ||| name == "bool"@
    ||| name == "char"@
    ||| name == "()"@
}

/// Whether a type name, written as source text, is in the allow-list.
pub fn registry_contains(name: &str) -> (r: bool)
    ensures
        r == type_in_registry(name@),
{
    str_eq(name, "i8")
    || str_eq(name, "i16")
    || str_eq(name, "i32")
    || str_eq(name, "i64")
    || str_eq(name, "i128")
    || str_eq(name, "isize")
    || str_eq(name, "u8")
    || str_eq(name, "u16")
    || str_eq(name, "u32")
    || str_eq(name, "u64")
    || str_eq(name, "u128")
    || str_eq(name, "usize")
    || str_eq(name, "f32")
    || str_eq(name, "f64")
    || str_eq(name, "bool")
    || str_eq(name, "char")
    || str_eq(name, "()")
}

} // verus!
