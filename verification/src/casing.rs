use vstd::prelude::*;

verus! {

/// The Pascal-case rendering of a string, as computed by the case
/// conversion library.  Same characters in, same characters out.
pub uninterp spec fn pascal_of(s: Seq<char>) -> Seq<char>;

/// The snake-case rendering of a string, as computed by the case
/// conversion library.  Same characters in, same characters out.
pub uninterp spec fn snake_of(s: Seq<char>) -> Seq<char>;

/// Relies on convert_case's `Casing::to_case` with `Case::Pascal`: the
/// result is a pure function of the characters of the input.
#[verifier::external_body]
pub(crate) fn to_pascal_case(s: &str) -> (r: String)
    ensures
        r@ == pascal_of(s@),
{
    convert_case::Casing::to_case(&s, convert_case::Case::Pascal)
}

/// Relies on convert_case's `Casing::to_case` with `Case::Snake`: the
/// result is a pure function of the characters of the input.
#[verifier::external_body]
pub(crate) fn to_snake_case(s: &str) -> (r: String)
    ensures
        r@ == snake_of(s@),
{
    convert_case::Casing::to_case(&s, convert_case::Case::Snake)
}

/// Relies on the documented behaviour of `String::push`: it appends one
/// character at the end.
pub assume_specification[ String::push ](s: &mut String, c: char)
    ensures
        final(s)@ == old(s)@.push(c),
;

} // verus!
