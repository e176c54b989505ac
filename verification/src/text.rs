//! What the library assumes of `String`, and the decimal rendering of
//! numbers.

use std::collections::TryReserveError;
use vstd::prelude::*;

verus! {

/// `String::push_str` appends the slice to the string.
pub assume_specification[ String::push_str ](s: &mut String, other: &str)
    ensures
        final(s)@ == old(s)@ + other@,
;

/// `String::try_reserve` makes room for `additional` more bytes or
/// reports that it could not. Either way the text stays as it was, and
/// room for no more bytes is always there. Trusted as well: the capacity
/// overflows, and the call reports an error, when more than `isize::MAX`
/// bytes are asked for, since no string has room for that many.
pub assume_specification[ String::try_reserve ](s: &mut String, additional: usize) -> (r: Result<
    (),
    TryReserveError,
>)
    ensures
        final(s)@ == old(s)@,
        additional == 0 ==> r is Ok,
        additional > isize::MAX ==> r is Err,
;

/// `String::try_reserve_exact` makes room for `additional` more bytes or
/// reports that it could not. Either way the text stays as it was, and
/// room for no more bytes is always there.
pub assume_specification[ String::try_reserve_exact ](s: &mut String, additional: usize) -> (r:
    Result<(), TryReserveError>)
    ensures
        final(s)@ == old(s)@,
        additional == 0 ==> r is Ok,
;

/// The decimal digit with value `d`, for `d < 10`.
pub open spec fn digit(d: nat) -> char {
    ((d + 48) as u8) as char
}

/// The decimal rendering of `n`, most significant digit first.
pub open spec fn decimal(n: nat) -> Seq<char>
    decreases n,
{
    if n < 10 {
        seq![digit(n)]
    } else {
        decimal(n / 10).push(digit(n % 10))
    }
}

/// The decimal rendering of `n`. Trusted: `usize::to_string` writes its
/// value in base ten, without sign, padding or separators.
#[verifier::external_body]
pub(crate) fn decimal_string(n: usize) -> (s: String)
    ensures
        s@ == decimal(n as nat),
{
    n.to_string()
}

} // verus!
