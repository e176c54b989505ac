//! String extensions.

use crate::error::AllocError;
use crate::layout::layout_of_str;
use std::borrow::Cow;
use std::collections::TryReserveError;
use vstd::prelude::*;

verus! {

/// The number of bytes that `text` takes in a string.
pub open spec fn utf8_len(text: Seq<char>) -> usize {
    vstd::utf8::encode_utf8(text).len() as usize
}

/// A trait for converting a value to a `String` without aborting when
/// memory runs out.
pub trait TryToString {
    /// The text of the value.
    spec fn text(&self) -> Seq<char>;

    /// Converts the given value to a `String`. Fails with the request for
    /// the bytes of the text if the memory for them cannot be reserved.
    fn try_to_string(&self) -> (r: Result<String, AllocError>)
        ensures
            r matches Ok(s) ==> s@ == self.text(),
            r matches Err(e) ==> e == AllocError::for_request(utf8_len(self.text()), 1),
            utf8_len(self.text()) == 0 ==> r is Ok,
    ;
}

/// Ends a fallible copy of `text` into `buf`: appends the text if the
/// reservation made for it succeeded, and reports the request for the
/// bytes of the text if it failed.
pub fn copy_reserved(buf: String, reserved: Result<(), TryReserveError>, text: &str) -> (r: Result<
    String,
    AllocError,
>)
    ensures
        reserved is Ok ==> (r matches Ok(s) && s@ == buf@ + text@),
        reserved is Err ==> r == Err::<String, AllocError>(
            AllocError::for_request(text.len(), 1),
        ),
{
    match reserved {
        Ok(()) => {
            let mut buf = buf;
            buf.push_str(text);
            Ok(buf)
        },
        Err(_) => Err(AllocError::new(layout_of_str(text))),
    }
}

impl TryToString for str {
    open spec fn text(&self) -> Seq<char> {
        self@
    }

    fn try_to_string(&self) -> (r: Result<String, AllocError>) {
        let mut s = String::new();
        let reserved = s.try_reserve_exact(self.len());
        copy_reserved(s, reserved, self)
    }
}

impl TryToString for Cow<'_, str> {
    open spec fn text(&self) -> Seq<char> {
        self@
    }

    fn try_to_string(&self) -> (r: Result<String, AllocError>) {
        match self {
            Cow::Borrowed(borrowed) => borrowed.try_to_string(),
            Cow::Owned(owned) => owned.as_str().try_to_string(),
        }
    }
}

impl TryToString for String {
    open spec fn text(&self) -> Seq<char> {
        self@
    }

    fn try_to_string(&self) -> (r: Result<String, AllocError>) {
        self.as_str().try_to_string()
    }
}

} // verus!
