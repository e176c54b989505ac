//! Formatting into a string without aborting when memory runs out.

use core::fmt::{Arguments, Error, Write};
use std::collections::TryReserveError;
use vstd::prelude::*;

verus! {

/// `std::fmt::Error`, carried as it is.
#[verifier::external_type_specification]
#[verifier::external_body]
pub struct ExError(Error);

/// `std::fmt::Arguments`, carried as it is.
#[verifier::external_type_specification]
#[verifier::external_body]
pub struct ExArguments<'a>(Arguments<'a>);

/// `fmt::Error::default` gives the error of `std::fmt`, which carries no
/// data.
pub assume_specification[ <Error as core::default::Default>::default ]() -> (e: Error)
;

/// Formats `args` into `buf`. Trusted: `fmt::Write::write_fmt` hands the
/// text to `buf` piece by piece through `write_str`, and stops with an
/// error at the first piece that `buf` or a formatted value refuses.
/// Which text that is depends on the values inside `args`, so nothing is
/// stated of it.
#[verifier::external_body]
fn write_args(buf: &mut StrBuf, args: Arguments<'_>) -> (written: Result<(), Error>) {
    buf.write_fmt(args)
}

/// A string that grows only after the memory for the new text has been
/// reserved, so that a failure to allocate is an error and no abort.
pub struct StrBuf(String);

impl View for StrBuf {
    type V = Seq<char>;

    closed spec fn view(&self) -> Seq<char> {
        self.0@
    }
}

impl StrBuf {
    /// Creates an empty buffer with room for `capacity` bytes. Fails if
    /// that room cannot be reserved: always when `capacity` is more than
    /// `isize::MAX`, never when it is zero, and otherwise as the allocator
    /// decides.
    pub fn with_capacity(capacity: usize) -> (r: Result<StrBuf, Error>)
        ensures
            r matches Ok(buf) ==> buf@ == Seq::<char>::empty(),
            capacity == 0 ==> r is Ok,
            capacity > isize::MAX ==> r is Err,
    {
        let mut output = String::new();
        let reserved = output.try_reserve(capacity);
        StrBuf::from_reserved(output, reserved)
    }

    /// Wraps `output` as a buffer if the reservation made for it
    /// succeeded, and reports an error if it failed.
    pub fn from_reserved(output: String, reserved: Result<(), TryReserveError>) -> (r: Result<
        StrBuf,
        Error,
    >)
        ensures
            reserved is Ok <==> r is Ok,
            r matches Ok(buf) ==> buf@ == output@,
    {
        match reserved {
            Ok(()) => Ok(StrBuf(output)),
            Err(_) => Err(Error::default()),
        }
    }

    /// Appends `s` if the reservation made for it succeeded; leaves the
    /// buffer as it was and reports an error if it failed.
    pub fn push_reserved(&mut self, reserved: Result<(), TryReserveError>, s: &str) -> (r: Result<
        (),
        Error,
    >)
        ensures
            reserved is Ok <==> r is Ok,
            r is Ok ==> final(self)@ == old(self)@ + s@,
            r is Err ==> final(self)@ == old(self)@,
    {
        match reserved {
            Ok(()) => {
                self.0.push_str(s);
                Ok(())
            },
            Err(_) => Err(Error::default()),
        }
    }

    /// Returns the text that the buffer holds.
    pub fn as_str(&self) -> (s: &str)
        ensures
            s@ == self@,
    {
        self.0.as_str()
    }

    /// Turns the buffer into the string that it holds.
    pub fn into_string(self) -> (s: String)
        ensures
            s@ == self@,
    {
        self.0
    }

    /// Ends a formatting run: the text of the buffer if every piece was
    /// written, the error of the run otherwise.
    pub fn finish(self, written: Result<(), Error>) -> (r: Result<String, Error>)
        ensures
            written is Ok ==> (r matches Ok(s) && s@ == self@),
            written matches Err(e) ==> r == Err::<String, Error>(e),
    {
        match written {
            Ok(()) => Ok(self.0),
            Err(e) => Err(e),
        }
    }
}

impl Write for StrBuf {
    /// Appends `s` to the buffer after reserving the memory for it. On an
    /// error the buffer is as it was.
    fn write_str(&mut self, s: &str) -> (r: Result<(), Error>)
        ensures
            r is Ok ==> final(self)@ == old(self)@ + s@,
            r is Err ==> final(self)@ == old(self)@,
            s.len() == 0 ==> r is Ok,
    {
        let reserved = self.0.try_reserve(s.len());
        self.push_reserved(reserved, s)
    }
}

/// Formats `args` into a new string, reserving memory before each piece
/// is written. `capacity` is the number of bytes to reserve at the start.
/// Fails if memory cannot be reserved or a formatted value reports an
/// error. Nothing is formatted, and the call fails, when the room asked
/// for at the start is more than `isize::MAX` bytes.
pub fn try_format(capacity: usize, args: Arguments<'_>) -> (r: Result<String, Error>)
    ensures
        capacity > isize::MAX ==> r is Err,
{
    match StrBuf::with_capacity(capacity) {
        Ok(mut buf) => {
            let written = write_args(&mut buf, args);
            buf.finish(written)
        },
        Err(e) => Err(e),
    }
}

} // verus!
