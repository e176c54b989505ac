use alloc_safe::string::copy_reserved;
use alloc_safe::{AllocError, StrBuf, TryToString};
use std::alloc::Layout;
use std::borrow::Cow;
use std::collections::TryReserveError;
use std::fmt::Write;

/// A reservation that failed: no vector can hold this many bytes.
fn failed_reservation() -> Result<(), TryReserveError> {
    let mut v: Vec<u8> = Vec::new();
    v.try_reserve(usize::MAX)
}

#[test]
fn test_try_to_string() {
    assert_eq!("abc".try_to_string().unwrap(), "abc");
}

#[test]
fn try_to_string_of_empty_text() {
    assert_eq!("".try_to_string(), Ok(String::new()));
}

#[test]
fn try_to_string_of_text_beyond_ascii() {
    assert_eq!("h\u{e9}llo \u{1f980}".try_to_string().unwrap(), "h\u{e9}llo \u{1f980}");
}

#[test]
fn try_to_string_of_string() {
    let s = String::from("owned text");
    assert_eq!(s.try_to_string(), Ok(String::from("owned text")));
}

#[test]
fn try_to_string_of_cow() {
    let borrowed: Cow<'_, str> = Cow::Borrowed("abc");
    let owned: Cow<'_, str> = Cow::Owned(String::from("xyz"));
    assert_eq!(borrowed.try_to_string().unwrap(), "abc");
    assert_eq!(owned.try_to_string().unwrap(), "xyz");
}

#[test]
fn copy_after_a_reservation_appends_the_text() {
    let r = copy_reserved(String::from("ab"), Ok(()), "cd");
    assert_eq!(r, Ok(String::from("abcd")));
}

#[test]
fn copy_after_a_failed_reservation_reports_the_bytes() {
    let r = copy_reserved(String::new(), failed_reservation(), "abc");
    assert_eq!(r, Err(AllocError::new(Layout::from_size_align(3, 1).unwrap())));
}

#[test]
fn copy_after_a_failed_reservation_counts_bytes_not_chars() {
    let r = copy_reserved(String::new(), failed_reservation(), "h\u{e9}llo");
    let e = r.unwrap_err();
    assert_eq!(e.size(), 6);
    assert_eq!(e.align(), 1);
}

#[test]
fn buffer_starts_empty() {
    let buf = StrBuf::with_capacity(0).unwrap();
    assert_eq!(buf.as_str(), "");
    let buf = StrBuf::with_capacity(64).unwrap();
    assert_eq!(buf.into_string(), "");
}

#[test]
fn buffer_of_impossible_capacity_is_an_error() {
    assert!(StrBuf::with_capacity(usize::MAX).is_err());
    assert!(StrBuf::with_capacity(isize::MAX as usize + 1).is_err());
}

#[test]
fn write_str_appends() {
    let mut buf = StrBuf::with_capacity(1).unwrap();
    assert!(buf.write_str("hello").is_ok());
    assert!(buf.write_str("").is_ok());
    assert!(buf.write_str(", world").is_ok());
    assert_eq!(buf.as_str(), "hello, world");
    assert_eq!(buf.into_string(), "hello, world");
}

#[test]
fn push_after_a_failed_reservation_keeps_the_text() {
    let mut buf = StrBuf::with_capacity(0).unwrap();
    assert!(buf.write_str("kept").is_ok());
    assert!(buf.push_reserved(failed_reservation(), "lost").is_err());
    assert_eq!(buf.as_str(), "kept");
    assert!(buf.push_reserved(Ok(()), " and more").is_ok());
    assert_eq!(buf.as_str(), "kept and more");
}

#[test]
fn buffer_from_a_failed_reservation_is_an_error() {
    assert!(StrBuf::from_reserved(String::new(), failed_reservation()).is_err());
    let buf = StrBuf::from_reserved(String::from("text"), Ok(())).unwrap();
    assert_eq!(buf.as_str(), "text");
}

#[test]
fn finish_gives_the_text_or_the_error() {
    let mut buf = StrBuf::with_capacity(0).unwrap();
    assert!(buf.write_str("abc").is_ok());
    assert_eq!(buf.finish(Ok(())), Ok(String::from("abc")));
    let mut buf = StrBuf::with_capacity(0).unwrap();
    assert!(buf.write_str("abc").is_ok());
    assert_eq!(buf.finish(Err(std::fmt::Error)), Err(std::fmt::Error));
}

#[test]
fn buffer_takes_formatted_text() {
    let mut buf = StrBuf::with_capacity(0).unwrap();
    let n = 42;
    assert!(buf.write_str(&format!("{}-{:03}", "id", n)).is_ok());
    assert_eq!(buf.into_string(), "id-042");
}
