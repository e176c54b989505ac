use alloc_safe::{AllocError, ReserveErrorKind};
use std::alloc::Layout;

fn layout(size: usize, align: usize) -> Layout {
    Layout::from_size_align(size, align).unwrap()
}

#[test]
fn new_keeps_size_and_align() {
    let e = AllocError::new(layout(10, 1));
    assert_eq!(e.size(), 10);
    assert_eq!(e.align(), 1);
}

#[test]
fn layout_round_trips() {
    let l = layout(4096, 64);
    assert_eq!(AllocError::new(l).layout(), l);
    let zero = layout(0, 1);
    assert_eq!(AllocError::new(zero).layout(), zero);
}

#[test]
fn largest_layout_round_trips() {
    let l = layout(isize::MAX as usize, 1);
    let e = AllocError::new(l);
    assert_eq!(e.size(), isize::MAX as usize);
    assert_eq!(e.layout(), l);
}

#[test]
fn errors_compare_by_size_and_align() {
    assert_eq!(AllocError::new(layout(10, 1)), AllocError::new(layout(10, 1)));
    assert_ne!(AllocError::new(layout(10, 1)), AllocError::new(layout(10, 2)));
    assert_ne!(AllocError::new(layout(10, 1)), AllocError::new(layout(11, 1)));
}

#[test]
fn errors_are_copied() {
    let e = AllocError::new(layout(24, 8));
    let copy = e;
    assert_eq!(e, copy);
    assert_eq!(e.clone(), copy);
}

#[test]
fn display_text_reports_both_fields() {
    let e = AllocError::new(layout(10, 1));
    assert_eq!(
        e.to_string(),
        "failed to allocate memory by required layout {size: 10, align: 1}"
    );
}

#[test]
fn display_text_of_many_digits() {
    let e = AllocError::new(layout(1234567, 4096));
    assert_eq!(
        e.to_string(),
        "failed to allocate memory by required layout {size: 1234567, align: 4096}"
    );
}

#[test]
fn display_text_of_zero_size() {
    let e = AllocError::new(layout(0, 8));
    assert_eq!(
        e.to_string(),
        "failed to allocate memory by required layout {size: 0, align: 8}"
    );
}

#[test]
fn debug_text_reports_both_fields() {
    let e = AllocError::new(layout(10, 1));
    assert_eq!(format!("{:?}", e), "AllocError { size: 10, align: 1 }");
}

#[test]
fn refused_reservation_reports_its_layout() {
    let kind = ReserveErrorKind::AllocError { layout: layout(10, 1) };
    assert_eq!(AllocError::from_reserve_error(kind), AllocError::new(layout(10, 1)));
    let kind = ReserveErrorKind::AllocError { layout: layout(4096, 64) };
    let e = AllocError::from_reserve_error(kind);
    assert_eq!(e.size(), 4096);
    assert_eq!(e.align(), 64);
}

#[test]
fn from_size_align_takes_layouts_only() {
    assert_eq!(AllocError::from_size_align(10, 1), Some(AllocError::new(layout(10, 1))));
    assert_eq!(AllocError::from_size_align(0, 4096), Some(AllocError::new(layout(0, 4096))));
    assert_eq!(AllocError::from_size_align(10, 0), None);
    assert_eq!(AllocError::from_size_align(10, 3), None);
    assert_eq!(AllocError::from_size_align(usize::MAX, 1), None);
    assert_eq!(AllocError::from_size_align(isize::MAX as usize, 2), None);
    assert_eq!(
        AllocError::from_size_align(isize::MAX as usize - 1, 2).map(|e| e.size()),
        Some(isize::MAX as usize - 1)
    );
}
