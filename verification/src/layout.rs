//! What the library assumes of `std::alloc::Layout`.
//!
//! A layout is opaque to the verifier. Its two numbers are named by
//! [`layout_size`] and [`layout_align`], and the functions of std that build
//! a layout or read one are given contracts over those names.

use std::alloc::{Layout, LayoutError};
use vstd::layout::valid_layout;
use vstd::prelude::*;

verus! {

/// `std::alloc::Layout`, carried as it is.
#[verifier::external_type_specification]
#[verifier::external_body]
pub struct ExLayout(Layout);

/// `std::alloc::LayoutError`, carried as it is.
#[verifier::external_type_specification]
#[verifier::external_body]
pub struct ExLayoutError(LayoutError);

/// The size in bytes that a layout asks for.
pub uninterp spec fn layout_size(layout: Layout) -> usize;

/// The alignment in bytes that a layout asks for.
pub uninterp spec fn layout_align(layout: Layout) -> usize;

/// The layout asks for exactly `size` bytes aligned to `align`.
pub open spec fn layout_is(layout: Layout, size: usize, align: usize) -> bool {
    layout_size(layout) == size && layout_align(layout) == align
}

/// `Layout::size` returns the size of the layout. Trusted: every layout
/// keeps the bounds that `Layout::from_size_align` checks, as the type's
/// documentation promises.
pub assume_specification[ Layout::size ](layout: &Layout) -> (size: usize)
    ensures
        size == layout_size(*layout),
        valid_layout(size, layout_align(*layout)),
;

/// `Layout::align` returns the alignment of the layout. Trusted: every
/// layout keeps the bounds that `Layout::from_size_align` checks, as the
/// type's documentation promises.
pub assume_specification[ Layout::align ](layout: &Layout) -> (align: usize)
    ensures
        align == layout_align(*layout),
        valid_layout(layout_size(*layout), align),
;

/// `Layout::from_size_align` builds the layout with this size and this
/// alignment. Trusted: it fails exactly when the alignment is no power of
/// two or the size, rounded up to the alignment, would pass `isize::MAX`.
pub assume_specification[ Layout::from_size_align ](size: usize, align: usize) -> (r: Result<
    Layout,
    LayoutError,
>)
    ensures
        r is Ok <==> valid_layout(size, align),
        r matches Ok(layout) ==> layout_is(layout, size, align),
;

/// The layout of the bytes of a string slice. Trusted: `Layout::for_value`
/// on a `str` describes `s.len()` bytes with the alignment of a byte.
#[verifier::external_body]
pub(crate) fn layout_of_str(s: &str) -> (layout: Layout)
    ensures
        layout_is(layout, s.len(), 1),
{
    Layout::for_value(s)
}

} // verus!
