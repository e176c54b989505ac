//! The failure value: which allocation request could not be satisfied.

use crate::layout::{layout_align, layout_size};
use crate::text::{decimal, decimal_string};
use std::alloc::Layout;
use vstd::layout::valid_layout;
use vstd::prelude::*;

verus! {

/// The error type for allocation failure.
///
/// It records the size and the alignment of the request that failed. The
/// two always form a layout that `Layout::from_size_align` accepts.
#[derive(Copy, Clone, Debug, PartialEq, Eq, Structural)]
pub struct AllocError {
    size: usize,
    align: usize,
}

/// Why a fallible reservation of a collection failed.
pub enum ReserveErrorKind {
    /// The capacity asked for is more than any collection can have.
    CapacityOverflow,
    /// The allocator refused the request for `layout`.
    AllocError { layout: Layout },
}

impl AllocError {
    #[verifier::type_invariant]
    spec fn well_formed(self) -> bool {
        valid_layout(self.size, self.align)
    }

    /// The error that describes a request of `size` bytes aligned to
    /// `align`.
    pub closed spec fn for_request(size: usize, align: usize) -> AllocError {
        AllocError { size, align }
    }

    /// The error that describes a request for `layout`.
    pub open spec fn for_layout(layout: Layout) -> AllocError {
        AllocError::for_request(layout_size(layout), layout_align(layout))
    }

    /// The size in bytes of the request that failed.
    pub closed spec fn spec_size(&self) -> usize {
        self.size
    }

    /// The alignment in bytes of the request that failed.
    pub closed spec fn spec_align(&self) -> usize {
        self.align
    }

    /// The error describes a request of `size` bytes aligned to `align`.
    pub open spec fn is_request(self, size: usize, align: usize) -> bool {
        self.spec_size() == size && self.spec_align() == align
    }

    /// The text that [`AllocError::to_string`] renders.
    pub open spec fn message(self) -> Seq<char> {
        "failed to allocate memory by required layout {size: "@ + decimal(self.spec_size() as nat)
            + ", align: "@ + decimal(self.spec_align() as nat) + "}"@
    }

    /// An error is determined by the size and the alignment that it
    /// reports: it is the error for the request of that size and alignment,
    /// and any error that reports the same two numbers equals it.
    pub proof fn lemma_request(self)
        ensures
            self == AllocError::for_request(self.spec_size(), self.spec_align()),
            forall|other: AllocError|
                other.is_request(self.spec_size(), self.spec_align()) ==> other == self,
    {
    }

    /// The error for a request reports the size and the alignment of that
    /// request.
    pub proof fn lemma_for_request(size: usize, align: usize)
        ensures
            AllocError::for_request(size, align).is_request(size, align),
    {
    }

    /// Creates a new `AllocError` for a request of `layout`.
    #[must_use]
    pub fn new(layout: Layout) -> (e: Self)
        ensures
            e == AllocError::for_layout(layout),
            e.is_request(layout_size(layout), layout_align(layout)),
    {
        AllocError { size: layout.size(), align: layout.align() }
    }

    /// Creates the `AllocError` for a request of `size` bytes aligned to
    /// `align`, if the two form a layout: `align` is a power of two and
    /// `size`, rounded up to `align`, does not pass `isize::MAX`.
    pub fn from_size_align(size: usize, align: usize) -> (r: Option<Self>)
        ensures
            valid_layout(size, align) ==> r == Some(AllocError::for_request(size, align)),
            !valid_layout(size, align) ==> r is None,
    {
        match Layout::from_size_align(size, align) {
            Ok(layout) => Some(AllocError::new(layout)),
            Err(_) => None,
        }
    }

    /// Creates the `AllocError` for a reservation that failed because the
    /// allocator refused a request. A capacity overflow is no allocation
    /// failure and has no such error.
    pub fn from_reserve_error(kind: ReserveErrorKind) -> (e: Self)
        requires
            kind is AllocError,
        ensures
            e == AllocError::for_layout(kind->layout),
    {
        match kind {
            ReserveErrorKind::AllocError { layout } => AllocError::new(layout),
            ReserveErrorKind::CapacityOverflow => vstd::pervasive::unreached(),
        }
    }

    /// Creates the error for a request of `size` bytes aligned to `align`.
    pub(crate) fn of(size: usize, align: usize) -> (e: Self)
        requires
            valid_layout(size, align),
        ensures
            e == AllocError::for_request(size, align),
            e.is_request(size, align),
    {
        AllocError { size, align }
    }

    /// Returns the memory layout of the request that failed.
    #[must_use]
    pub fn layout(self) -> (layout: Layout)
        ensures
            self.is_request(layout_size(layout), layout_align(layout)),
            self == AllocError::for_layout(layout),
    {
        proof {
            use_type_invariant(&self);
        }
        Layout::from_size_align(self.size, self.align).unwrap()
    }

    /// Returns the size in bytes of the request that failed.
    #[verifier::when_used_as_spec(spec_size)]
    pub fn size(&self) -> (size: usize)
        ensures
            size == self.spec_size(),
    {
        self.size
    }

    /// Returns the alignment in bytes of the request that failed.
    #[verifier::when_used_as_spec(spec_align)]
    pub fn align(&self) -> (align: usize)
        ensures
            align == self.spec_align(),
    {
        self.align
    }

    /// Renders the error for people: both numbers in decimal, inside a
    /// fixed sentence.
    pub fn to_string(&self) -> (text: String)
        ensures
            text@ == self.message(),
    {
        let mut text = String::new();
        text.push_str("failed to allocate memory by required layout {size: ");
        text.push_str(decimal_string(self.size).as_str());
        text.push_str(", align: ");
        text.push_str(decimal_string(self.align).as_str());
        text.push_str("}");
        text
    }
}

} // verus!
