//! What one thread keeps for the capture of allocation failures: its
//! panic-time reserve and the flag that says whether it is unwinding from
//! a captured failure.

use crate::error::AllocError;
use crate::layout::{layout_align, layout_size};
use crate::reserve::{
    given_back, primed, priming, priming_result, remaining, served, PanicMem, Slot,
};
use std::alloc::Layout;
use vstd::prelude::*;

verus! {

/// The state of one thread, as contracts see it.
pub struct ThreadView<B> {
    /// The blocks that the thread holds in reserve, by slot.
    pub reserve: Map<Slot, B>,
    /// Whether the thread is unwinding from a captured allocation failure.
    pub unwinding: bool,
}

/// What the panic hook does with a panic.
#[derive(Copy, Clone, Debug, PartialEq, Eq, Structural)]
pub enum PanicVerdict {
    /// The panic is no allocation failure: end the process at once.
    Abort,
    /// The panic carries an allocation failure: let it unwind to the
    /// capture boundary.
    Unwind,
}

/// The per-thread state: the panic-time reserve and the unwinding flag.
/// `B` is the handle of a memory block.
pub struct ThreadPanic<B> {
    mem: PanicMem<B>,
    in_panic: bool,
}

impl<B> View for ThreadPanic<B> {
    type V = ThreadView<B>;

    closed spec fn view(&self) -> ThreadView<B> {
        ThreadView { reserve: self.mem@, unwinding: self.in_panic }
    }
}

/// What a thread in state `before` answers to a request of `size` bytes
/// aligned to `align` that the default allocator has refused: a block of
/// its reserve while it is unwinding, nothing otherwise.
pub open spec fn rescued<B>(before: ThreadView<B>, size: usize, align: usize) -> Option<B> {
    if before.unwinding {
        served(before.reserve, size, align)
    } else {
        None
    }
}

/// The state of a thread after it has answered, in state `before`, a
/// request of `size` bytes aligned to `align` that the default allocator
/// has refused.
pub open spec fn after_rescue<B>(before: ThreadView<B>, size: usize, align: usize) -> ThreadView<
    B,
> {
    if before.unwinding {
        ThreadView { reserve: remaining(before.reserve, size, align), unwinding: true }
    } else {
        before
    }
}

/// What the panic hook decides for a panic whose payload is, or is not, an
/// allocation failure.
pub open spec fn verdict(payload_is_alloc_error: bool) -> PanicVerdict {
    if payload_is_alloc_error {
        PanicVerdict::Unwind
    } else {
        PanicVerdict::Abort
    }
}

impl<B> ThreadPanic<B> {
    /// Creates the state of a thread that holds no block and is not
    /// unwinding.
    pub fn new() -> (thread: Self)
        ensures
            thread@ == (ThreadView { reserve: Map::<Slot, B>::empty(), unwinding: false }),
    {
        ThreadPanic { mem: PanicMem::new(), in_panic: false }
    }

    /// Primes the reserve of the thread with blocks from `alloc`, and
    /// reports the first request that `alloc` refused.
    pub fn try_reserve_mem<F: Fn(Layout) -> Option<B>>(&mut self, alloc: F) -> (r: Result<
        (),
        AllocError,
    >)
        requires
            forall|layout: Layout| call_requires(alloc, (layout,)),
        ensures
            priming(old(self)@.reserve, final(self)@.reserve, alloc),
            r == priming_result(final(self)@.reserve),
            final(self)@.unwinding == old(self)@.unwinding,
    {
        self.mem.try_reserve(alloc)
    }

    /// Serves a request for `layout` from the reserve of the thread.
    pub fn take_mem(&mut self, layout: Layout) -> (block: Option<B>)
        ensures
            block == served(old(self)@.reserve, layout_size(layout), layout_align(layout)),
            final(self)@.reserve == remaining(
                old(self)@.reserve,
                layout_size(layout),
                layout_align(layout),
            ),
            final(self)@.unwinding == old(self)@.unwinding,
    {
        self.mem.take_mem(layout)
    }

    /// Empties the reserve of the thread when the thread ends: hands every
    /// block that it still holds to `dealloc`, together with the layout of
    /// its slot.
    pub fn release<F: Fn(B, Layout)>(&mut self, dealloc: F)
        requires
            forall|block: B, layout: Layout| call_requires(dealloc, (block, layout)),
        ensures
            final(self)@.reserve == Map::<Slot, B>::empty(),
            forall|slot: Slot| #[trigger]
                old(self)@.reserve.contains_key(slot) ==> given_back(
                    dealloc,
                    slot,
                    old(self)@.reserve[slot],
                ),
            final(self)@.unwinding == old(self)@.unwinding,
    {
        self.mem.release(dealloc)
    }

    /// Marks the thread as unwinding from a captured allocation failure.
    pub fn set_panic(&mut self)
        ensures
            final(self)@ == (ThreadView { unwinding: true, ..old(self)@ }),
    {
        self.in_panic = true;
    }

    /// Marks the thread as no longer unwinding.
    pub fn unset_panic(&mut self)
        ensures
            final(self)@ == (ThreadView { unwinding: false, ..old(self)@ }),
    {
        self.in_panic = false;
    }

    /// Tells whether the thread is unwinding from a captured allocation
    /// failure.
    pub fn is_in_panic(&self) -> (unwinding: bool)
        ensures
            unwinding == self@.unwinding,
    {
        self.in_panic
    }

    /// Tells whether every slot of the reserve of the thread holds a block.
    pub fn is_primed(&self) -> (full: bool)
        ensures
            full == primed(self@.reserve),
    {
        self.mem.is_primed()
    }

    /// The allocator's answer to a request for `layout` that the default
    /// allocator has refused: while the thread is unwinding, the block of
    /// the reserve that has exactly this layout, if it is still there;
    /// otherwise nothing.
    pub fn rescue(&mut self, layout: Layout) -> (block: Option<B>)
        ensures
            block == rescued(old(self)@, layout_size(layout), layout_align(layout)),
            final(self)@ == after_rescue(old(self)@, layout_size(layout), layout_align(layout)),
    {
        if self.in_panic {
            self.mem.take_mem(layout)
        } else {
            None
        }
    }

    /// The panic hook's decision. A panic whose payload is an allocation
    /// failure marks the thread as unwinding and goes on; any other panic
    /// ends the process and changes nothing.
    pub fn on_panic(&mut self, payload_is_alloc_error: bool) -> (action: PanicVerdict)
        ensures
            action == verdict(payload_is_alloc_error),
            final(self)@ == (ThreadView {
                unwinding: old(self)@.unwinding || payload_is_alloc_error,
                ..old(self)@
            }),
    {
        if !payload_is_alloc_error {
            return PanicVerdict::Abort;
        }
        self.set_panic();
        PanicVerdict::Unwind
    }
}

} // verus!
