//! The panic-time reserve: memory blocks set aside so that unwinding from
//! an allocation failure does not itself have to allocate.

use crate::error::AllocError;
use crate::layout::{layout_align, layout_is, layout_size};
use std::alloc::Layout;
use vstd::prelude::*;

verus! {

/// Size in bytes of the block that carries the panic payload.
pub const BOX_ME_UP_SIZE: usize = 16;

/// Size in bytes of the block that holds the native exception record.
pub const EXCEPTION_SIZE: usize = 80;

/// Alignment in bytes of every block of the reserve.
pub const SLOT_ALIGN: usize = 8;

/// The named slots of the reserve, one for each allocation that the
/// unwinding machinery makes when it raises a panic.
#[derive(Copy, Clone, Debug, PartialEq, Eq, Structural)]
pub enum Slot {
    /// The block that carries the panic payload.
    BoxMeUp,
    /// The block that holds the native exception record.
    Exception,
}

impl Slot {
    /// The size in bytes of the block that the slot holds.
    pub open spec fn spec_size(&self) -> usize {
        match self {
            Slot::BoxMeUp => BOX_ME_UP_SIZE,
            Slot::Exception => EXCEPTION_SIZE,
        }
    }

    /// The alignment in bytes of the block that the slot holds.
    pub open spec fn spec_align(&self) -> usize {
        SLOT_ALIGN
    }

    /// The slot whose block has exactly this size and this alignment.
    pub open spec fn serving(size: usize, align: usize) -> Option<Slot> {
        if size == BOX_ME_UP_SIZE && align == SLOT_ALIGN {
            Some(Slot::BoxMeUp)
        } else if size == EXCEPTION_SIZE && align == SLOT_ALIGN {
            Some(Slot::Exception)
        } else {
            None
        }
    }

    /// The error that reports a failure to allocate the block of the slot.
    pub open spec fn spec_error(&self) -> AllocError {
        AllocError::for_request(self.spec_size(), self.spec_align())
    }

    /// `layout` asks for exactly the block of this slot.
    pub open spec fn fits(&self, layout: Layout) -> bool {
        layout_is(layout, self.spec_size(), self.spec_align())
    }

    /// Returns the size in bytes of the block that the slot holds.
    #[verifier::when_used_as_spec(spec_size)]
    pub fn size(&self) -> (size: usize)
        ensures
            size == self.spec_size(),
    {
        match self {
            Slot::BoxMeUp => BOX_ME_UP_SIZE,
            Slot::Exception => EXCEPTION_SIZE,
        }
    }

    /// Returns the alignment in bytes of the block that the slot holds.
    #[verifier::when_used_as_spec(spec_align)]
    pub fn align(&self) -> (align: usize)
        ensures
            align == self.spec_align(),
    {
        SLOT_ALIGN
    }

    /// Returns the layout of the block that the slot holds.
    pub fn layout(&self) -> (layout: Layout)
        ensures
            self.fits(layout),
    {
        proof {
            lemma_slot_layout_valid(*self);
        }
        Layout::from_size_align(self.size(), self.align()).unwrap()
    }

    /// Returns the error that reports a failure to allocate the block of
    /// the slot.
    #[verifier::when_used_as_spec(spec_error)]
    pub fn error(&self) -> (e: AllocError)
        ensures
            e == self.spec_error(),
            e.is_request(self.spec_size(), self.spec_align()),
    {
        proof {
            lemma_slot_layout_valid(*self);
        }
        AllocError::of(self.size(), self.align())
    }

    /// Returns the slot that serves a request for `layout`, if there is
    /// one: the slot whose block has exactly that size and alignment.
    pub fn matching(layout: Layout) -> (slot: Option<Slot>)
        ensures
            slot == Slot::serving(layout_size(layout), layout_align(layout)),
    {
        let size = layout.size();
        let align = layout.align();
        if size == BOX_ME_UP_SIZE && align == SLOT_ALIGN {
            Some(Slot::BoxMeUp)
        } else if size == EXCEPTION_SIZE && align == SLOT_ALIGN {
            Some(Slot::Exception)
        } else {
            None
        }
    }
}

/// The block of every slot has a layout that std accepts.
pub proof fn lemma_slot_layout_valid(slot: Slot)
    ensures
        vstd::layout::valid_layout(slot.spec_size(), slot.spec_align()),
{
    reveal_with_fuel(vstd::arithmetic::power2::is_pow2, 5);
}

/// A slot serves exactly the requests for its own size and alignment, and
/// no two slots serve the same request.
pub proof fn lemma_serving_own_block(slot: Slot)
    ensures
        Slot::serving(slot.spec_size(), slot.spec_align()) == Some(slot),
        forall|size: usize, align: usize|
            Slot::serving(size, align) == Some(slot) ==> size == slot.spec_size() && align
                == slot.spec_align(),
{
}

/// The memory that one thread holds in reserve for unwinding: at most one
/// block per slot. `B` is the handle of a memory block; the reserve only
/// stores it and hands it on.
pub struct PanicMem<B> {
    box_me_up: Option<B>,
    exception: Option<B>,
}

impl<B> View for PanicMem<B> {
    type V = Map<Slot, B>;

    /// The blocks that the reserve holds, by slot.
    closed spec fn view(&self) -> Map<Slot, B> {
        let carrier = match self.box_me_up {
            Some(block) => Map::empty().insert(Slot::BoxMeUp, block),
            None => Map::empty(),
        };
        match self.exception {
            Some(block) => carrier.insert(Slot::Exception, block),
            None => carrier,
        }
    }
}

/// What an allocator answered when it was asked for the block of `slot`:
/// `block` is a possible answer of `alloc` to a layout of the slot's size
/// and alignment.
pub open spec fn answered<B, F: Fn(Layout) -> Option<B>>(
    alloc: F,
    slot: Slot,
    block: Option<B>,
) -> bool {
    exists|layout: Layout| slot.fits(layout) && #[trigger] call_ensures(alloc, (layout,), block)
}

/// The block of `slot` was given back: `dealloc` was handed `block`
/// together with a layout of the slot's size and alignment.
pub open spec fn given_back<B, F: Fn(B, Layout)>(dealloc: F, slot: Slot, block: B) -> bool {
    exists|layout: Layout| slot.fits(layout) && #[trigger] call_ensures(dealloc, (block, layout), ())
}

/// The first slot, in the order in which the reserve is primed, that holds
/// no block.
pub open spec fn first_missing<B>(held: Map<Slot, B>) -> Option<Slot> {
    if !held.contains_key(Slot::BoxMeUp) {
        Some(Slot::BoxMeUp)
    } else if !held.contains_key(Slot::Exception) {
        Some(Slot::Exception)
    } else {
        None
    }
}

/// What priming reports for a reserve that holds `after` when it is done:
/// success if every slot holds a block, else the request for the first
/// slot that holds none.
pub open spec fn priming_result<B>(after: Map<Slot, B>) -> Result<(), AllocError> {
    match first_missing(after) {
        None => Ok(()),
        Some(slot) => Err(slot.spec_error()),
    }
}

/// How priming with `alloc` takes a reserve from `before` to `after`.
///
/// A slot that held a block keeps it. A block that is new is an answer of
/// `alloc` to a request for the slot's layout. If a slot is still empty,
/// `alloc` refused the first such slot, and no slot after it was touched.
pub open spec fn priming<B, F: Fn(Layout) -> Option<B>>(
    before: Map<Slot, B>,
    after: Map<Slot, B>,
    alloc: F,
) -> bool {
    &&& forall|slot: Slot|
        #![trigger after.contains_key(slot)]
        before.contains_key(slot) ==> after.contains_key(slot) && after[slot] == before[slot]
    &&& forall|slot: Slot|
        #![trigger after.contains_key(slot)]
        !before.contains_key(slot) && after.contains_key(slot) ==> answered(
            alloc,
            slot,
            Some(after[slot]),
        )
    &&& first_missing(after) matches Some(slot) ==> answered(alloc, slot, None::<B>)
    &&& !after.contains_key(Slot::BoxMeUp) ==> after == before
}

/// Every slot holds a block.
pub open spec fn primed<B>(held: Map<Slot, B>) -> bool {
    forall|slot: Slot| held.contains_key(slot)
}

/// What a request of `size` bytes aligned to `align` gets from a reserve
/// that holds `held`: the block of the slot that serves it, if that slot
/// holds one.
pub open spec fn served<B>(held: Map<Slot, B>, size: usize, align: usize) -> Option<B> {
    match Slot::serving(size, align) {
        Some(slot) => if held.contains_key(slot) {
            Some(held[slot])
        } else {
            None
        },
        None => None,
    }
}

/// What a reserve that holds `held` still holds after a request of `size`
/// bytes aligned to `align`: all but the block that was handed out.
pub open spec fn remaining<B>(held: Map<Slot, B>, size: usize, align: usize) -> Map<Slot, B> {
    match Slot::serving(size, align) {
        Some(slot) => held.remove(slot),
        None => held,
    }
}

/// Priming reports success exactly when it leaves every slot with a block.
pub proof fn lemma_priming_succeeds_iff_primed<B>(after: Map<Slot, B>)
    ensures
        priming_result(after) is Ok <==> primed(after),
        priming_result(after) matches Err(e) ==> exists|slot: Slot|
            !after.contains_key(slot) && e == #[trigger] slot.spec_error(),
{
    if primed(after) {
        assert(after.contains_key(Slot::BoxMeUp) && after.contains_key(Slot::Exception));
    } else {
        let slot = choose|slot: Slot| !after.contains_key(slot);
        match slot {
            Slot::BoxMeUp => {},
            Slot::Exception => {},
        }
    }
}

/// A primed reserve is not exhausted by one unwinding. It serves one
/// request for the block of each slot, in whatever order the requests
/// come: serving `slot` hands out the block of that slot and leaves the
/// block of every other slot in place. No block is handed out twice: a
/// second request for the block of `slot` gets nothing.
pub proof fn lemma_primed_reserve_serves_unwinding<B>(held: Map<Slot, B>, slot: Slot, other: Slot)
    requires
        primed(held),
        other != slot,
    ensures
        served(held, slot.spec_size(), slot.spec_align()) == Some(held[slot]),
        served(
            remaining(held, slot.spec_size(), slot.spec_align()),
            other.spec_size(),
            other.spec_align(),
        ) == Some(held[other]),
        served(
            remaining(held, slot.spec_size(), slot.spec_align()),
            slot.spec_size(),
            slot.spec_align(),
        ) is None,
{
    assert(held.contains_key(slot) && held.contains_key(other));
}

/// A request that is not for the exact layout of a slot gets nothing from
/// the reserve and leaves it as it was.
pub proof fn lemma_other_request_is_not_served<B>(held: Map<Slot, B>, size: usize, align: usize)
    requires
        forall|slot: Slot| !(size == slot.spec_size() && align == slot.spec_align()),
    ensures
        served(held, size, align) is None,
        remaining(held, size, align) == held,
{
    assert(!(size == Slot::BoxMeUp.spec_size() && align == Slot::BoxMeUp.spec_align()));
    assert(!(size == Slot::Exception.spec_size() && align == Slot::Exception.spec_align()));
}

impl<B> PanicMem<B> {
    /// Creates a reserve that holds no block.
    pub fn new() -> (mem: Self)
        ensures
            mem@ == Map::<Slot, B>::empty(),
    {
        let mem = PanicMem { box_me_up: None, exception: None };
        assert(mem@ =~= Map::<Slot, B>::empty());
        mem
    }

    /// Tells whether `slot` holds a block.
    pub fn holds(&self, slot: Slot) -> (held: bool)
        ensures
            held == self@.contains_key(slot),
    {
        match slot {
            Slot::BoxMeUp => self.box_me_up.is_some(),
            Slot::Exception => self.exception.is_some(),
        }
    }

    /// Tells whether every slot holds a block.
    pub fn is_primed(&self) -> (full: bool)
        ensures
            full == primed(self@),
    {
        let full = self.box_me_up.is_some() && self.exception.is_some();
        proof {
            if full {
                assert forall|slot: Slot| self@.contains_key(slot) by {
                    match slot {
                        Slot::BoxMeUp => {},
                        Slot::Exception => {},
                    }
                }
            } else {
                assert(!self@.contains_key(Slot::BoxMeUp) || !self@.contains_key(Slot::Exception));
            }
        }
        full
    }

    /// Removes the block of `slot` from the reserve and returns it, if the
    /// slot holds one.
    pub fn take_slot(&mut self, slot: Slot) -> (block: Option<B>)
        ensures
            old(self)@.contains_key(slot) ==> block == Some(old(self)@[slot]),
            !old(self)@.contains_key(slot) ==> block is None,
            final(self)@ == old(self)@.remove(slot),
    {
        let mut block = None;
        match slot {
            Slot::BoxMeUp => core::mem::swap(&mut self.box_me_up, &mut block),
            Slot::Exception => core::mem::swap(&mut self.exception, &mut block),
        }
        assert(self@ =~= old(self)@.remove(slot));
        block
    }

    /// Puts `block` into `slot`, which holds none.
    fn put(&mut self, slot: Slot, block: B)
        requires
            !old(self)@.contains_key(slot),
        ensures
            final(self)@ == old(self)@.insert(slot, block),
    {
        match slot {
            Slot::BoxMeUp => {
                self.box_me_up = Some(block);
            },
            Slot::Exception => {
                self.exception = Some(block);
            },
        }
        assert(self@ =~= old(self)@.insert(slot, block));
    }

    /// Asks `alloc` for the block of `slot`, which holds none, and stores
    /// it. Tells whether the allocator gave a block.
    fn reserve_slot<F: Fn(Layout) -> Option<B>>(&mut self, slot: Slot, alloc: &F) -> (filled: bool)
        requires
            !old(self)@.contains_key(slot),
            forall|layout: Layout| call_requires(*alloc, (layout,)),
        ensures
            filled ==> final(self)@.contains_key(slot) && final(self)@ == old(self)@.insert(
                slot,
                final(self)@[slot],
            ) && answered(*alloc, slot, Some(final(self)@[slot])),
            !filled ==> final(self)@ == old(self)@ && answered(*alloc, slot, None::<B>),
    {
        let layout = slot.layout();
        let answer = alloc(layout);
        assert(answered(*alloc, slot, answer));
        match answer {
            Some(block) => {
                self.put(slot, block);
                true
            },
            None => false,
        }
    }

    /// Primes the reserve: for each slot that holds no block, in the order
    /// `BoxMeUp`, `Exception`, asks `alloc` for a block of the slot's
    /// layout and stores it. Stops at the first block that `alloc` does
    /// not give and reports the request that failed.
    pub fn try_reserve<F: Fn(Layout) -> Option<B>>(&mut self, alloc: F) -> (r: Result<
        (),
        AllocError,
    >)
        requires
            forall|layout: Layout| call_requires(alloc, (layout,)),
        ensures
            priming(old(self)@, final(self)@, alloc),
            r == priming_result(final(self)@),
    {
        if self.box_me_up.is_none() {
            if !self.reserve_slot(Slot::BoxMeUp, &alloc) {
                return Err(Slot::BoxMeUp.error());
            }
        }
        if self.exception.is_none() {
            if !self.reserve_slot(Slot::Exception, &alloc) {
                return Err(Slot::Exception.error());
            }
        }
        Ok(())
    }

    /// Gives the block of `slot` back through `dealloc`, if the slot holds
    /// one.
    fn release_slot<F: Fn(B, Layout)>(&mut self, slot: Slot, dealloc: &F)
        requires
            forall|block: B, layout: Layout| call_requires(*dealloc, (block, layout)),
        ensures
            final(self)@ == old(self)@.remove(slot),
            old(self)@.contains_key(slot) ==> given_back(*dealloc, slot, old(self)@[slot]),
    {
        match self.take_slot(slot) {
            Some(block) => {
                dealloc(block, slot.layout());
            },
            None => {},
        }
    }

    /// Empties the reserve: hands every block that it still holds to
    /// `dealloc`, together with the layout of its slot.
    pub fn release<F: Fn(B, Layout)>(&mut self, dealloc: F)
        requires
            forall|block: B, layout: Layout| call_requires(dealloc, (block, layout)),
        ensures
            final(self)@ == Map::<Slot, B>::empty(),
            forall|slot: Slot| #[trigger]
                old(self)@.contains_key(slot) ==> given_back(dealloc, slot, old(self)@[slot]),
    {
        self.release_slot(Slot::BoxMeUp, &dealloc);
        self.release_slot(Slot::Exception, &dealloc);
        assert(self@ =~= Map::<Slot, B>::empty()) by {
            assert forall|slot: Slot| !self@.contains_key(slot) by {
                match slot {
                    Slot::BoxMeUp => {},
                    Slot::Exception => {},
                }
            }
        }
        assert forall|slot: Slot| #[trigger]
            old(self)@.contains_key(slot) implies given_back(dealloc, slot, old(self)@[slot]) by {
            match slot {
                Slot::BoxMeUp => {},
                Slot::Exception => {},
            }
        }
    }

    /// Serves a request for `layout` from the reserve: if `layout` is
    /// exactly the layout of a slot and the slot holds a block, removes the
    /// block and returns it; otherwise returns nothing and leaves the
    /// reserve as it was.
    pub fn take_mem(&mut self, layout: Layout) -> (block: Option<B>)
        ensures
            block == served(old(self)@, layout_size(layout), layout_align(layout)),
            final(self)@ == remaining(old(self)@, layout_size(layout), layout_align(layout)),
    {
        match Slot::matching(layout) {
            Some(slot) => self.take_slot(slot),
            None => None,
        }
    }
}

} // verus!
