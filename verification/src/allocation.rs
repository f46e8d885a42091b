//! The mirrored allocation and its release.

use crate::error::SystemError;
use crate::protocol::{Outcome, Span};
use core::marker::PhantomData;
use vstd::layout::{align_of, size_of};
use vstd::prelude::*;

verus! {

/// What an allocation records: the address of the lower view, the number of
/// elements in one view, and the handle of the backing object.
#[derive(Clone, Copy, Debug, PartialEq, Eq, Structural)]
pub struct Region {
    pub base: usize,
    pub len: usize,
    pub handle: Option<usize>,
}

/// The region of an allocation that holds nothing.
pub open spec fn empty_region() -> Region {
    Region { base: 0, len: 0, handle: None }
}

/// An empty region has a null base and no backing object. Any other region
/// has a base that is not null and is aligned for `T`, a backing object, and
/// both of its views inside the address space.
pub open spec fn valid_region<T>(r: Region) -> bool {
    if r.len == 0 {
        r.base == 0 && r.handle is None
    } else {
        &&& r.base != 0
        &&& align_of::<T>() > 0
        &&& r.base as nat % align_of::<T>() == 0
        &&& r.handle is Some
        &&& size_of::<T>() > 0
        &&& r.base + 2 * (r.len * size_of::<T>()) <= usize::MAX
    }
}

/// The bytes of one view of a region of elements `T`.
pub open spec fn view_bytes<T>(r: Region) -> nat {
    r.len as nat * size_of::<T>()
}

/// What releasing an allocation takes: unmapping the lower view, unmapping
/// the upper view, and closing the backing object, in that order.
#[derive(Clone, Copy, Debug, PartialEq, Eq, Structural)]
pub struct Teardown {
    pub lower: Span,
    pub upper: Span,
    pub handle: usize,
}

/// The teardown of a region: none for an empty one.
pub open spec fn teardown_of<T>(r: Region) -> Option<Teardown> {
    if r.len == 0 || r.handle is None {
        None
    } else {
        Some(
            Teardown {
                lower: Span { address: r.base, bytes: view_bytes::<T>(r) as usize },
                upper: Span {
                    address: (r.base + view_bytes::<T>(r)) as usize,
                    bytes: view_bytes::<T>(r) as usize,
                },
                handle: r.handle->0,
            },
        )
    }
}

/// The first failure among the three operations of a teardown.
pub open spec fn first_fault(lower: Outcome, upper: Outcome, close: Outcome) -> Option<
    SystemError,
> {
    if lower.fault() is Some {
        lower.fault()
    } else if upper.fault() is Some {
        upper.fault()
    } else {
        close.fault()
    }
}

impl Teardown {
    /// The result of a teardown whose three operations were all attempted and
    /// ended as given: the first failure, if any of them failed.
    pub fn verdict(lower: Outcome, upper: Outcome, close: Outcome) -> (r: Result<(), SystemError>)
        ensures
            match first_fault(lower, upper, close) {
                Some(e) => r == Err::<(), SystemError>(e),
                None => r is Ok,
            },
    {
        match lower.error() {
            Some(e) => Err(e),
            None => match upper.error() {
                Some(e) => Err(e),
                None => match close.error() {
                    Some(e) => Err(e),
                    None => Ok(()),
                },
            },
        }
    }
}

/// A region of memory of `2 * len` elements of `T` whose upper `len` elements
/// are the lower `len` elements mapped once more.
pub struct MirroredAllocation<T> {
    base: usize,
    len: usize,
    handle: Option<usize>,
    marker: PhantomData<T>,
}

impl<T> View for MirroredAllocation<T> {
    type V = Region;

    closed spec fn view(&self) -> Region {
        Region { base: self.base, len: self.len, handle: self.handle }
    }
}

impl<T> MirroredAllocation<T> {
    #[verifier::type_invariant]
    spec fn inv(self) -> bool {
        valid_region::<T>(self@)
    }

    /// The allocation that holds nothing.
    pub fn empty() -> (a: Self)
        ensures
            a@ == empty_region(),
    {
        MirroredAllocation { base: 0, len: 0, handle: None, marker: PhantomData }
    }

    /// The allocation of a valid region.
    pub(crate) fn assemble(region: Region) -> (a: Self)
        requires
            valid_region::<T>(region),
        ensures
            a@ == region,
    {
        MirroredAllocation {
            base: region.base,
            len: region.len,
            handle: region.handle,
            marker: PhantomData,
        }
    }

    /// The address of the first element: null exactly for an empty
    /// allocation, and aligned for `T`.
    pub fn as_mut_ptr(&self) -> (p: usize)
        ensures
            p == self@.base,
            valid_region::<T>(self@),
            p == 0 <==> self@.len == 0,
    {
        proof {
            use_type_invariant(self);
        }
        self.base
    }

    /// The number of elements in one view.
    pub fn len(&self) -> (n: usize)
        ensures
            n == self@.len,
    {
        self.len
    }

    /// Whether the allocation holds no element.
    pub fn is_empty(&self) -> (b: bool)
        ensures
            b == (self@.len == 0),
    {
        self.len() == 0
    }

    /// The handle of the backing object: none exactly for an empty
    /// allocation.
    pub fn handle(&self) -> (h: Option<usize>)
        ensures
            h == self@.handle,
            h is None <==> self@.len == 0,
    {
        proof {
            use_type_invariant(self);
        }
        self.handle
    }

    /// Gives up what the allocation holds and leaves it empty. Returns the
    /// operations that free it: none when it was empty already, so that a
    /// second release frees nothing.
    pub fn release(&mut self) -> (plan: Option<Teardown>)
        ensures
            final(self)@ == empty_region(),
            plan == teardown_of::<T>(old(self)@),
            plan is None <==> old(self)@.len == 0,
            plan matches Some(t) ==> {
                &&& t.lower.address == old(self)@.base
                &&& t.lower.bytes == view_bytes::<T>(old(self)@)
                &&& t.upper.address == t.lower.address + t.lower.bytes
                &&& t.upper.bytes == t.lower.bytes
                &&& Some(t.handle) == old(self)@.handle
            },
    {
        proof {
            use_type_invariant(&*self);
        }
        match self.handle {
            None => None,
            Some(handle) => {
                let base: usize = self.base;
                assert(self.len * size_of::<T>() <= usize::MAX) by (nonlinear_arith)
                    requires
                        self.base + 2 * (self.len * size_of::<T>()) <= usize::MAX,
                        self.base >= 0,
                ;
                let bytes: usize = self.len * core::mem::size_of::<T>();
                *self = MirroredAllocation::empty();
                Some(
                    Teardown {
                        lower: Span { address: base, bytes },
                        upper: Span { address: base + bytes, bytes },
                        handle,
                    },
                )
            },
        }
    }
}

impl<T> Default for MirroredAllocation<T> {
    /// The allocation that holds nothing.
    fn default() -> (a: Self)
        ensures
            a@ == empty_region(),
    {
        MirroredAllocation::empty()
    }
}

/// Releasing a released allocation frees nothing and leaves it as it is:
/// whatever an allocation held, after one release it is empty, and the
/// teardown of an empty region is none.
pub proof fn lemma_release_idempotent<T>(r: Region)
    ensures
        teardown_of::<T>(empty_region()) is None,
        valid_region::<T>(empty_region()),
        valid_region::<T>(r) ==> (teardown_of::<T>(r) is None <==> r == empty_region()),
{
}

} // verus!
