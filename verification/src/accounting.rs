//! An account of what a construction holds of the platform: the backing
//! object, the name under which others could open it, and the addresses it
//! has mapped with the byte of the object that each of them shows.
//!
//! The account follows what the operations are documented to do. A resource
//! counts as held from the operation that produced it to the operation that
//! gives it up, however that operation ends: after a failed release nothing
//! more can be done for it.

use crate::allocation::{empty_region, teardown_of, valid_region, view_bytes, Region, Teardown};
use crate::construction::{
    admits, lemma_view_length, next, pending, valid_progress, Phase, Progress, Transition,
};
use crate::error::SystemError;
use crate::protocol::{Action, Outcome};
use vstd::layout::size_of;
use vstd::prelude::*;

verus! {

/// One byte of a backing object.
pub struct Cell {
    pub handle: usize,
    pub offset: int,
}

/// What is held: the backing object, the stamp of the name that it can be
/// opened by, and for each mapped address the byte that it shows.
pub struct Holdings {
    pub handle: Option<usize>,
    pub name: Option<u16>,
    pub mapped: Map<int, Cell>,
}

/// Nothing is held.
pub open spec fn nothing() -> Holdings {
    Holdings { handle: None, name: None, mapped: Map::empty() }
}

/// Only the backing object is held.
pub open spec fn object_only(handle: usize) -> Holdings {
    Holdings { handle: Some(handle), name: None, mapped: Map::empty() }
}

/// The addresses of `bytes` bytes from `address` on.
pub open spec fn addresses(address: int, bytes: int) -> Set<int> {
    Set::new(|a: int| address <= a < address + bytes)
}

/// The first `bytes` bytes of an object, mapped from `address` on.
pub open spec fn window(address: int, bytes: int, handle: usize) -> Map<int, Cell> {
    Map::new(
        |a: int| address <= a < address + bytes,
        |a: int| Cell { handle, offset: a - address },
    )
}

/// The first `bytes` bytes of an object, mapped from `address` on and once
/// more behind that.
pub open spec fn mirror(address: int, bytes: int, handle: usize) -> Map<int, Cell> {
    Map::new(
        |a: int| address <= a < address + 2 * bytes,
        |a: int|
            Cell {
                handle,
                offset: if a < address + bytes {
                    a - address
                } else {
                    a - address - bytes
                },
            },
    )
}

/// What a construction holds while it waits for its operation.
pub open spec fn held(p: Progress) -> Holdings {
    match p.phase {
        Phase::Creating => nothing(),
        Phase::Naming { attempt, stamp } => nothing(),
        Phase::Unlinking { handle, stamp } => Holdings {
            handle: Some(handle),
            name: Some(stamp),
            mapped: Map::empty(),
        },
        Phase::Resizing { handle } => object_only(handle),
        Phase::Mapping { handle } => object_only(handle),
        Phase::Overlaying { handle, base } => Holdings {
            handle: Some(handle),
            name: None,
            mapped: window(base as int, 2 * p.bytes, handle),
        },
        Phase::Reserving { handle, attempt } => object_only(handle),
        Phase::PlacingLower { handle, attempt, address } => object_only(handle),
        Phase::PlacingUpper { handle, attempt, address } => Holdings {
            handle: Some(handle),
            name: None,
            mapped: window(address as int, p.bytes as int, handle),
        },
        Phase::Retreating { handle, attempt, address } => Holdings {
            handle: Some(handle),
            name: None,
            mapped: window(address as int, p.bytes as int, handle),
        },
        Phase::Unmapping { handle, span, cause } => Holdings {
            handle: Some(handle),
            name: None,
            mapped: window(span.address as int, span.bytes as int, handle),
        },
        Phase::Closing { handle, cause } => object_only(handle),
    }
}

/// What an allocation holds: nothing when it is empty, else its backing
/// object and two views of the same bytes, one behind the other.
pub open spec fn held_by<T>(r: Region) -> Holdings {
    if r.len == 0 || r.handle is None {
        nothing()
    } else {
        Holdings {
            handle: r.handle,
            name: None,
            mapped: mirror(r.base as int, view_bytes::<T>(r) as int, r.handle->0),
        }
    }
}

/// What is held after an operation has ended. Creating an object gives its
/// handle, and its name where it was created by name. Mapping makes addresses
/// show the first bytes of the object, in place of what they showed before.
/// Unlinking, unmapping and closing give up what they name. The other
/// operations change nothing that is held.
pub open spec fn settle(h: Holdings, action: Action, outcome: Outcome) -> Holdings {
    match action {
        Action::Create { bytes } => match outcome {
            Outcome::Completed(handle) => Holdings { handle: Some(handle), ..h },
            _ => h,
        },
        Action::CreateNamed { stamp } => match outcome {
            Outcome::Completed(handle) => Holdings { handle: Some(handle), name: Some(stamp), ..h },
            _ => h,
        },
        Action::MapAnywhere { handle, bytes } => match outcome {
            Outcome::Completed(address) => Holdings {
                mapped: h.mapped.union_prefer_right(window(address as int, bytes as int, handle)),
                ..h
            },
            _ => h,
        },
        Action::MapAt { handle, address, bytes } => match outcome {
            Outcome::Completed(_) => Holdings {
                mapped: h.mapped.union_prefer_right(window(address as int, bytes as int, handle)),
                ..h
            },
            _ => h,
        },
        Action::Unmap { address, bytes } => Holdings {
            mapped: h.mapped.remove_keys(addresses(address as int, bytes as int)),
            ..h
        },
        Action::Close { handle } => Holdings {
            handle: if h.handle == Some(handle) {
                None
            } else {
                h.handle
            },
            ..h
        },
        Action::Unlink { stamp } => Holdings {
            name: if h.name == Some(stamp) {
                None
            } else {
                h.name
            },
            ..h
        },
        Action::Resize { handle, bytes } => h,
        Action::Reserve { bytes } => h,
    }
}

/// The same things are held.
pub open spec fn same_holdings(a: Holdings, b: Holdings) -> bool {
    a.handle == b.handle && a.name == b.name && a.mapped =~= b.mapped
}

/// No construction loses track of a resource. What it holds after an
/// operation is what it held before, changed by that operation. When it ends
/// well, what it holds is what the allocation holds: the backing object,
/// without a name, and its first bytes mapped twice in a row. When it ends in
/// failure, it holds nothing: every object it created has been closed, every
/// name has been removed, and every address it mapped has been unmapped.
pub proof fn lemma_nothing_leaks<T>(p: Progress, outcome: Outcome, tick: Result<i64, SystemError>)
    requires
        valid_progress::<T>(p),
        admits::<T>(p, outcome),
    ensures
        ({
            let after = settle(held(p), pending(p), outcome);
            match next::<T>(p, outcome, tick) {
                Transition::Continue(q) => same_holdings(after, held(q)),
                Transition::Finished(Ok(r)) => same_holdings(after, held_by::<T>(r)),
                Transition::Finished(Err(_)) => same_holdings(after, nothing()),
            }
        }),
{
    lemma_view_length(p.bytes as nat, p.count as nat, size_of::<T>(), p.granularity as nat);
}

/// The two views of an allocation show the same bytes: the address of a byte
/// in the lower view and the address as far into the upper view are both
/// mapped, and to the same byte of the backing object.
pub proof fn lemma_views_alias<T>(r: Region, i: int)
    requires
        valid_region::<T>(r),
        0 <= i < view_bytes::<T>(r),
    ensures
        ({
            let mapped = held_by::<T>(r).mapped;
            let lower = r.base + i;
            let upper = r.base + view_bytes::<T>(r) + i;
            &&& mapped.dom().contains(lower)
            &&& mapped.dom().contains(upper)
            &&& mapped[lower] == mapped[upper]
            &&& mapped[lower] == Cell { handle: r.handle->0, offset: i }
        }),
{
}

/// What is held after the three operations of a teardown, however they end.
pub open spec fn torn_down(
    h: Holdings,
    t: Teardown,
    lower: Outcome,
    upper: Outcome,
    close: Outcome,
) -> Holdings {
    let first = settle(h, Action::Unmap { address: t.lower.address, bytes: t.lower.bytes }, lower);
    let second = settle(
        first,
        Action::Unmap { address: t.upper.address, bytes: t.upper.bytes },
        upper,
    );
    settle(second, Action::Close { handle: t.handle }, close)
}

/// A release gives up everything: an empty allocation holds nothing, and
/// after the teardown of any other nothing is held either.
pub proof fn lemma_release_frees_all<T>(r: Region, lower: Outcome, upper: Outcome, close: Outcome)
    requires
        valid_region::<T>(r),
    ensures
        match teardown_of::<T>(r) {
            None => r == empty_region() && held_by::<T>(r) == nothing(),
            Some(t) => same_holdings(torn_down(held_by::<T>(r), t, lower, upper, close), nothing()),
        },
{
    if r.len != 0 {
        let bytes = view_bytes::<T>(r);
        assert(bytes <= usize::MAX && r.base + bytes <= usize::MAX) by (nonlinear_arith)
            requires
                r.base + 2 * bytes <= usize::MAX,
                bytes >= 0,
                r.base >= 0,
        ;
    }
}

} // verus!
