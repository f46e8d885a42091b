//! What holds of every construction, whatever the platform answers.

use crate::allocation::{valid_region, view_bytes, Region};
use crate::construction::{
    admits, finished_region, lemma_view_length, next, placeable, valid_progress, Method, Phase,
    Progress, Transition, NAME_ATTEMPTS, PLACEMENT_ATTEMPTS,
};
use crate::error::{Error, SystemError};
use crate::multiples::{divides, is_lcm};
use crate::protocol::Outcome;
use crate::size::{is_normalized, lemma_normalized_length};
use vstd::layout::{align_of, size_of};
use vstd::prelude::*;

verus! {

/// Two states of one construction: the request and the size of the view are
/// the same.
pub open spec fn same_request(p: Progress, q: Progress) -> bool {
    &&& q.method == p.method
    &&& q.count == p.count
    &&& q.granularity == p.granularity
    &&& q.bytes == p.bytes
}

/// A construction that goes on stays valid and keeps its request. One that
/// ends well ends with a valid region that is not empty: its base is not
/// null and is aligned for `T`, it has a backing object, one view has the
/// normalized size of the request, and it holds at least the elements asked
/// for.
pub proof fn lemma_step_keeps_valid<T>(
    p: Progress,
    outcome: Outcome,
    tick: Result<i64, SystemError>,
)
    requires
        valid_progress::<T>(p),
        admits::<T>(p, outcome),
    ensures
        match next::<T>(p, outcome, tick) {
            Transition::Continue(q) => valid_progress::<T>(q) && same_request(p, q),
            Transition::Finished(Ok(r)) => {
                &&& valid_region::<T>(r)
                &&& r.base != 0
                &&& r.base as nat % align_of::<T>() == 0
                &&& r.handle is Some
                &&& r.len >= p.count
                &&& view_bytes::<T>(r) == p.bytes
                &&& is_normalized(
                    view_bytes::<T>(r),
                    p.count as nat,
                    size_of::<T>(),
                    p.granularity as nat,
                )
            },
            Transition::Finished(Err(_)) => true,
        },
{
    lemma_view_length(p.bytes as nat, p.count as nat, size_of::<T>(), p.granularity as nat);
}

/// The length of a finished allocation is a whole number of units, where a
/// unit is the least common multiple of the element size and the
/// granularity, counted in elements.
pub proof fn lemma_finished_length_in_units<T>(
    p: Progress,
    outcome: Outcome,
    tick: Result<i64, SystemError>,
    unit: nat,
)
    requires
        valid_progress::<T>(p),
        admits::<T>(p, outcome),
        is_lcm(unit, size_of::<T>(), p.granularity as nat),
    ensures
        next::<T>(p, outcome, tick) matches Transition::Finished(Ok(r)) ==> divides(
            unit / size_of::<T>(),
            r.len as nat,
        ),
{
    lemma_view_length(p.bytes as nat, p.count as nat, size_of::<T>(), p.granularity as nat);
    lemma_normalized_length(
        p.bytes as nat,
        p.count as nat,
        size_of::<T>(),
        p.granularity as nat,
        unit,
    );
}

/// A construction ends in a name collision exactly when the last of the
/// allowed names is taken. It gives up on a lost race exactly when the last
/// of the allowed placements has failed, and then it closes the backing
/// object before it ends.
pub proof fn lemma_retries_are_used_up<T>(
    p: Progress,
    outcome: Outcome,
    tick: Result<i64, SystemError>,
)
    requires
        valid_progress::<T>(p),
        admits::<T>(p, outcome),
    ensures
        next::<T>(p, outcome, tick) == Transition::Finished(
            Err::<Region, Error>(Error::NameCollision),
        ) <==> (p.phase matches Phase::Naming { attempt, stamp } && attempt == NAME_ATTEMPTS
            && outcome is AlreadyExists),
        (next::<T>(p, outcome, tick) matches Transition::Continue(q) && q.phase matches Phase::Closing {
            handle,
            cause,
        } && cause == Error::RaceExceeded) <==> {
            ||| p.phase matches Phase::PlacingLower { handle, attempt, address } && attempt
                == PLACEMENT_ATTEMPTS && outcome.fault() is Some
            ||| p.phase matches Phase::Retreating { handle, attempt, address } && attempt
                == PLACEMENT_ATTEMPTS
        },
        next::<T>(p, outcome, tick) == Transition::Finished(
            Err::<Region, Error>(Error::RaceExceeded),
        ) <==> (p.phase matches Phase::Closing { handle, cause } && cause == Error::RaceExceeded),
        next::<T>(p, outcome, tick) != Transition::Finished(Err::<Region, Error>(Error::Overflow)),
{
}

/// The failure that a construction has in store: the one it ends with, or
/// the one it will end with once it has released what it holds.
pub open spec fn doom(t: Transition) -> Option<Error> {
    match t {
        Transition::Finished(Err(e)) => Some(e),
        Transition::Finished(Ok(_)) => None,
        Transition::Continue(q) => match q.phase {
            Phase::Unmapping { handle, span, cause } => Some(cause),
            Phase::Closing { handle, cause } => Some(cause),
            _ => None,
        },
    }
}

/// The failures that a construction tries again after: an unnamed object
/// that the platform does not have, a name that is taken, and a view that
/// does not fit where it should go.
pub open spec fn retried(p: Progress, outcome: Outcome) -> bool {
    match p.phase {
        Phase::Creating => outcome is Unsupported,
        Phase::Naming { attempt, stamp } => outcome is AlreadyExists,
        Phase::PlacingLower { handle, attempt, address } => true,
        Phase::PlacingUpper { handle, attempt, address } => true,
        _ => false,
    }
}

/// A platform failure is never passed over. Unless it is one that the
/// construction tries again after, or the failure of a release, the
/// construction is doomed to end with that very failure. And once a failure
/// is in store, it is the one that the construction ends with.
pub proof fn lemma_failures_surface<T>(
    p: Progress,
    outcome: Outcome,
    tick: Result<i64, SystemError>,
)
    requires
        valid_progress::<T>(p),
        admits::<T>(p, outcome),
    ensures
        outcome.fault() is Some && !retried(p, outcome) && !(p.phase is Retreating) && doom(
            Transition::Continue(p),
        ) is None ==> doom(next::<T>(p, outcome, tick)) == Some(
            Error::System(outcome.fault()->0),
        ),
        doom(Transition::Continue(p)) matches Some(cause) ==> doom(next::<T>(p, outcome, tick))
            == Some(cause),
{
}

/// An upper bound on the operations that a construction still asks for.
pub open spec fn remaining(p: Progress) -> nat {
    match p.phase {
        Phase::Creating => 27,
        Phase::Naming { attempt, stamp } => (27 - attempt) as nat,
        Phase::Unlinking { handle, stamp } => 22,
        Phase::Resizing { handle } => 5,
        Phase::Mapping { handle } => 4,
        Phase::Overlaying { handle, base } => 3,
        Phase::Reserving { handle, attempt } => (4 * (PLACEMENT_ATTEMPTS - attempt) + 5) as nat,
        Phase::PlacingLower { handle, attempt, address } => (4 * (PLACEMENT_ATTEMPTS - attempt)
            + 4) as nat,
        Phase::PlacingUpper { handle, attempt, address } => (4 * (PLACEMENT_ATTEMPTS - attempt)
            + 3) as nat,
        Phase::Retreating { handle, attempt, address } => (4 * (PLACEMENT_ATTEMPTS - attempt)
            + 2) as nat,
        Phase::Unmapping { handle, span, cause } => 2,
        Phase::Closing { handle, cause } => 1,
    }
}

/// Every construction ends: each operation leaves fewer operations to ask
/// for, and no construction asks for more than 27.
pub proof fn lemma_construction_ends<T>(
    p: Progress,
    outcome: Outcome,
    tick: Result<i64, SystemError>,
)
    requires
        valid_progress::<T>(p),
        admits::<T>(p, outcome),
    ensures
        1 <= remaining(p) <= 27,
        next::<T>(p, outcome, tick) matches Transition::Continue(q) ==> remaining(q) < remaining(p),
{
}

/// On a platform that replaces mappings in place and on which every
/// operation succeeds, a construction ends well after four operations: the
/// object is created, resized and mapped, and the upper half is mapped over.
/// The allocation has the address of the mapping and the handle of the
/// object.
pub proof fn lemma_remap_succeeds<T>(
    p: Progress,
    handle: usize,
    base: usize,
    tick: Result<i64, SystemError>,
)
    requires
        valid_progress::<T>(p),
        p.phase == Phase::Creating,
        p.method == Method::Remap,
        placeable::<T>(p, base),
    ensures
        ({
            let created = next::<T>(p, Outcome::Completed(handle), tick);
            let resized = next::<T>(created->Continue_0, Outcome::Completed(0), tick);
            let mapped = next::<T>(resized->Continue_0, Outcome::Completed(base), tick);
            let overlaid = next::<T>(mapped->Continue_0, Outcome::Completed(0), tick);
            &&& created is Continue
            &&& resized is Continue
            &&& mapped is Continue
            &&& admits::<T>(resized->Continue_0, Outcome::Completed(base))
            &&& overlaid == Transition::Finished(Ok(finished_region::<T>(p, handle, base)))
        }),
{
}

/// On a platform that places the views one by one and on which every
/// operation succeeds, a construction ends well after four operations: the
/// object is created, a free range is found, and the lower and the upper
/// view are mapped into it. The allocation has the address of the range and
/// the handle of the object.
pub proof fn lemma_reserve_succeeds<T>(
    p: Progress,
    handle: usize,
    address: usize,
    tick: Result<i64, SystemError>,
)
    requires
        valid_progress::<T>(p),
        p.phase == Phase::Creating,
        p.method == Method::Reserve,
        placeable::<T>(p, address),
    ensures
        ({
            let created = next::<T>(p, Outcome::Completed(handle), tick);
            let reserved = next::<T>(created->Continue_0, Outcome::Completed(address), tick);
            let lower = next::<T>(reserved->Continue_0, Outcome::Completed(0), tick);
            let upper = next::<T>(lower->Continue_0, Outcome::Completed(0), tick);
            &&& created is Continue
            &&& admits::<T>(created->Continue_0, Outcome::Completed(address))
            &&& reserved is Continue
            &&& lower is Continue
            &&& upper == Transition::Finished(Ok(finished_region::<T>(p, handle, address)))
        }),
{
}

} // verus!
