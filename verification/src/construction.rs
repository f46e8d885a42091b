//! The construction of a mirrored allocation, one platform operation at a
//! time.
//!
//! A construction names the operation it waits for. The driver performs it
//! and reports how it ended; the construction then either names the next
//! operation or ends, with the allocation or with the reason of the failure.
//! Before it ends in failure it has every resource released that the
//! operations so far have produced.

use crate::allocation::{empty_region, MirroredAllocation, Region};
use crate::error::{Error, SystemError};
use crate::multiples::lemma_divides_quotient;
use crate::name::{stamp_from, stamp_of, STAMPS};
use crate::protocol::{Action, Outcome, Span};
use crate::size::{covers, is_normalized, normalized_size};
use crate::system::realtime_nanos;
use core::marker::PhantomData;
use vstd::layout::{align_of, layout_for_type_is_valid, size_of};
use vstd::prelude::*;

verus! {

/// How many names are tried for a backing object that is created by name.
pub const NAME_ATTEMPTS: u8 = 4;

/// How many address ranges are tried for placing the two views one by one.
pub const PLACEMENT_ATTEMPTS: u8 = 5;

/// How the two views come to lie side by side.
#[derive(Clone, Copy, Debug, PartialEq, Eq, Structural)]
pub enum Method {
    /// Map both views as one range, then map the lower view's bytes over the
    /// upper half in place. For platforms that replace a live mapping
    /// atomically.
    Remap,
    /// Learn the address of a free range, then map each view at its own
    /// address in that range, and start over when someone else took part of
    /// the range in between.
    Reserve,
}

/// Where a construction stands: which operation it waits for, and what the
/// operations before it have produced.
#[derive(Clone, Copy, Debug, PartialEq, Eq, Structural)]
pub enum Phase {
    /// Creating the backing object without a name.
    Creating,
    /// Creating the backing object under the name of `stamp`.
    Naming { attempt: u8, stamp: u16 },
    /// Removing the name under which the backing object was created.
    Unlinking { handle: usize, stamp: u16 },
    /// Giving the backing object the size of both views.
    Resizing { handle: usize },
    /// Mapping both views as one range.
    Mapping { handle: usize },
    /// Mapping the lower view's bytes over the upper half of the range.
    Overlaying { handle: usize, base: usize },
    /// Looking for a free range of addresses.
    Reserving { handle: usize, attempt: u8 },
    /// Mapping the lower view at the start of the range.
    PlacingLower { handle: usize, attempt: u8, address: usize },
    /// Mapping the upper view behind the lower one.
    PlacingUpper { handle: usize, attempt: u8, address: usize },
    /// Unmapping the lower view after the upper one found its place taken.
    Retreating { handle: usize, attempt: u8, address: usize },
    /// Unmapping what a failed construction has mapped.
    Unmapping { handle: usize, span: Span, cause: Error },
    /// Closing the backing object of a failed construction.
    Closing { handle: usize, cause: Error },
}

/// The state of a construction.
#[derive(Clone, Copy, Debug, PartialEq, Eq, Structural)]
pub struct Progress {
    /// How the views are placed.
    pub method: Method,
    /// The number of elements asked for.
    pub count: usize,
    /// The platform's mapping granularity.
    pub granularity: usize,
    /// The bytes of one view.
    pub bytes: usize,
    /// Where the construction stands.
    pub phase: Phase,
}

/// What a construction does after an operation has ended.
pub enum Transition {
    /// It goes on, in the given state.
    Continue(Progress),
    /// It ends, with the region of the allocation or with the failure.
    Finished(Result<Region, Error>),
}

/// Both views of an allocation fit at `address`, which is not null and is
/// aligned for `T`.
pub open spec fn placeable<T>(p: Progress, address: usize) -> bool {
    &&& address != 0
    &&& address as nat % align_of::<T>() == 0
    &&& address + 2 * p.bytes <= usize::MAX
}

/// The attempt is one of the `limit` attempts.
pub open spec fn counted(attempt: u8, limit: u8) -> bool {
    1 <= attempt <= limit
}

/// The states that a construction of elements `T` can be in: the view has
/// the normalized size of the request, and the addresses and counters of the
/// phase are in range.
pub open spec fn valid_progress<T>(p: Progress) -> bool {
    &&& p.count > 0
    &&& size_of::<T>() > 0
    &&& align_of::<T>() > 0
    &&& p.granularity > 0
    &&& is_normalized(p.bytes as nat, p.count as nat, size_of::<T>(), p.granularity as nat)
    &&& 2 * p.bytes <= usize::MAX
    &&& match p.phase {
        Phase::Creating => true,
        Phase::Naming { attempt, stamp } => counted(attempt, NAME_ATTEMPTS) && stamp < STAMPS,
        Phase::Unlinking { handle, stamp } => stamp < STAMPS,
        Phase::Resizing { handle } => p.method == Method::Remap,
        Phase::Mapping { handle } => p.method == Method::Remap,
        Phase::Overlaying { handle, base } => p.method == Method::Remap && placeable::<T>(p, base),
        Phase::Reserving { handle, attempt } => {
            p.method == Method::Reserve && counted(attempt, PLACEMENT_ATTEMPTS)
        },
        Phase::PlacingLower { handle, attempt, address } => {
            &&& p.method == Method::Reserve
            &&& counted(attempt, PLACEMENT_ATTEMPTS)
            &&& placeable::<T>(p, address)
        },
        Phase::PlacingUpper { handle, attempt, address } => {
            &&& p.method == Method::Reserve
            &&& counted(attempt, PLACEMENT_ATTEMPTS)
            &&& placeable::<T>(p, address)
        },
        Phase::Retreating { handle, attempt, address } => {
            &&& p.method == Method::Reserve
            &&& counted(attempt, PLACEMENT_ATTEMPTS)
            &&& placeable::<T>(p, address)
        },
        Phase::Unmapping { handle, span, cause } => {
            &&& p.method == Method::Remap
            &&& placeable::<T>(p, span.address)
            &&& span.bytes == 2 * p.bytes
            &&& cause is System
        },
        Phase::Closing { handle, cause } => match p.method {
            Method::Remap => cause is System,
            Method::Reserve => cause is System || cause == Error::RaceExceeded,
        },
    }
}

/// The operation that a construction waits for.
pub open spec fn pending(p: Progress) -> Action {
    match p.phase {
        Phase::Creating => Action::Create { bytes: (2 * p.bytes) as usize },
        Phase::Naming { attempt, stamp } => Action::CreateNamed { stamp },
        Phase::Unlinking { handle, stamp } => Action::Unlink { stamp },
        Phase::Resizing { handle } => Action::Resize { handle, bytes: (2 * p.bytes) as usize },
        Phase::Mapping { handle } => Action::MapAnywhere { handle, bytes: (2 * p.bytes) as usize },
        Phase::Overlaying { handle, base } => Action::MapAt {
            handle,
            address: (base + p.bytes) as usize,
            bytes: p.bytes,
        },
        Phase::Reserving { handle, attempt } => Action::Reserve { bytes: (2 * p.bytes) as usize },
        Phase::PlacingLower { handle, attempt, address } => Action::MapAt {
            handle,
            address,
            bytes: p.bytes,
        },
        Phase::PlacingUpper { handle, attempt, address } => Action::MapAt {
            handle,
            address: (address + p.bytes) as usize,
            bytes: p.bytes,
        },
        Phase::Retreating { handle, attempt, address } => Action::Unmap {
            address,
            bytes: p.bytes,
        },
        Phase::Unmapping { handle, span, cause } => Action::Unmap {
            address: span.address,
            bytes: span.bytes,
        },
        Phase::Closing { handle, cause } => Action::Close { handle },
    }
}

/// The outcomes that a construction can take in: an address that comes back
/// from the platform has room for both views and is aligned for `T`.
pub open spec fn admits<T>(p: Progress, outcome: Outcome) -> bool {
    match (p.phase, outcome) {
        (Phase::Mapping { handle }, Outcome::Completed(address)) => placeable::<T>(p, address),
        (Phase::Reserving { handle, attempt }, Outcome::Completed(address)) => placeable::<T>(
            p,
            address,
        ),
        _ => true,
    }
}

/// The outcomes after which a construction needs a fresh name: the platform
/// creates no unnamed objects, or the last name was taken and another may be
/// tried.
pub open spec fn wants_name(p: Progress, outcome: Outcome) -> bool {
    match (p.phase, outcome) {
        (Phase::Creating, Outcome::Unsupported(_)) => true,
        (Phase::Naming { attempt, stamp }, Outcome::AlreadyExists(_)) => attempt < NAME_ATTEMPTS,
        _ => false,
    }
}

/// The construction in another phase.
pub open spec fn moved(p: Progress, phase: Phase) -> Transition {
    Transition::Continue(Progress { phase, ..p })
}

/// The first phase with the backing object in hand.
pub open spec fn building(p: Progress, handle: usize) -> Phase {
    match p.method {
        Method::Remap => Phase::Resizing { handle },
        Method::Reserve => Phase::Reserving { handle, attempt: 1 },
    }
}

/// Trying the name that the clock gives; a clock that fails ends the
/// construction.
pub open spec fn naming(p: Progress, attempt: u8, tick: Result<i64, SystemError>) -> Transition {
    match tick {
        Ok(nanos) => moved(p, Phase::Naming { attempt, stamp: stamp_from(nanos) }),
        Err(e) => Transition::Finished(Err(Error::System(e))),
    }
}

/// Another attempt at placing the views, or the end of the attempts.
pub open spec fn replacing(p: Progress, handle: usize, attempt: u8) -> Transition {
    if attempt < PLACEMENT_ATTEMPTS {
        moved(p, Phase::Reserving { handle, attempt: (attempt + 1) as u8 })
    } else {
        moved(p, Phase::Closing { handle, cause: Error::RaceExceeded })
    }
}

/// The region of the finished allocation with its lower view at `base`.
pub open spec fn finished_region<T>(p: Progress, handle: usize, base: usize) -> Region {
    Region { base, len: (p.bytes as nat / size_of::<T>()) as usize, handle: Some(handle) }
}

/// Giving up with the backing object still open: it is closed first.
pub open spec fn abandoning(p: Progress, handle: usize, e: SystemError) -> Transition {
    moved(p, Phase::Closing { handle, cause: Error::System(e) })
}

/// What a construction does when the operation it waits for has ended with
/// `outcome`, where `tick` is the reading of the clock for the case that a
/// name is needed.
pub open spec fn next<T>(p: Progress, outcome: Outcome, tick: Result<i64, SystemError>) -> Transition {
    match p.phase {
        Phase::Creating => match outcome {
            Outcome::Completed(handle) => moved(p, building(p, handle)),
            Outcome::Unsupported(_) => naming(p, 1, tick),
            Outcome::AlreadyExists(e) => Transition::Finished(Err(Error::System(e))),
            Outcome::Failed(e) => Transition::Finished(Err(Error::System(e))),
        },
        Phase::Naming { attempt, stamp } => match outcome {
            Outcome::Completed(handle) => moved(p, Phase::Unlinking { handle, stamp }),
            Outcome::AlreadyExists(_) => if attempt < NAME_ATTEMPTS {
                naming(p, (attempt + 1) as u8, tick)
            } else {
                Transition::Finished(Err(Error::NameCollision))
            },
            Outcome::Unsupported(e) => Transition::Finished(Err(Error::System(e))),
            Outcome::Failed(e) => Transition::Finished(Err(Error::System(e))),
        },
        Phase::Unlinking { handle, stamp } => match outcome.fault() {
            None => moved(p, building(p, handle)),
            Some(e) => abandoning(p, handle, e),
        },
        Phase::Resizing { handle } => match outcome.fault() {
            None => moved(p, Phase::Mapping { handle }),
            Some(e) => abandoning(p, handle, e),
        },
        Phase::Mapping { handle } => match outcome {
            Outcome::Completed(base) => moved(p, Phase::Overlaying { handle, base }),
            Outcome::AlreadyExists(e) => abandoning(p, handle, e),
            Outcome::Unsupported(e) => abandoning(p, handle, e),
            Outcome::Failed(e) => abandoning(p, handle, e),
        },
        Phase::Overlaying { handle, base } => match outcome.fault() {
            None => Transition::Finished(Ok(finished_region::<T>(p, handle, base))),
            Some(e) => moved(
                p,
                Phase::Unmapping {
                    handle,
                    span: Span { address: base, bytes: (2 * p.bytes) as usize },
                    cause: Error::System(e),
                },
            ),
        },
        Phase::Reserving { handle, attempt } => match outcome {
            Outcome::Completed(address) => moved(
                p,
                Phase::PlacingLower { handle, attempt, address },
            ),
            Outcome::AlreadyExists(e) => abandoning(p, handle, e),
            Outcome::Unsupported(e) => abandoning(p, handle, e),
            Outcome::Failed(e) => abandoning(p, handle, e),
        },
        Phase::PlacingLower { handle, attempt, address } => match outcome.fault() {
            None => moved(p, Phase::PlacingUpper { handle, attempt, address }),
            Some(_) => replacing(p, handle, attempt),
        },
        Phase::PlacingUpper { handle, attempt, address } => match outcome.fault() {
            None => Transition::Finished(Ok(finished_region::<T>(p, handle, address))),
            Some(_) => moved(p, Phase::Retreating { handle, attempt, address }),
        },
        Phase::Retreating { handle, attempt, address } => replacing(p, handle, attempt),
        Phase::Unmapping { handle, span, cause } => moved(p, Phase::Closing { handle, cause }),
        Phase::Closing { handle, cause } => Transition::Finished(Err(cause)),
    }
}

/// A construction of an allocation of elements `T` that waits for a platform
/// operation.
pub struct Construction<T> {
    progress: Progress,
    marker: PhantomData<T>,
}

impl<T> View for Construction<T> {
    type V = Progress;

    closed spec fn view(&self) -> Progress {
        self.progress
    }
}

/// A construction that goes on, or the end of one.
pub enum Step<T> {
    /// The construction waits for its operation.
    Continue(Construction<T>),
    /// The construction has ended.
    Finished(Result<MirroredAllocation<T>, Error>),
}

impl<T> View for Step<T> {
    type V = Transition;

    open spec fn view(&self) -> Transition {
        match self {
            Step::Continue(c) => Transition::Continue(c@),
            Step::Finished(Ok(a)) => Transition::Finished(Ok(a@)),
            Step::Finished(Err(e)) => Transition::Finished(Err(*e)),
        }
    }
}

/// A view of normalized size holds at least the elements asked for, and no
/// part of an element.
pub proof fn lemma_view_length(bytes: nat, count: nat, elem_size: nat, granularity: nat)
    requires
        covers(bytes, count, elem_size, granularity),
    ensures
        bytes / elem_size >= count,
        (bytes / elem_size) * elem_size == bytes,
{
    lemma_divides_quotient(elem_size, bytes);
    let len = bytes / elem_size;
    assert(len >= count && len * elem_size == bytes) by (nonlinear_arith)
        requires
            bytes == elem_size * len,
            bytes >= count * elem_size,
            elem_size > 0,
    ;
}

impl<T> Construction<T> {
    #[verifier::type_invariant]
    spec fn inv(self) -> bool {
        valid_progress::<T>(self@)
    }

    /// Starts the construction of an allocation of `count` elements on a
    /// platform that maps in multiples of `granularity` bytes and places
    /// views by `method`.
    ///
    /// For no elements the construction ends at once with the empty
    /// allocation. It ends at once in overflow when no size that covers the
    /// request fits twice into the address space. Otherwise it waits for the
    /// backing object to be created.
    pub fn begin(method: Method, count: usize, granularity: usize) -> (step: Step<T>)
        requires
            count > 0 ==> size_of::<T>() > 0 && granularity > 0,
        ensures
            count == 0 ==> step@ == Transition::Finished(Ok(empty_region())),
            count > 0 ==> match step@ {
                Transition::Continue(p) => {
                    &&& valid_progress::<T>(p)
                    &&& p.method == method
                    &&& p.count == count
                    &&& p.granularity == granularity
                    &&& p.phase == Phase::Creating
                },
                Transition::Finished(r) => {
                    &&& r == Err::<Region, Error>(Error::Overflow)
                    &&& forall|m: nat| #[trigger]
                        covers(m, count as nat, size_of::<T>(), granularity as nat) ==> 2 * m
                            > usize::MAX
                },
            },
    {
        if count == 0 {
            return Step::Finished(Ok(MirroredAllocation::empty()));
        }
        layout_for_type_is_valid::<T>();
        match normalized_size(count, core::mem::size_of::<T>(), granularity) {
            Ok(bytes) => Step::Continue(
                Construction {
                    progress: Progress { method, count, granularity, bytes, phase: Phase::Creating },
                    marker: PhantomData,
                },
            ),
            Err(_) => Step::Finished(Err(Error::Overflow)),
        }
    }

    /// The state of the construction.
    pub fn progress(&self) -> (p: Progress)
        ensures
            p == self@,
            valid_progress::<T>(p),
    {
        proof {
            use_type_invariant(self);
        }
        self.progress
    }

    /// The operation that the construction waits for.
    pub fn action(&self) -> (a: Action)
        ensures
            a == pending(self@),
            valid_progress::<T>(self@),
    {
        proof {
            use_type_invariant(self);
        }
        let p: Progress = self.progress;
        match p.phase {
            Phase::Creating => Action::Create { bytes: 2 * p.bytes },
            Phase::Naming { attempt, stamp } => Action::CreateNamed { stamp },
            Phase::Unlinking { handle, stamp } => Action::Unlink { stamp },
            Phase::Resizing { handle } => Action::Resize { handle, bytes: 2 * p.bytes },
            Phase::Mapping { handle } => Action::MapAnywhere { handle, bytes: 2 * p.bytes },
            Phase::Overlaying { handle, base } => Action::MapAt {
                handle,
                address: base + p.bytes,
                bytes: p.bytes,
            },
            Phase::Reserving { handle, attempt } => Action::Reserve { bytes: 2 * p.bytes },
            Phase::PlacingLower { handle, attempt, address } => Action::MapAt {
                handle,
                address,
                bytes: p.bytes,
            },
            Phase::PlacingUpper { handle, attempt, address } => Action::MapAt {
                handle,
                address: address + p.bytes,
                bytes: p.bytes,
            },
            Phase::Retreating { handle, attempt, address } => Action::Unmap {
                address,
                bytes: p.bytes,
            },
            Phase::Unmapping { handle, span, cause } => Action::Unmap {
                address: span.address,
                bytes: span.bytes,
            },
            Phase::Closing { handle, cause } => Action::Close { handle },
        }
    }

    /// Whether the construction can take in `outcome` for the operation it
    /// waits for.
    pub fn accepts(&self, outcome: Outcome) -> (b: bool)
        ensures
            b == admits::<T>(self@, outcome),
    {
        proof {
            use_type_invariant(self);
        }
        let p: Progress = self.progress;
        let asked: bool = match p.phase {
            Phase::Mapping { handle } => true,
            Phase::Reserving { handle, attempt } => true,
            _ => false,
        };
        match outcome {
            Outcome::Completed(address) => {
                if asked {
                    address != 0 && address % core::mem::align_of::<T>() == 0 && address
                        <= usize::MAX - 2 * p.bytes
                } else {
                    true
                }
            },
            _ => true,
        }
    }

    /// Whether the construction reads the clock when it takes in `outcome`.
    pub fn reads_clock(&self, outcome: Outcome) -> (b: bool)
        ensures
            b == wants_name(self@, outcome),
    {
        match (self.progress.phase, outcome) {
            (Phase::Creating, Outcome::Unsupported(_)) => true,
            (Phase::Naming { attempt, stamp }, Outcome::AlreadyExists(_)) => attempt
                < NAME_ATTEMPTS,
            _ => false,
        }
    }

    /// The construction in another phase.
    fn proceed(p: Progress, phase: Phase) -> (step: Step<T>)
        requires
            valid_progress::<T>(Progress { phase, ..p }),
        ensures
            step@ == moved(p, phase),
    {
        Step::Continue(
            Construction {
                progress: Progress {
                    method: p.method,
                    count: p.count,
                    granularity: p.granularity,
                    bytes: p.bytes,
                    phase,
                },
                marker: PhantomData,
            },
        )
    }

    /// The first phase with the backing object in hand.
    fn build(p: Progress, handle: usize) -> (step: Step<T>)
        requires
            valid_progress::<T>(p),
        ensures
            step@ == moved(p, building(p, handle)),
    {
        match p.method {
            Method::Remap => Self::proceed(p, Phase::Resizing { handle }),
            Method::Reserve => Self::proceed(p, Phase::Reserving { handle, attempt: 1 }),
        }
    }

    /// Tries the name that the clock gives.
    fn name(p: Progress, attempt: u8, tick: Result<i64, SystemError>) -> (step: Step<T>)
        requires
            valid_progress::<T>(p),
            counted(attempt, NAME_ATTEMPTS),
        ensures
            step@ == naming(p, attempt, tick),
    {
        match tick {
            Ok(nanos) => Self::proceed(p, Phase::Naming { attempt, stamp: stamp_of(nanos) }),
            Err(e) => Step::Finished(Err(Error::System(e))),
        }
    }

    /// Another attempt at placing the views, or the end of the attempts.
    fn replace(p: Progress, handle: usize, attempt: u8) -> (step: Step<T>)
        requires
            valid_progress::<T>(p),
            p.method == Method::Reserve,
            counted(attempt, PLACEMENT_ATTEMPTS),
        ensures
            step@ == replacing(p, handle, attempt),
    {
        if attempt < PLACEMENT_ATTEMPTS {
            Self::proceed(p, Phase::Reserving { handle, attempt: attempt + 1 })
        } else {
            Self::proceed(p, Phase::Closing { handle, cause: Error::RaceExceeded })
        }
    }

    /// Gives up with the backing object still open.
    fn abandon(p: Progress, handle: usize, e: SystemError) -> (step: Step<T>)
        requires
            valid_progress::<T>(p),
        ensures
            step@ == abandoning(p, handle, e),
    {
        Self::proceed(p, Phase::Closing { handle, cause: Error::System(e) })
    }

    /// Ends the construction with the allocation whose lower view is at
    /// `base`.
    fn finish(p: Progress, handle: usize, base: usize) -> (step: Step<T>)
        requires
            valid_progress::<T>(p),
            placeable::<T>(p, base),
        ensures
            step@ == Transition::Finished(Ok(finished_region::<T>(p, handle, base))),
    {
        proof {
            lemma_view_length(
                p.bytes as nat,
                p.count as nat,
                size_of::<T>(),
                p.granularity as nat,
            );
        }
        let len: usize = p.bytes / core::mem::size_of::<T>();
        Step::Finished(
            Ok(MirroredAllocation::assemble(Region { base, len, handle: Some(handle) })),
        )
    }

    /// Takes in how the awaited operation ended, with `tick` as the reading
    /// of the clock: the nanoseconds within the current second, or the
    /// failure of the clock. The reading matters only where a name is needed.
    pub fn advance_at(self, outcome: Outcome, tick: Result<i64, SystemError>) -> (step: Step<T>)
        requires
            admits::<T>(self@, outcome),
        ensures
            step@ == next::<T>(self@, outcome, tick),
    {
        proof {
            use_type_invariant(&self);
        }
        let p: Progress = self.progress;
        match p.phase {
            Phase::Creating => match outcome {
                Outcome::Completed(handle) => Self::build(p, handle),
                Outcome::Unsupported(_) => Self::name(p, 1, tick),
                Outcome::AlreadyExists(e) => Step::Finished(Err(Error::System(e))),
                Outcome::Failed(e) => Step::Finished(Err(Error::System(e))),
            },
            Phase::Naming { attempt, stamp } => match outcome {
                Outcome::Completed(handle) => Self::proceed(p, Phase::Unlinking { handle, stamp }),
                Outcome::AlreadyExists(_) => {
                    if attempt < NAME_ATTEMPTS {
                        Self::name(p, attempt + 1, tick)
                    } else {
                        Step::Finished(Err(Error::NameCollision))
                    }
                },
                Outcome::Unsupported(e) => Step::Finished(Err(Error::System(e))),
                Outcome::Failed(e) => Step::Finished(Err(Error::System(e))),
            },
            Phase::Unlinking { handle, stamp } => match outcome.error() {
                None => Self::build(p, handle),
                Some(e) => Self::abandon(p, handle, e),
            },
            Phase::Resizing { handle } => match outcome.error() {
                None => Self::proceed(p, Phase::Mapping { handle }),
                Some(e) => Self::abandon(p, handle, e),
            },
            Phase::Mapping { handle } => match outcome {
                Outcome::Completed(base) => Self::proceed(p, Phase::Overlaying { handle, base }),
                Outcome::AlreadyExists(e) => Self::abandon(p, handle, e),
                Outcome::Unsupported(e) => Self::abandon(p, handle, e),
                Outcome::Failed(e) => Self::abandon(p, handle, e),
            },
            Phase::Overlaying { handle, base } => match outcome.error() {
                None => Self::finish(p, handle, base),
                Some(e) => Self::proceed(
                    p,
                    Phase::Unmapping {
                        handle,
                        span: Span { address: base, bytes: 2 * p.bytes },
                        cause: Error::System(e),
                    },
                ),
            },
            Phase::Reserving { handle, attempt } => match outcome {
                Outcome::Completed(address) => Self::proceed(
                    p,
                    Phase::PlacingLower { handle, attempt, address },
                ),
                Outcome::AlreadyExists(e) => Self::abandon(p, handle, e),
                Outcome::Unsupported(e) => Self::abandon(p, handle, e),
                Outcome::Failed(e) => Self::abandon(p, handle, e),
            },
            Phase::PlacingLower { handle, attempt, address } => match outcome.error() {
                None => Self::proceed(p, Phase::PlacingUpper { handle, attempt, address }),
                Some(_) => Self::replace(p, handle, attempt),
            },
            Phase::PlacingUpper { handle, attempt, address } => match outcome.error() {
                None => Self::finish(p, handle, address),
                Some(_) => Self::proceed(p, Phase::Retreating { handle, attempt, address }),
            },
            Phase::Retreating { handle, attempt, address } => Self::replace(p, handle, attempt),
            Phase::Unmapping { handle, span, cause } => Self::proceed(
                p,
                Phase::Closing { handle, cause },
            ),
            Phase::Closing { handle, cause } => Step::Finished(Err(cause)),
        }
    }

    /// Takes in how the awaited operation ended, and reads the clock where a
    /// name is needed.
    pub fn advance(self, outcome: Outcome) -> (step: Step<T>)
        requires
            admits::<T>(self@, outcome),
        ensures
            exists|tick: Result<i64, SystemError>| step@ == #[trigger] next::<T>(
                self@,
                outcome,
                tick,
            ),
            !wants_name(self@, outcome) ==> step@ == next::<T>(
                self@,
                outcome,
                Ok::<i64, SystemError>(0),
            ),
    {
        if self.reads_clock(outcome) {
            let tick: Result<i64, SystemError> = realtime_nanos();
            self.advance_at(outcome, tick)
        } else {
            self.advance_at(outcome, Ok(0))
        }
    }
}

} // verus!
