//! What the library asks of the operating system itself: the mapping
//! granularity and the clock.

use crate::error::SystemError;
use vstd::prelude::*;

verus! {

/// The page size as `nix::unistd::sysconf` reports it for
/// `SysconfVar::PAGE_SIZE`.
///
/// Trusted, with nothing claimed of the value: `None` stands for a failed
/// query and for a variable without a value.
#[verifier::external_body]
fn page_size() -> (answer: Option<i64>) {
    match nix::unistd::sysconf(nix::unistd::SysconfVar::PAGE_SIZE) {
        Ok(Some(value)) => Some(value as i64),
        Ok(None) => None,
        Err(_) => None,
    }
}

/// The nanoseconds within the current second, as
/// `nix::time::clock_gettime` reports them for `ClockId::CLOCK_REALTIME`.
///
/// Trusted, with nothing claimed of the value: a failed call gives the
/// platform's error code.
#[verifier::external_body]
pub(crate) fn realtime_nanos() -> (tick: Result<i64, SystemError>) {
    match nix::time::clock_gettime(nix::time::ClockId::CLOCK_REALTIME) {
        Ok(time) => Ok(time.tv_nsec() as i64),
        Err(errno) => Err(SystemError { code: errno as i32 }),
    }
}

/// The granularity that a reported page size stands for: the page size
/// itself where it is positive and fits a `usize`.
pub open spec fn granularity_from(answer: Option<i64>) -> Option<usize> {
    match answer {
        Some(value) => if 0 < value <= usize::MAX {
            Some(value as usize)
        } else {
            None
        },
        None => None,
    }
}

/// Reads a reported page size as a granularity.
pub fn granularity_of(answer: Option<i64>) -> (g: Option<usize>)
    ensures
        g == granularity_from(answer),
        g matches Some(value) ==> value > 0,
{
    match answer {
        Some(value) => {
            if value > 0 {
                match usize::try_from(value) {
                    Ok(granularity) => Some(granularity),
                    Err(_) => None,
                }
            } else {
                None
            }
        },
        None => None,
    }
}

/// The platform's mapping granularity in bytes: every mapping starts and
/// ends on a multiple of it. `None` when the platform does not report a
/// positive page size.
pub fn allocation_granularity() -> (g: Option<usize>)
    ensures
        g matches Some(value) ==> value > 0,
{
    granularity_of(page_size())
}

} // verus!
