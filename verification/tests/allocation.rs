use mirrored_alloc::allocation::{MirroredAllocation, Teardown};
use mirrored_alloc::construction::{Construction, Method, Step};
use mirrored_alloc::error::SystemError;
use mirrored_alloc::protocol::{Outcome, Span};

fn built(count: usize, handle: usize, base: usize) -> MirroredAllocation<u32> {
    let mut step = Construction::<u32>::begin(Method::Remap, count, 4096);
    let answers = [
        Outcome::Completed(handle),
        Outcome::Completed(0),
        Outcome::Completed(base),
        Outcome::Completed(0),
    ];
    for answer in answers {
        step = match step {
            Step::Continue(construction) => {
                assert!(construction.accepts(answer));
                construction.advance(answer)
            }
            Step::Finished(_) => panic!("the construction ended early"),
        };
    }
    match step {
        Step::Finished(Ok(allocation)) => allocation,
        _ => panic!("the construction did not end well"),
    }
}

#[test]
fn default() {
    let mirrored = MirroredAllocation::<u8>::default();
    assert!(mirrored.as_mut_ptr() == 0);
    assert!(mirrored.is_empty());
}

#[test]
fn empty_allocation_holds_nothing() {
    let mirrored = MirroredAllocation::<u64>::empty();
    assert_eq!(mirrored.as_mut_ptr(), 0);
    assert_eq!(mirrored.len(), 0);
    assert!(mirrored.is_empty());
    assert_eq!(mirrored.handle(), None);
}

#[test]
fn release_of_empty_allocation_is_a_no_op() {
    let mut mirrored = MirroredAllocation::<u8>::default();
    assert_eq!(mirrored.release(), None);
    assert_eq!(mirrored.release(), None);
    assert!(mirrored.is_empty());
}

#[test]
fn release_unmaps_both_views_then_closes() {
    let mut mirrored = built(4100, 7, 0x7000_0000);
    assert_eq!(mirrored.len(), 5120);
    assert_eq!(mirrored.as_mut_ptr(), 0x7000_0000);
    assert_eq!(mirrored.handle(), Some(7));
    assert!(!mirrored.is_empty());
    let plan = mirrored.release();
    assert_eq!(
        plan,
        Some(Teardown {
            lower: Span { address: 0x7000_0000, bytes: 20480 },
            upper: Span { address: 0x7000_0000 + 20480, bytes: 20480 },
            handle: 7,
        })
    );
    assert!(mirrored.is_empty());
    assert_eq!(mirrored.as_mut_ptr(), 0);
    assert_eq!(mirrored.handle(), None);
}

#[test]
fn second_release_frees_nothing() {
    let mut mirrored = built(1, 3, 0x1000);
    assert!(mirrored.release().is_some());
    assert_eq!(mirrored.release(), None);
    assert_eq!(mirrored.release(), None);
    assert_eq!(mirrored.len(), 0);
}

#[test]
fn verdict_is_the_first_failure() {
    let done = Outcome::Completed(0);
    let first = Outcome::Failed(SystemError::new(22));
    let second = Outcome::Failed(SystemError::new(9));
    let third = Outcome::Unsupported(SystemError::new(38));
    assert_eq!(Teardown::verdict(done, done, done), Ok(()));
    assert_eq!(Teardown::verdict(first, second, third), Err(SystemError::new(22)));
    assert_eq!(Teardown::verdict(done, second, third), Err(SystemError::new(9)));
    assert_eq!(Teardown::verdict(done, done, third), Err(SystemError::new(38)));
    assert_eq!(Teardown::verdict(first, done, done), Err(SystemError::new(22)));
}

#[test]
fn system_error_keeps_its_code() {
    let error = SystemError::new(17);
    assert_eq!(error.code(), 17);
    assert_eq!(error, SystemError { code: 17 });
    assert_eq!(Outcome::AlreadyExists(error).error(), Some(error));
    assert_eq!(Outcome::Completed(5).error(), None);
}
