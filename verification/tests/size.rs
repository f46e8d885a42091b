use mirrored_alloc::error::Error;
use mirrored_alloc::multiples::{blocks_for, checked_lcm};
use mirrored_alloc::size::{normalized_size, size_words};
use mirrored_alloc::system::{allocation_granularity, granularity_of};

#[test]
fn no_elements_need_no_bytes() {
    assert_eq!(normalized_size(0, 1, 4096), Ok(0));
    assert_eq!(normalized_size(0, 0, 0), Ok(0));
    assert_eq!(normalized_size(0, 24, 65536), Ok(0));
}

#[test]
fn bytes_round_up_to_the_granularity() {
    assert_eq!(normalized_size(100, 1, 4096), Ok(4096));
    assert_eq!(normalized_size(4000, 1, 4096), Ok(4096));
    assert_eq!(normalized_size(4096, 1, 4096), Ok(4096));
    assert_eq!(normalized_size(4100, 1, 4096), Ok(8192));
    assert_eq!(normalized_size(65000, 1, 4096), Ok(65536));
    assert_eq!(normalized_size(65536, 1, 4096), Ok(65536));
    assert_eq!(normalized_size(66000, 1, 4096), Ok(69632));
    assert_eq!(normalized_size(1000000, 1, 4096), Ok(1003520));
    assert_eq!(normalized_size(1, 1, 65536), Ok(65536));
}

#[test]
fn elements_round_up_to_whole_units() {
    // 4100 elements of 4 bytes are 16400 bytes, which take five pages.
    assert_eq!(normalized_size(4100, 4, 4096), Ok(20480));
    // A unit of 3-byte elements and 4096-byte pages is 12288 bytes.
    assert_eq!(normalized_size(1, 3, 4096), Ok(12288));
    assert_eq!(normalized_size(4096, 3, 4096), Ok(12288));
    assert_eq!(normalized_size(4097, 3, 4096), Ok(24576));
    // An element larger than a page that is a multiple of it.
    assert_eq!(normalized_size(3, 8192, 4096), Ok(24576));
    // An element that shares a factor with the page: the unit is 3 pages.
    assert_eq!(normalized_size(1, 6144, 4096), Ok(12288));
    assert_eq!(normalized_size(3, 6144, 4096), Ok(24576));
}

#[test]
fn normalized_size_is_whole_in_elements_and_granules() {
    for &(count, elem, granule) in
        &[(4100usize, 4usize, 4096usize), (7, 24, 4096), (1000, 12, 65536), (5, 7, 16384)]
    {
        let bytes = normalized_size(count, elem, granule).unwrap();
        assert_eq!(bytes % elem, 0);
        assert_eq!(bytes % granule, 0);
        assert!(bytes >= count * elem);
        let unit = checked_lcm(elem, granule).unwrap();
        assert_eq!(bytes % unit, 0);
        assert!(bytes - unit < count * elem);
        assert_eq!((bytes / elem) % (unit / elem), 0);
    }
}

#[test]
fn sizes_that_do_not_fit_overflow() {
    assert_eq!(normalized_size(usize::MAX, 1, 4096), Err(Error::Overflow));
    assert_eq!(normalized_size(usize::MAX, 2, 4096), Err(Error::Overflow));
    assert_eq!(normalized_size(usize::MAX / 2, 4, 4096), Err(Error::Overflow));
    // The view fits, both views do not.
    assert_eq!(normalized_size(usize::MAX / 2 + 1, 1, 4096), Err(Error::Overflow));
    assert_eq!(normalized_size(usize::MAX / 2 - 4094, 1, 4096), Err(Error::Overflow));
    // The unit itself does not fit.
    assert_eq!(normalized_size(1, usize::MAX, 4096), Err(Error::Overflow));
    // The largest view that fits twice.
    let largest = (usize::MAX / 2 + 1) - 4096;
    assert_eq!(normalized_size(largest, 1, 4096), Ok(largest));
    assert_eq!(normalized_size(largest - 1, 1, 4096), Ok(largest));
    assert_eq!(normalized_size(largest + 1, 1, 4096), Err(Error::Overflow));
}

#[test]
fn least_common_multiples() {
    assert_eq!(checked_lcm(7, 3), Some(21));
    assert_eq!(checked_lcm(2, 4), Some(4));
    assert_eq!(checked_lcm(4096, 6), Some(12288));
    assert_eq!(checked_lcm(4096, 4096), Some(4096));
    assert_eq!(checked_lcm(1, 1), Some(1));
    assert_eq!(checked_lcm(usize::MAX, 1), Some(usize::MAX));
    assert_eq!(checked_lcm(usize::MAX, usize::MAX), Some(usize::MAX));
}

#[test]
fn least_common_multiple_that_does_not_fit() {
    assert_eq!(checked_lcm(usize::MAX, usize::MAX - 1), None);
    assert_eq!(checked_lcm(usize::MAX, 2), None);
    assert_eq!(checked_lcm(usize::MAX / 2 + 1, 3), None);
}

#[test]
fn blocks_round_up() {
    assert_eq!(blocks_for(0, 4096), 0);
    assert_eq!(blocks_for(1, 4096), 1);
    assert_eq!(blocks_for(100, 4096), 1);
    assert_eq!(blocks_for(4096, 4096), 1);
    assert_eq!(blocks_for(4097, 4096), 2);
    assert_eq!(blocks_for(8192, 4096), 2);
    assert_eq!(blocks_for(8193, 4096), 3);
    assert_eq!(blocks_for(7, 1), 7);
    assert_eq!(blocks_for(usize::MAX, 1), usize::MAX);
    assert_eq!(blocks_for(usize::MAX, 2), usize::MAX / 2 + 1);
    assert_eq!(blocks_for(usize::MAX, usize::MAX), 1);
}

#[test]
fn sizes_split_into_words() {
    assert_eq!(size_words(0), (0, 0));
    assert_eq!(size_words(8192), (0, 8192));
    assert_eq!(size_words(0xffff_ffff), (0, 0xffff_ffff));
    assert_eq!(size_words(0x1_0000_0000), (1, 0));
    assert_eq!(size_words(0x12_3456_789a), (0x12, 0x3456_789a));
    assert_eq!(size_words(u64::MAX), (0xffff_ffff, 0xffff_ffff));
}

#[test]
fn granularity_is_a_positive_page_size() {
    assert_eq!(granularity_of(Some(4096)), Some(4096));
    assert_eq!(granularity_of(Some(65536)), Some(65536));
    assert_eq!(granularity_of(Some(1)), Some(1));
    assert_eq!(granularity_of(Some(0)), None);
    assert_eq!(granularity_of(Some(-1)), None);
    assert_eq!(granularity_of(Some(i64::MIN)), None);
    assert_eq!(granularity_of(None), None);
}

#[test]
fn platform_reports_a_granularity() {
    let granularity = allocation_granularity().unwrap();
    assert!(granularity >= 512);
    assert!(granularity.is_power_of_two());
    assert_eq!(allocation_granularity(), Some(granularity));
}
