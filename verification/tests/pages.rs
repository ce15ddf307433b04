use ink_allocator::bump::place;
use ink_allocator::pages::{
    base_of_growth, required_pages, PageSource, SimulatedPages, GROWTH_FAILED, PAGE_SIZE,
};

#[test]
fn page_size_is_64_kib() {
    assert_eq!(PAGE_SIZE, 64 * 1024);
}

#[test]
fn required_pages_rounds_up_to_whole_pages() {
    assert_eq!(required_pages(0), Some(0));
    assert_eq!(required_pages(1), Some(1));
    assert_eq!(required_pages(65535), Some(1));
    assert_eq!(required_pages(65536), Some(1));
    assert_eq!(required_pages(65537), Some(2));
    assert_eq!(required_pages(2 * 65536), Some(2));
    assert_eq!(required_pages(2 * 65536 + 1), Some(3));
}

#[test]
fn required_pages_is_the_least_number_of_pages_that_hold_the_size() {
    for size in [1usize, 2, 100, 65535, 65536, 65537, 1 << 20, (1 << 20) + 1, 123_456_789] {
        let pages = required_pages(size).unwrap();
        assert!(pages * PAGE_SIZE >= size);
        assert!((pages - 1) * PAGE_SIZE < size);
    }
}

#[test]
fn required_pages_fails_when_the_rounding_slack_overflows() {
    assert_eq!(required_pages(usize::MAX), None);
    assert_eq!(required_pages(usize::MAX - 65534), None);
    assert_eq!(required_pages(usize::MAX - 65535), Some(usize::MAX / 65536));
}

#[test]
fn place_puts_the_bytes_at_the_base_of_the_pages() {
    assert_eq!(place(0, 1, 1), Some((1, 65536)));
    assert_eq!(place(65536, 1, 2), Some((65538, 131072)));
    assert_eq!(place(131072, 3, 131073), Some((262145, 327680)));
    assert_eq!(place(0, 0, 0), Some((0, 0)));
}

#[test]
fn place_fails_when_the_pages_end_beyond_the_address_space() {
    assert_eq!(place(usize::MAX - 65536, 1, 1), Some((usize::MAX - 65535, usize::MAX)));
    assert_eq!(place(usize::MAX - 65535, 1, 1), None);
    assert_eq!(place(usize::MAX, 1, 0), None);
    assert_eq!(place(0, usize::MAX, 0), None);
}

#[test]
fn place_fails_when_the_bytes_end_beyond_the_address_space() {
    assert_eq!(place(usize::MAX - 65536, 1, 65536), Some((usize::MAX, usize::MAX)));
    assert_eq!(place(usize::MAX - 65536, 1, 65537), None);
}

#[test]
fn simulated_pages_grow_from_zero_without_gaps() {
    let mut pages = SimulatedPages::new();
    assert_eq!(pages.high_water, 0);
    assert_eq!(pages.request_pages(1), Some(0));
    assert_eq!(pages.high_water, 65536);
    assert_eq!(pages.request_pages(2), Some(65536));
    assert_eq!(pages.high_water, 3 * 65536);
    assert_eq!(pages.request_pages(1), Some(3 * 65536));
    assert_eq!(pages.high_water, 4 * 65536);
}

#[test]
fn simulated_pages_refuse_a_run_that_ends_beyond_the_address_space() {
    let mut pages = SimulatedPages { high_water: usize::MAX - 65536 };
    assert_eq!(pages.request_pages(2), None);
    assert_eq!(pages.high_water, usize::MAX - 65536);
    assert_eq!(pages.request_pages(1), Some(usize::MAX - 65536));
    assert_eq!(pages.high_water, usize::MAX);
    assert_eq!(pages.request_pages(1), None);
    assert_eq!(pages.high_water, usize::MAX);
    assert_eq!(SimulatedPages::new().request_pages(usize::MAX), None);
}

#[test]
fn growth_of_the_host_memory_starts_where_it_ended() {
    assert_eq!(GROWTH_FAILED, usize::MAX);
    assert_eq!(base_of_growth(0), Some(0));
    assert_eq!(base_of_growth(1), Some(65536));
    assert_eq!(base_of_growth(17), Some(17 * 65536));
    assert_eq!(base_of_growth(usize::MAX / 65536), Some(usize::MAX - 65535));
}

#[test]
fn failed_growth_of_the_host_memory_grants_nothing() {
    assert_eq!(base_of_growth(GROWTH_FAILED), None);
    assert_eq!(base_of_growth(usize::MAX / 65536 + 1), None);
    assert_eq!(base_of_growth(usize::MAX - 1), None);
}
