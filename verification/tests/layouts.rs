use ink_allocator::layout::Layout;

#[test]
fn alignment_must_be_a_power_of_two() {
    assert!(Layout::from_size_align(8, 0).is_none());
    assert!(Layout::from_size_align(8, 3).is_none());
    assert!(Layout::from_size_align(8, 6).is_none());
    assert!(Layout::from_size_align(8, 12).is_none());
    assert!(Layout::from_size_align(8, usize::MAX).is_none());
    assert!(Layout::from_size_align(8, 1).is_some());
    assert!(Layout::from_size_align(8, 2).is_some());
    assert!(Layout::from_size_align(8, 4096).is_some());
    assert!(Layout::from_size_align(8, 1 << (usize::BITS - 1)).is_some());
}

#[test]
fn every_power_of_two_is_an_alignment() {
    for shift in 0..usize::BITS {
        let align = 1usize << shift;
        let layout = Layout::from_size_align(3, align).unwrap();
        assert_eq!(layout.size(), 3);
        assert_eq!(layout.align(), align);
        if shift > 1 {
            assert!(Layout::from_size_align(3, align + 1).is_none());
            assert!(Layout::from_size_align(3, align - 1).is_none());
        }
    }
}

#[test]
fn layout_keeps_size_and_alignment() {
    let layout = Layout::from_size_align(24, 8).unwrap();
    assert_eq!(layout.size(), 24);
    assert_eq!(layout.align(), 8);
    let any_size = Layout::from_size_align(usize::MAX, 1).unwrap();
    assert_eq!(any_size.size(), usize::MAX);
    assert_eq!(any_size.align(), 1);
}

#[test]
fn layout_of_a_type() {
    let unit = Layout::new::<()>();
    assert_eq!((unit.size(), unit.align()), (0, 1));
    let byte = Layout::new::<u8>();
    assert_eq!((byte.size(), byte.align()), (1, 1));
    let word = Layout::new::<u64>();
    assert_eq!(word.size(), 8);
    assert_eq!(word.align(), std::mem::align_of::<u64>());
    let pair = Layout::new::<(u8, u32)>();
    assert_eq!(pair.size(), std::mem::size_of::<(u8, u32)>());
    assert_eq!(pair.align(), std::mem::align_of::<(u8, u32)>());
    assert_eq!(pair.padded_size(), Some(pair.size()));
}

#[test]
fn padded_size_rounds_up_to_the_alignment() {
    let padded = |size: usize, align: usize| Layout::from_size_align(size, align).unwrap().padded_size();
    assert_eq!(padded(0, 8), Some(0));
    assert_eq!(padded(1, 1), Some(1));
    assert_eq!(padded(5, 4), Some(8));
    assert_eq!(padded(8, 8), Some(8));
    assert_eq!(padded(9, 8), Some(16));
    assert_eq!(padded(1, 4096), Some(4096));
    assert_eq!(padded(65535, 2), Some(65536));
    assert_eq!(padded(30 * 1024, 8), Some(30 * 1024));
}

#[test]
fn padded_size_is_the_least_multiple_not_below_the_size() {
    for align in [1usize, 2, 4, 8, 64, 4096] {
        for size in 0..300usize {
            let padded = Layout::from_size_align(size, align).unwrap().padded_size().unwrap();
            assert_eq!(padded % align, 0);
            assert!(size <= padded && padded < size + align);
        }
    }
}

#[test]
fn padded_size_fails_beyond_the_address_space() {
    let padded = |size: usize, align: usize| Layout::from_size_align(size, align).unwrap().padded_size();
    assert_eq!(padded(usize::MAX, 1), Some(usize::MAX));
    assert_eq!(padded(usize::MAX - 1, 2), Some(usize::MAX - 1));
    assert_eq!(padded(usize::MAX, 2), None);
    assert_eq!(padded(usize::MAX - 6, 8), None);
    assert_eq!(padded(usize::MAX - 7, 8), Some(usize::MAX - 7));
    assert_eq!(padded(1, 1 << (usize::BITS - 1)), Some(1 << (usize::BITS - 1)));
    assert_eq!(padded((1 << (usize::BITS - 1)) + 1, 1 << (usize::BITS - 1)), None);
}
