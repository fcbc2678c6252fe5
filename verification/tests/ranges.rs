use multiverse_random::{random_diagnostic, resolve, Bound, Error, Interval};

#[test]
#[should_panic]
fn panics_on_empty_range() {
    random_diagnostic(Bound::Included(0), Bound::Excluded(0)).unwrap();
}

#[test]
#[should_panic]
fn panics_on_inverted_range() {
    random_diagnostic(Bound::Included(1), Bound::Excluded(0)).unwrap();
}

#[test]
fn succeeds_on_nearly_empty_range() {
    assert_eq!(random_diagnostic(Bound::Included(0), Bound::Included(0)), Ok(0));
}

#[test]
fn succeeds_on_unbounded_start() {
    assert_eq!(random_diagnostic(Bound::Unbounded, Bound::Included(0)), Ok(0));
}

#[test]
#[should_panic]
fn panics_on_unbounded_end() {
    random_diagnostic(Bound::Included(0), Bound::Unbounded).unwrap();
}

#[test]
fn empty_range_is_refused() {
    assert_eq!(
        random_diagnostic(Bound::Included(0), Bound::Excluded(0)),
        Err(Error::EmptyRange)
    );
    assert_eq!(resolve(Bound::Included(0u8), Bound::Excluded(0u8)).err(), Some(Error::EmptyRange));
}

#[test]
fn inverted_range_is_refused() {
    assert_eq!(
        random_diagnostic(Bound::Included(1), Bound::Excluded(0)),
        Err(Error::EmptyRange)
    );
    assert_eq!(
        random_diagnostic(Bound::Included(7i64), Bound::Included(-7i64)),
        Err(Error::EmptyRange)
    );
    assert_eq!(
        random_diagnostic(Bound::Excluded(3u16), Bound::Included(3u16)),
        Err(Error::EmptyRange)
    );
}

#[test]
fn range_without_end_is_refused() {
    assert_eq!(
        random_diagnostic(Bound::Included(0), Bound::Unbounded),
        Err(Error::NoUpperBound)
    );
    assert_eq!(
        random_diagnostic(Bound::Excluded(5u8), Bound::Unbounded),
        Err(Error::NoUpperBound)
    );
    assert_eq!(
        random_diagnostic::<i32>(Bound::Unbounded, Bound::Unbounded),
        Err(Error::NoUpperBound)
    );
}

#[test]
fn range_without_end_is_refused_before_its_start_is_read() {
    assert_eq!(
        random_diagnostic(Bound::Excluded(u8::MAX), Bound::Unbounded),
        Err(Error::NoUpperBound)
    );
}

#[test]
fn closed_range_keeps_both_ends() {
    let interval: Interval<i32> = resolve(Bound::Included(-2), Bound::Included(-1)).unwrap();
    assert_eq!(interval.start(), -2);
    assert_eq!(interval.end(), -1);
    assert_eq!(interval.len(), 2);
}

#[test]
fn half_open_range_ends_one_before() {
    let open: Interval<u32> = resolve(Bound::Included(5), Bound::Excluded(15)).unwrap();
    let closed: Interval<u32> = resolve(Bound::Included(5), Bound::Included(14)).unwrap();
    assert_eq!(open.start(), closed.start());
    assert_eq!(open.end(), closed.end());
    assert_eq!(open.end(), 14);
    assert_eq!(open.len(), 10);
}

#[test]
fn excluded_start_begins_one_after() {
    let after: Interval<i16> = resolve(Bound::Excluded(-4), Bound::Included(9)).unwrap();
    let from: Interval<i16> = resolve(Bound::Included(-3), Bound::Included(9)).unwrap();
    assert_eq!(after.start(), from.start());
    assert_eq!(after.end(), from.end());
    assert_eq!(after.start(), -3);
}

#[test]
fn unbounded_start_begins_at_zero() {
    let interval: Interval<usize> = resolve(Bound::Unbounded, Bound::Excluded(10)).unwrap();
    assert_eq!(interval.start(), 0);
    assert_eq!(interval.end(), 9);
    let signed: Interval<i8> = resolve(Bound::Unbounded, Bound::Included(3)).unwrap();
    assert_eq!(signed.start(), 0);
}

#[test]
fn unbounded_start_above_a_negative_end_is_empty() {
    assert_eq!(
        resolve(Bound::Unbounded, Bound::Included(-1i32)).err(),
        Some(Error::EmptyRange)
    );
    assert_eq!(resolve(Bound::Unbounded, Bound::Excluded(0u64)).err(), Some(Error::EmptyRange));
}

#[test]
fn start_excluded_at_the_greatest_value_is_empty() {
    assert_eq!(
        resolve(Bound::Excluded(u8::MAX), Bound::Included(u8::MAX)).err(),
        Some(Error::EmptyRange)
    );
    assert_eq!(
        resolve(Bound::Excluded(i128::MAX), Bound::Included(5i128)).err(),
        Some(Error::EmptyRange)
    );
}

#[test]
fn end_excluded_at_the_least_value_is_empty() {
    assert_eq!(
        resolve(Bound::Included(i16::MIN), Bound::Excluded(i16::MIN)).err(),
        Some(Error::EmptyRange)
    );
    assert_eq!(resolve(Bound::Unbounded, Bound::Excluded(0usize)).err(), Some(Error::EmptyRange));
}

#[test]
fn whole_type_fits_where_the_platform_has_an_index_for_each_value() {
    let bytes: Interval<u8> = resolve(Bound::Included(u8::MIN), Bound::Included(u8::MAX)).unwrap();
    assert_eq!(bytes.len(), 256);
    let shorts: Interval<i16> =
        resolve(Bound::Included(i16::MIN), Bound::Included(i16::MAX)).unwrap();
    assert_eq!(shorts.len(), 65536);
    assert_eq!(shorts.diagnostic(), 0);
    let small: Interval<i8> = resolve(Bound::Included(i8::MIN), Bound::Included(i8::MAX)).unwrap();
    assert_eq!(small.len(), 256);
    let words = resolve(Bound::Included(u32::MIN), Bound::Included(u32::MAX));
    let signed_words = resolve(Bound::Included(i32::MIN), Bound::Included(i32::MAX));
    if usize::BITS > 32 {
        assert_eq!(words.unwrap().len(), 4294967296);
        assert_eq!(signed_words.unwrap().len(), 4294967296);
    } else {
        assert_eq!(words.err(), Some(Error::RangeTooLarge));
        assert_eq!(signed_words.err(), Some(Error::RangeTooLarge));
    }
}

#[test]
fn whole_type_is_too_large_where_it_has_more_values_than_indices() {
    assert_eq!(
        resolve(Bound::Included(u64::MIN), Bound::Included(u64::MAX)).err(),
        Some(Error::RangeTooLarge)
    );
    assert_eq!(
        resolve(Bound::Included(i64::MIN), Bound::Included(i64::MAX)).err(),
        Some(Error::RangeTooLarge)
    );
    assert_eq!(
        resolve(Bound::Included(u128::MIN), Bound::Included(u128::MAX)).err(),
        Some(Error::RangeTooLarge)
    );
    assert_eq!(
        resolve(Bound::Included(i128::MIN), Bound::Included(i128::MAX)).err(),
        Some(Error::RangeTooLarge)
    );
    assert_eq!(
        resolve(Bound::Included(usize::MIN), Bound::Included(usize::MAX)).err(),
        Some(Error::RangeTooLarge)
    );
    assert_eq!(
        resolve(Bound::Included(isize::MIN), Bound::Included(isize::MAX)).err(),
        Some(Error::RangeTooLarge)
    );
}

#[test]
fn range_of_exactly_the_greatest_index_fits() {
    let limit: usize = isize::MAX as usize;
    let fits: Interval<usize> = resolve(Bound::Included(1), Bound::Included(limit)).unwrap();
    assert_eq!(fits.len(), limit);
    assert_eq!(
        resolve(Bound::Included(0usize), Bound::Included(limit)).err(),
        Some(Error::RangeTooLarge)
    );
    assert_eq!(
        resolve(Bound::Included(-1isize), Bound::Excluded(isize::MAX)).err(),
        Some(Error::RangeTooLarge)
    );
    let signed: Interval<isize> =
        resolve(Bound::Included(0), Bound::Excluded(isize::MAX)).unwrap();
    assert_eq!(signed.len(), limit);
}

#[test]
fn interval_is_made_from_its_two_ends() {
    let interval: Interval<u8> = Interval::new(3, 7).unwrap();
    assert_eq!(interval.start(), 3);
    assert_eq!(interval.end(), 7);
    assert_eq!(interval.len(), 5);
    assert_eq!(Interval::new(7u8, 3u8).err(), Some(Error::EmptyRange));
    assert_eq!(Interval::new(i64::MIN, 0i64).err(), Some(Error::RangeTooLarge));
}
