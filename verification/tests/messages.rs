use multiverse_random::Error;

#[test]
fn empty_range_is_reported_in_words() {
    assert_eq!(Error::EmptyRange.message(), "'random' called with empty range");
}

#[test]
fn missing_end_is_reported_in_words() {
    assert_eq!(Error::NoUpperBound.message(), "'random' called with no upper bound");
}

#[test]
fn other_refusals_are_reported_in_words() {
    assert_eq!(Error::RangeTooLarge.message(), "'random' called with too many choices");
    assert_eq!(Error::UnknownSize.message(), "'random' called with choices of unknown size");
    assert_eq!(Error::NoChoices.message(), "'random' called with no choices");
}
