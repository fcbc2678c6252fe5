use multiverse_random::{
    indices, project, random_diagnostic_in, validate_count, Branch, Error, Policy,
};

#[test]
fn middle_item_is_selected() {
    let items = ["foo", "bar", "baz"];
    assert_eq!(random_diagnostic_in(&items, Policy::Strict), Ok(Some(&"bar")));
    assert_eq!(random_diagnostic_in(&items, Policy::Permissive), Ok(Some(&"bar")));
}

#[test]
fn only_item_is_selected() {
    let items: Vec<u32> = vec![42];
    assert_eq!(random_diagnostic_in(&items, Policy::Strict), Ok(Some(&42)));
}

#[test]
fn item_before_the_middle_is_selected_among_an_even_number() {
    let items: Vec<char> = vec!['a', 'b', 'c', 'd'];
    assert_eq!(random_diagnostic_in(&items, Policy::Strict), Ok(Some(&'b')));
    let pair: Vec<char> = vec!['x', 'y'];
    assert_eq!(random_diagnostic_in(&pair, Policy::Strict), Ok(Some(&'x')));
}

#[test]
fn policy_is_strict_unless_chosen_otherwise() {
    assert_eq!(Policy::default(), Policy::Strict);
}

#[test]
fn empty_collection_is_refused() {
    let items: Vec<String> = Vec::new();
    assert_eq!(random_diagnostic_in(&items, Policy::Strict), Err(Error::NoChoices));
    assert_eq!(validate_count(Some(0), Policy::Strict), Err(Error::NoChoices));
    assert_eq!(indices(0, Policy::Strict).err(), Some(Error::NoChoices));
}

#[test]
fn empty_collection_yields_nothing_where_that_is_permitted() {
    let items: Vec<String> = Vec::new();
    assert_eq!(random_diagnostic_in(&items, Policy::Permissive), Ok(None));
    assert_eq!(validate_count(Some(0), Policy::Permissive), Ok(None));
    assert!(indices(0, Policy::Permissive).unwrap().is_none());
}

#[test]
fn collection_of_unknown_size_is_refused() {
    assert_eq!(validate_count(None, Policy::Strict), Err(Error::UnknownSize));
}

#[test]
fn collection_of_unknown_size_yields_nothing_where_that_is_permitted() {
    assert_eq!(validate_count(None, Policy::Permissive), Ok(None));
}

#[test]
fn oversized_collection_is_refused_under_either_policy() {
    let limit: usize = isize::MAX as usize;
    assert_eq!(validate_count(Some(limit + 1), Policy::Strict), Err(Error::RangeTooLarge));
    assert_eq!(validate_count(Some(limit + 1), Policy::Permissive), Err(Error::RangeTooLarge));
    assert_eq!(validate_count(Some(usize::MAX), Policy::Strict), Err(Error::RangeTooLarge));
    assert_eq!(indices(usize::MAX, Policy::Permissive).err(), Some(Error::RangeTooLarge));
    assert_eq!(indices(limit + 1, Policy::Strict).err(), Some(Error::RangeTooLarge));
}

#[test]
fn collection_of_as_many_items_as_indices_is_accepted() {
    let limit: usize = isize::MAX as usize;
    assert_eq!(validate_count(Some(limit), Policy::Strict), Ok(Some(limit)));
    assert_eq!(validate_count(Some(1), Policy::Strict), Ok(Some(1)));
    assert_eq!(validate_count(Some(3), Policy::Permissive), Ok(Some(3)));
    let interval = indices(limit, Policy::Strict).unwrap().unwrap();
    assert_eq!(interval.start(), 0);
    assert_eq!(interval.end(), limit - 1);
}

#[test]
fn indices_run_from_zero_to_the_last() {
    let interval = indices(3, Policy::Strict).unwrap().unwrap();
    assert_eq!(interval.start(), 0);
    assert_eq!(interval.end(), 2);
    assert_eq!(interval.len(), 3);
    let single = indices(1, Policy::Strict).unwrap().unwrap();
    assert_eq!((single.start(), single.end()), (0, 0));
}

#[test]
fn index_is_projected_to_its_item() {
    let items = ["foo", "bar", "baz"];
    assert_eq!(project(&items, 0), Some(&"foo"));
    assert_eq!(project(&items, 1), Some(&"bar"));
    assert_eq!(project(&items, 2), Some(&"baz"));
}

#[test]
fn index_beyond_the_buffer_is_projected_to_nothing() {
    let items = ["foo", "bar", "baz"];
    assert_eq!(project(&items, 3), None);
    assert_eq!(project(&items, usize::MAX), None);
    let none: [u8; 0] = [];
    assert_eq!(project(&none, 0), None);
}

#[test]
fn each_item_ends_one_continuation() {
    let items = ["foo", "bar", "baz"];
    let interval = indices(items.len(), Policy::Strict).unwrap().unwrap();
    let first = interval.replay(&[Branch::Parent, Branch::Parent]).unwrap();
    let second = interval.replay(&[Branch::Parent, Branch::Child]).unwrap();
    let third = interval.replay(&[Branch::Child]).unwrap();
    assert_eq!(project(&items, first), Some(&"foo"));
    assert_eq!(project(&items, second), Some(&"bar"));
    assert_eq!(project(&items, third), Some(&"baz"));
}
