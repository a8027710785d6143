use mylist::persistence_list::List;

#[test]
fn persistence_list_basics() {
    let list = List::new();
    assert_eq!(list.head(), None);

    let list = list.append(1).append(2).append(3);
    assert_eq!(list.head(), Some(&3));

    let list = list.tail();
    assert_eq!(list.head(), Some(&2));

    let list = list.tail();
    assert_eq!(list.head(), Some(&1));

    let list = list.tail();
    assert_eq!(list.head(), None);

    // Make sure empty tail works
    let list = list.tail();
    assert_eq!(list.head(), None);
}

#[test]
fn persistence_list_iter_tests() {
    let list = List::new();
    let list = list.append(3).append(4);
    let mut iter = list.iter();
    assert_eq!(iter.next(), Some(&4));
    assert_eq!(iter.next(), Some(&3));
    assert_eq!(iter.next(), None);
}

#[test]
fn list_append_leaves_receiver_unchanged() {
    let base = List::new().append(1).append(2);
    let grown = base.append(3);
    assert_eq!(base.head(), Some(&2));
    assert_eq!(grown.head(), Some(&3));
    assert_eq!(base.head(), Some(&2));
}

#[test]
fn list_branches_stay_independent() {
    let base = List::new().append(1).append(2);
    let left = base.append(10);
    let right = base.append(20);

    let mut left_iter = left.iter();
    assert_eq!(left_iter.next(), Some(&10));
    assert_eq!(left_iter.next(), Some(&2));
    assert_eq!(left_iter.next(), Some(&1));
    assert_eq!(left_iter.next(), None);

    let mut right_iter = right.iter();
    assert_eq!(right_iter.next(), Some(&20));
    assert_eq!(right_iter.next(), Some(&2));
    assert_eq!(right_iter.next(), Some(&1));
    assert_eq!(right_iter.next(), None);

    assert_eq!(base.head(), Some(&2));
}

#[test]
fn list_tail_of_empty_stays_empty() {
    let list = List::<i32>::new();
    let once = list.tail();
    let twice = once.tail();
    assert_eq!(once.head(), None);
    assert_eq!(twice.head(), None);
}

#[test]
fn list_iter_is_restartable() {
    let list = List::new().append(1).append(2);
    let mut first_pass = list.iter();
    assert_eq!(first_pass.next(), Some(&2));
    assert_eq!(first_pass.next(), Some(&1));
    assert_eq!(first_pass.next(), None);
    let mut second_pass = list.iter();
    assert_eq!(second_pass.next(), Some(&2));
    assert_eq!(second_pass.next(), Some(&1));
    assert_eq!(second_pass.next(), None);
}

#[test]
fn list_clear_stops_at_shared_suffix() {
    let base = List::new().append(1).append(2);
    let mut branch = base.append(3);
    branch.clear();
    assert_eq!(branch.head(), None);
    // The suffix shared with `base` must survive the branch's teardown.
    assert_eq!(base.head(), Some(&2));
    assert_eq!(base.tail().head(), Some(&1));
}

#[test]
fn list_clear_long_chain() {
    let mut list = List::new();
    for i in 0..100_000u64 {
        list = list.append(i);
    }
    assert_eq!(list.head(), Some(&99_999));
    list.clear();
    assert_eq!(list.head(), None);
}
