use mylist::ok_stack::Stack;

#[test]
fn ok_stack_stack_tests() {
    {
        let mut new_stack = Stack::new();

        assert_eq!(new_stack.pop(), None);

        new_stack.push(1);
        new_stack.push(2);
        new_stack.push(3);

        assert_eq!(new_stack.pop(), Some(3));
        assert_eq!(new_stack.pop(), Some(2));

        new_stack.push(4);
        new_stack.push(5);

        assert_eq!(new_stack.pop(), Some(5));
        assert_eq!(new_stack.pop(), Some(4));

        assert_eq!(new_stack.pop(), Some(1));
        assert_eq!(new_stack.pop(), None);
    }

    {
        let mut new_stack = Stack::new();

        assert_eq!(new_stack.pop(), None);

        new_stack.push("world");
        new_stack.push("hello");

        assert_eq!(new_stack.pop(), Some("hello"));
        assert_eq!(new_stack.pop(), Some("world"));

        assert_eq!(new_stack.pop(), None);
    }
}

#[test]
fn peek_tests() {
    let mut stack = Stack::new();
    stack.push(5);
    stack.push(4);
    stack.push(3);
    assert_eq!(stack.peek(), Some(&3));
    stack.pop();
    assert_eq!(stack.peek(), Some(&4));
    assert_eq!(stack.peek(), Some(&4));
    stack.pop();
    stack.pop();
    assert_eq!(stack.peek(), None);

    stack.push(15);
    stack.peek_mut().map(|value| *value = 11);
    assert_eq!(stack.peek(), Some(&11));
}

#[test]
fn ok_stack_iter_tests() {
    let mut stack = Stack::new();
    stack.push(1);
    stack.push(2);
    stack.push(3);
    let mut iter = stack.iter();
    assert_eq!(iter.next(), Some(&3));
    assert_eq!(iter.next(), Some(&2));
    assert_eq!(iter.next(), Some(&1));

    let mut iter_mut = stack.iter_mut();
    iter_mut.next().map(|value| *value = 11);
    iter_mut.next().map(|value| *value = 12);
    iter_mut.next().map(|value| *value = 13);
    iter_mut = stack.iter_mut();
    assert_eq!(iter_mut.next(), Some(&mut 11));
    assert_eq!(iter_mut.next(), Some(&mut 12));
    assert_eq!(iter_mut.next(), Some(&mut 13));
}

#[test]
fn ok_stack_peek_mut_empty() {
    let mut stack = Stack::<i32>::new();
    assert!(stack.peek_mut().is_none());
    assert_eq!(stack.peek(), None);
}

#[test]
fn ok_stack_iter_exhausted_stays_exhausted() {
    let mut stack = Stack::new();
    stack.push(7);
    let mut iter = stack.iter();
    assert_eq!(iter.next(), Some(&7));
    assert_eq!(iter.next(), None);
    assert_eq!(iter.next(), None);
}

#[test]
fn ok_stack_clear_long_chain() {
    let mut stack = Stack::new();
    for i in 0..100_000u64 {
        stack.push(i);
    }
    assert_eq!(stack.peek(), Some(&99_999));
    stack.clear();
    assert_eq!(stack.pop(), None);
    assert_eq!(stack.peek(), None);
}
