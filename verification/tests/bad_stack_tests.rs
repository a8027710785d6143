use mylist::bad_stack::Stack;

#[test]
fn bad_stack_stack_tests() {
    let mut new_stack = Stack::new();

    assert_eq!(new_stack.pop(), None);

    new_stack.push(1);
    new_stack.push(2);
    new_stack.push(3);

    assert_eq!(new_stack.pop(), Some(3));
    assert_eq!(new_stack.pop(), Some(2));

    new_stack.push(4);
    new_stack.push(5);

    assert_eq!(new_stack.pop(), Some(5));
    assert_eq!(new_stack.pop(), Some(4));

    assert_eq!(new_stack.pop(), Some(1));
    assert_eq!(new_stack.pop(), None);
}

#[test]
fn bad_stack_clear_long_chain() {
    let mut stack = Stack::new();
    for i in 0..100_000i32 {
        stack.push(i);
    }
    stack.clear();
    assert_eq!(stack.pop(), None);
}
