use containers::stack::Stack;

#[test]
fn empty_stack() {
    assert!(Stack::<i32>::new().is_empty());
}

#[test]
fn push() {
    let mut stack = Stack::<i32>::new();
    stack.push(42);
    stack.push(314);

    assert_eq!(stack.len(), 2);
}

#[test]
fn pop() {
    let mut stack = Stack::<i32>::new();
    stack.push(42);
    stack.push(314);

    assert_eq!(stack.pop(), Some(314));
    assert_eq!(stack.pop(), Some(42));
    assert_eq!(stack.pop(), None);
}

#[test]
fn peek() {
    let mut stack = Stack::<i32>::new();
    stack.push(42);
    stack.push(314);

    assert_eq!(stack.peek(), Some(&314));
    assert_eq!(stack.len(), 2);
}

#[test]
fn is_empty() {
    let mut stack = Stack::<i32>::new();
    stack.push(42);

    assert!(!stack.is_empty());
    stack.pop();
    assert!(stack.is_empty());
}

#[test]
fn iter() {
    let mut stack = Stack::<i32>::new();
    stack.push(42);
    stack.push(314);

    let mut it = stack.iter();
    assert_eq!(it.next(), Some(&314));
    assert_eq!(it.next(), Some(&42));
}

#[test]
fn push_run_sets_len() {
    let mut stack = Stack::<i32>::new();
    assert_eq!(stack.len(), 0);
    assert!(stack.is_empty());

    let values = [3, 1, 4, 1, 5];
    for (count, v) in values.iter().enumerate() {
        stack.push(*v);
        assert_eq!(stack.len(), count + 1);
        assert!(!stack.is_empty());
    }
    assert_eq!(stack.len(), 5);
}

#[test]
fn push_pop_round_trip() {
    let mut stack = Stack::<i32>::new();
    stack.push(1);
    stack.push(2);

    stack.push(9);
    assert_eq!(stack.pop(), Some(9));
    assert_eq!(stack.len(), 2);
    assert_eq!(stack.peek(), Some(&2));
}

#[test]
fn peek_twice() {
    let mut stack = Stack::<i32>::new();
    stack.push(7);

    let first = stack.peek().copied();
    let second = stack.peek().copied();
    assert_eq!(first, second);
    assert_eq!(stack.len(), 1);
}

#[test]
fn peek_empty() {
    let stack = Stack::<i32>::new();
    assert_eq!(stack.peek(), None);
}

#[test]
fn pop_empty() {
    let mut stack = Stack::<i32>::new();
    assert_eq!(stack.pop(), None);
    assert_eq!(stack.len(), 0);
}

#[test]
fn is_empty_repeated() {
    let mut stack = Stack::<i32>::new();
    assert_eq!(stack.is_empty(), stack.is_empty());

    stack.push(42);
    assert_eq!(stack.is_empty(), stack.is_empty());
    assert!(!stack.is_empty());
}

#[test]
fn iter_is_restartable() {
    let mut stack = Stack::<i32>::new();
    stack.push(42);
    stack.push(314);

    let mut first = stack.iter();
    assert_eq!(first.next(), Some(&314));

    let mut second = stack.iter();
    assert_eq!(second.next(), Some(&314));
    assert_eq!(second.next(), Some(&42));
    assert_eq!(second.next(), None);
    assert_eq!(second.next(), None);
}

#[test]
fn iter_independent_of_len() {
    let mut stack = Stack::<i32>::new();
    stack.push(42);
    stack.push(314);

    let before = stack.len();
    let mut it = stack.iter();
    assert_eq!(it.next(), Some(&314));
    assert_eq!(it.next(), Some(&42));
    assert_eq!(it.next(), None);
    assert_eq!(stack.len(), before);
}

#[test]
fn as_slice_in_push_order() {
    let mut stack = Stack::<i32>::new();
    stack.push(42);
    stack.push(314);

    assert_eq!(stack.as_slice(), &[42, 314]);
    assert_eq!(stack.as_slice()[1], 314);
}

#[test]
fn default_is_empty() {
    let stack = Stack::<i32>::default();
    assert!(stack.is_empty());
    assert_eq!(stack.len(), 0);
}
