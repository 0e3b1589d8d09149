use chip8emu::stack::{Stack, MAX_STACK};

#[test]
fn test_stack() {
    let mut stack = Stack::new();
    assert_eq!(stack.pop(), None);
    stack.push(3).unwrap();
    stack.push(1).unwrap();
    stack.push(2).unwrap();
    assert_eq!(stack.pop(), Some(2));
    assert_eq!(stack.pop(), Some(1));
    assert_eq!(stack.pop(), Some(3));
    assert_eq!(stack.pop(), None);
    assert_eq!(stack.pop(), None);
}

#[test]
fn stack_refuses_seventeenth_push() {
    let mut stack = Stack::new();
    for k in 0..MAX_STACK {
        assert_eq!(stack.push(k as u16), Some(()));
    }
    assert_eq!(stack.push(99), None);
    // A full stack still pops its newest address.
    assert_eq!(stack.pop(), Some((MAX_STACK - 1) as u16));
    assert_eq!(stack.push(7), Some(()));
    assert_eq!(stack.pop(), Some(7));
}

#[test]
fn stack_reset_empties() {
    let mut stack = Stack::new();
    stack.push(0x200).unwrap();
    stack.reset();
    assert_eq!(stack.pop(), None);
}
