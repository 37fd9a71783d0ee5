use linked_stack::{empty_stack, pop, push, top, Stack};

fn stack_of_one(value: i32) -> Stack {
    let mut s = empty_stack();
    push(&mut s, value);
    s
}

#[test]
fn should_create_an_empty_stack() {
    let s = empty_stack();
    assert_eq!(empty_stack(), s);
    assert_eq!(None, top(&s));
    assert_ne!(stack_of_one(1), s);
}

#[test]
fn should_return_the_top_of_an_empty_stack() {
    let s = empty_stack();
    assert_eq!(None, top(&s));
}

#[test]
fn should_return_the_top_of_the_stack() {
    let s = stack_of_one(1);
    assert_eq!(1, top(&s).unwrap());
}

#[test]
fn should_push_an_element_on_the_stack() {
    let mut s = empty_stack();
    push(&mut s, 1);
    assert_eq!(1, top(&s).unwrap());
}

#[test]
fn should_pop_the_empty_stack() {
    let mut s = empty_stack();
    let top_of_stack = pop(&mut s);
    assert_eq!(None, top_of_stack);
    assert_eq!(None, top(&s));
}

#[test]
fn should_pop_an_element_from_the_stack() {
    let mut s = stack_of_one(1);
    let top_of_stack = pop(&mut s);
    assert_eq!(1, top_of_stack.unwrap());
    assert_eq!(None, top(&s));
}
