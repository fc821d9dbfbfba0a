use vm_context::evaluation_stack::VmError;
use vm_context::execution_context::ExecutionContext;
use vm_context::reference_counter::ReferenceCounter;
use vm_context::script::Script;
use vm_context::stack_item::StackItem;

fn context_over(script_len: usize) -> ExecutionContext {
    ExecutionContext::new(Script::new(vec![0u8; script_len]), ReferenceCounter::new())
}

fn depth(context: &ExecutionContext) -> usize {
    context.shared_states.evaluation_stack.len()
}

fn references(context: &ExecutionContext, id: u64) -> usize {
    context
        .shared_states
        .evaluation_stack
        .stack_references(&StackItem::new(id))
}

#[test]
fn lifo_order_and_counts() {
    let mut context = context_over(3);
    for id in 1..=4u64 {
        context.push(StackItem::new(id));
        assert_eq!(references(&context, id), 1);
    }
    assert_eq!(depth(&context), 4);
    for id in [4u64, 3, 2, 1] {
        assert_eq!(context.pop(), Ok(StackItem::new(id)));
        assert_eq!(references(&context, id), 0);
    }
    assert_eq!(depth(&context), 0);
}

#[test]
fn peek_yields_most_recent_push() {
    let mut context = context_over(1);
    context.push(StackItem::new(10));
    assert_eq!(context.peek(0), Ok(StackItem::new(10)));
    context.push(StackItem::new(20));
    assert_eq!(context.peek(0), Ok(StackItem::new(20)));
    assert_eq!(context.peek(1), Ok(StackItem::new(10)));
    // peek moves nothing and touches no reference count
    assert_eq!(depth(&context), 2);
    assert_eq!(references(&context, 10), 1);
    assert_eq!(references(&context, 20), 1);
}

#[test]
fn remove_middle_keeps_relative_order() {
    let mut context = context_over(1);
    context.push(StackItem::new(1));
    context.push(StackItem::new(2));
    context.push(StackItem::new(3));
    assert_eq!(context.remove(1), Ok(StackItem::new(2)));
    assert_eq!(depth(&context), 2);
    assert_eq!(context.peek(0), Ok(StackItem::new(3)));
    assert_eq!(context.peek(1), Ok(StackItem::new(1)));
    assert_eq!(references(&context, 2), 0);
    assert_eq!(references(&context, 1), 1);
    assert_eq!(references(&context, 3), 1);
}

#[test]
fn remove_depth_zero_takes_the_top() {
    let mut context = context_over(1);
    context.push(StackItem::new(7));
    context.push(StackItem::new(8));
    assert_eq!(context.remove(0), Ok(StackItem::new(8)));
    assert_eq!(context.peek(0), Ok(StackItem::new(7)));
}

#[test]
fn remove_deepest_takes_the_bottom() {
    let mut context = context_over(1);
    context.push(StackItem::new(7));
    context.push(StackItem::new(8));
    assert_eq!(context.remove(1), Ok(StackItem::new(7)));
    assert_eq!(context.peek(0), Ok(StackItem::new(8)));
    assert_eq!(depth(&context), 1);
}

#[test]
fn duplicate_values_count_per_position() {
    let mut context = context_over(1);
    context.push(StackItem::new(5));
    context.push(StackItem::new(5));
    assert_eq!(references(&context, 5), 2);
    assert_eq!(context.pop(), Ok(StackItem::new(5)));
    assert_eq!(references(&context, 5), 1);
    assert_eq!(context.pop(), Ok(StackItem::new(5)));
    assert_eq!(references(&context, 5), 0);
}

#[test]
fn pop_on_empty_stack_fails() {
    let mut context = context_over(1);
    assert_eq!(context.pop(), Err(VmError::StackUnderflow));
    context.push(StackItem::new(1));
    assert_eq!(context.pop(), Ok(StackItem::new(1)));
    assert_eq!(context.pop(), Err(VmError::StackUnderflow));
}

#[test]
fn peek_out_of_range_fails() {
    let mut context = context_over(1);
    assert_eq!(context.peek(0), Err(VmError::IndexOutOfRange));
    context.push(StackItem::new(1));
    context.push(StackItem::new(2));
    assert_eq!(context.peek(2), Err(VmError::IndexOutOfRange));
    assert_eq!(context.peek(usize::MAX), Err(VmError::IndexOutOfRange));
}

#[test]
fn remove_out_of_range_fails() {
    let mut context = context_over(1);
    assert_eq!(context.remove(0), Err(VmError::IndexOutOfRange));
    context.push(StackItem::new(1));
    context.push(StackItem::new(2));
    assert_eq!(context.remove(2), Err(VmError::IndexOutOfRange));
    // the failed remove left everything untouched
    assert_eq!(depth(&context), 2);
    assert_eq!(references(&context, 1), 1);
    assert_eq!(references(&context, 2), 1);
}
