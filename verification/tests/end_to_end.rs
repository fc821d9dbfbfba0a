use vm_context::execution_context::ExecutionContext;
use vm_context::reference_counter::ReferenceCounter;
use vm_context::script::Script;
use vm_context::stack_item::StackItem;

#[test]
fn one_frame_full_scenario() {
    // a context over a script of length 5 with a fresh reference counter
    let script = Script::new(vec![0u8; 5]);
    let mut context = ExecutionContext::new(script, ReferenceCounter::new());
    assert_eq!(context.instruction_pointer, 0);

    let item_a = StackItem::new(100);
    let item_b = StackItem::new(200);

    context.push(item_a);
    assert_eq!(context.shared_states.evaluation_stack.len(), 1);
    assert_eq!(
        context.shared_states.evaluation_stack.stack_references(&item_a),
        1
    );

    context.push(item_b);
    assert_eq!(context.shared_states.evaluation_stack.len(), 2);

    assert_eq!(context.peek(0), Ok(item_b));

    assert_eq!(context.pop(), Ok(item_b));
    assert_eq!(
        context.shared_states.evaluation_stack.stack_references(&item_b),
        0
    );
    assert_eq!(context.shared_states.evaluation_stack.len(), 1);

    // five advances from offset zero: four plain increments, one wraparound
    let mut seen = Vec::new();
    for _ in 0..5 {
        context.move_next();
        seen.push(context.instruction_pointer);
    }
    assert_eq!(seen, vec![1, 2, 3, 4, 0]);
}
