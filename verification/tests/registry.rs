use vm_context::execution_context::ExecutionContext;
use vm_context::reference_counter::ReferenceCounter;
use vm_context::script::Script;
use vm_context::stack_item::StackItem;
use vm_context::states::ExtensionState;
use vm_context::states::StateKey;

fn fresh_context() -> ExecutionContext {
    ExecutionContext::new(Script::new(vec![0u8; 4]), ReferenceCounter::new())
}

#[test]
fn first_request_returns_the_default() {
    let mut context = fresh_context();
    match context.get_state(StateKey::ResourceUsage) {
        ExtensionState::ResourceUsage(usage) => {
            assert_eq!(usage.instructions_executed, 0);
            assert_eq!(usage.stack_high_water, 0);
        }
        _ => panic!("request under ResourceUsage returned another kind"),
    }
    match context.get_state(StateKey::HostCall) {
        ExtensionState::HostCall(host) => {
            assert_eq!(host.calls_made, 0);
            assert_eq!(host.last_call, 0);
        }
        _ => panic!("request under HostCall returned another kind"),
    }
}

#[test]
fn registry_identity_within_a_chain() {
    let mut context = fresh_context();
    match context.get_state(StateKey::ResourceUsage) {
        ExtensionState::ResourceUsage(usage) => {
            usage.instructions_executed = 42;
            usage.stack_high_water = 7;
        }
        _ => panic!("request under ResourceUsage returned another kind"),
    }
    // a second request returns the same instance, mutations included
    match context.get_state(StateKey::ResourceUsage) {
        ExtensionState::ResourceUsage(usage) => {
            assert_eq!(usage.instructions_executed, 42);
            assert_eq!(usage.stack_high_water, 7);
        }
        _ => panic!("request under ResourceUsage returned another kind"),
    }
}

#[test]
fn registry_isolation_between_kinds() {
    let mut context = fresh_context();
    match context.get_state(StateKey::ResourceUsage) {
        ExtensionState::ResourceUsage(usage) => {
            usage.instructions_executed = 99;
        }
        _ => panic!("request under ResourceUsage returned another kind"),
    }
    // the other kind's storage is untouched by the write above
    match context.get_state(StateKey::HostCall) {
        ExtensionState::HostCall(host) => {
            assert_eq!(host.calls_made, 0);
            assert_eq!(host.last_call, 0);
        }
        _ => panic!("request under HostCall returned another kind"),
    }
    // and the first kind still holds its write
    match context.get_state(StateKey::ResourceUsage) {
        ExtensionState::ResourceUsage(usage) => {
            assert_eq!(usage.instructions_executed, 99);
        }
        _ => panic!("request under ResourceUsage returned another kind"),
    }
}

#[test]
fn derived_frame_observes_the_chain() {
    let mut parent = fresh_context();
    match parent.get_state(StateKey::ResourceUsage) {
        ExtensionState::ResourceUsage(usage) => {
            usage.instructions_executed = 11;
        }
        _ => panic!("request under ResourceUsage returned another kind"),
    }
    parent.push(StackItem::new(6));

    // hand the caller's bundle to the callee: the sharing derivation
    let mut child = ExecutionContext::derive_frame(parent.shared_states, 2, 1, None, None);
    assert_eq!(child.instruction_pointer, 2);
    assert_eq!(child.rv_count, 1);
    assert!(child.local_variables.is_none());
    assert!(child.arguments.is_none());
    assert!(child.try_stack.is_none());

    // the callee observes the caller's evaluation stack and extension state
    assert_eq!(child.peek(0), Ok(StackItem::new(6)));
    match child.get_state(StateKey::ResourceUsage) {
        ExtensionState::ResourceUsage(usage) => {
            assert_eq!(usage.instructions_executed, 11);
        }
        _ => panic!("request under ResourceUsage returned another kind"),
    }
}
