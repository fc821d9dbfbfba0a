//! The typed extension-state registry shared by one call chain.
//!
//! The registry is the engine's sole extension point for attaching
//! cross-cutting per-chain data to a call chain without changing the frame's
//! own definition. Each kind of extension state is named by a compile-time
//! key; the chain holds at most one instance per kind, default-initialized
//! on first request and returned to every later requester.

use vstd::prelude::*;

verus! {

/// Names one kind of extension state an engine can attach to a call chain.
/// Retrieval is keyed by this identity, so no kind can ever be confused
/// with another.
#[derive(Clone, Copy, Debug, PartialEq, Eq, Structural)]
pub enum StateKey {
    /// Per-chain resource accounting.
    ResourceUsage,
    /// Per-chain bookkeeping of calls out of the VM into its host.
    HostCall,
}

/// Resource accounting for one call chain.
#[derive(Clone, Copy, Debug, PartialEq, Eq, Structural)]
pub struct ResourceUsage {
    /// Instructions the chain has executed so far.
    pub instructions_executed: u64,
    /// The greatest evaluation-stack depth the chain has reached.
    pub stack_high_water: u64,
}

/// Bookkeeping of calls out of the VM into its host, for one call chain.
#[derive(Clone, Copy, Debug, PartialEq, Eq, Structural)]
pub struct HostCall {
    /// How many host calls the chain has made.
    pub calls_made: u64,
    /// The identifier of the most recent host call, zero before any call.
    pub last_call: u64,
}

/// One registry entry: the tagged union over every kind of extension state
/// the engine registers.
#[derive(Clone, Copy, Debug, PartialEq, Eq, Structural)]
pub enum ExtensionState {
    ResourceUsage(ResourceUsage),
    HostCall(HostCall),
}

/// The default-initialized instance a kind starts from on first request.
pub open spec fn default_state(key: StateKey) -> ExtensionState {
    match key {
        StateKey::ResourceUsage => ExtensionState::ResourceUsage(
            ResourceUsage { instructions_executed: 0, stack_high_water: 0 },
        ),
        StateKey::HostCall => ExtensionState::HostCall(
            HostCall { calls_made: 0, last_call: 0 },
        ),
    }
}

/// The typed extension-state registry of one call chain: at most one entry
/// per kind, created lazily on first request and shared by every frame of
/// the chain thereafter.
#[derive(Clone, Debug)]
pub struct StateRegistry {
    resource_usage: Option<ExtensionState>,
    host_call: Option<ExtensionState>,
}

impl StateRegistry {
    /// The entry registered under `key`, if a request has created one yet.
    pub closed spec fn entry(self, key: StateKey) -> Option<ExtensionState> {
        match key {
            StateKey::ResourceUsage => self.resource_usage,
            StateKey::HostCall => self.host_call,
        }
    }

    /// The registry with `state` registered under `key` and every other
    /// kind's entry untouched.
    pub closed spec fn with_entry(self, key: StateKey, state: ExtensionState) -> StateRegistry {
        match key {
            StateKey::ResourceUsage => StateRegistry { resource_usage: Some(state), ..self },
            StateKey::HostCall => StateRegistry { host_call: Some(state), ..self },
        }
    }

    /// The instance a request under `key` returns: the registered entry, or
    /// the default-initialized one when no request has come yet.
    pub open spec fn entry_or_default(self, key: StateKey) -> ExtensionState {
        match self.entry(key) {
            Some(state) => state,
            None => default_state(key),
        }
    }

    /// Creates a registry with no entry of any kind.
    pub fn new() -> (registry: StateRegistry)
        ensures
            forall|key: StateKey| registry.entry(key) is None,
    {
        StateRegistry { resource_usage: None, host_call: None }
    }

    /// Returns the unique instance of `key`'s kind in this chain,
    /// default-initializing and registering it on first request. A write
    /// through the returned handle lands in the registry, where every later
    /// request under the same key observes it; entries of other kinds are
    /// untouched.
    pub fn get_state(&mut self, key: StateKey) -> (state: &mut ExtensionState)
        ensures
            *state == old(self).entry_or_default(key),
            *final(self) == old(self).with_entry(key, *final(state)),
            final(self).entry(key) == Some(*final(state)),
            forall|k: StateKey| k != key ==> final(self).entry(k) == old(self).entry(k),
    {
        let fresh = match key {
            StateKey::ResourceUsage => ExtensionState::ResourceUsage(
                ResourceUsage { instructions_executed: 0, stack_high_water: 0 },
            ),
            StateKey::HostCall => ExtensionState::HostCall(
                HostCall { calls_made: 0, last_call: 0 },
            ),
        };
        match key {
            StateKey::ResourceUsage => self.resource_usage.get_or_insert(fresh),
            StateKey::HostCall => self.host_call.get_or_insert(fresh),
        }
    }
}

/// Registry identity: within one chain, a kind names one instance. The
/// instance a request leaves registered is the instance the next request
/// under the same key returns, so repeated requests observe every write
/// made through earlier handles.
pub proof fn lemma_registry_identity(registry: StateRegistry, key: StateKey, state: ExtensionState)
    ensures
        registry.with_entry(key, state).entry_or_default(key) == state,
        registry.with_entry(key, registry.entry_or_default(key)).entry_or_default(key)
            == registry.entry_or_default(key),
{
}

/// Registry isolation: distinct kinds never alias. Registering an instance
/// under one key leaves the entry of every other key exactly as it was.
pub proof fn lemma_registry_isolation(
    registry: StateRegistry,
    key: StateKey,
    other: StateKey,
    state: ExtensionState,
)
    requires
        key != other,
    ensures
        registry.with_entry(key, state).entry(other) == registry.entry(other),
{
}

} // verus!
