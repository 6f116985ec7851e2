//! What a cloud runtime is allowed to do.
use vstd::prelude::*;

verus! {

/// How a runtime may touch its environment.
#[derive(Debug, Clone, PartialEq, Eq, Structural)]
pub enum RuntimeMode {
    ReadOnly,
}

/// Something that a runtime must not do.
#[derive(Debug, Clone, PartialEq, Eq, Structural)]
pub enum DisabledCapability {
    FileWrite,
    ApplyPatch,
    LocalCommandExec,
    ProcessSpawn,
    SubAgent,
}

/// The limits set on a runtime.
#[derive(Debug, Clone, PartialEq, Eq)]
pub struct RuntimeCapabilityProfile {
    pub mode: RuntimeMode,
    pub read_only_runtime_required: bool,
    pub disabled_capabilities: Vec<DisabledCapability>,
}

impl RuntimeCapabilityProfile {
    /// A runtime that only reads: every capability is off.
    pub fn strict_read_only() -> (r: Self)
        ensures
            r.mode == RuntimeMode::ReadOnly,
            r.read_only_runtime_required,
            r.disabled_capabilities@ == seq![
                DisabledCapability::FileWrite,
                DisabledCapability::ApplyPatch,
                DisabledCapability::LocalCommandExec,
                DisabledCapability::ProcessSpawn,
                DisabledCapability::SubAgent,
            ],
            forall|capability: DisabledCapability| r.disabled_capabilities@.contains(capability),
    {
        let r = RuntimeCapabilityProfile {
            mode: RuntimeMode::ReadOnly,
            read_only_runtime_required: true,
            disabled_capabilities: vec![
                DisabledCapability::FileWrite,
                DisabledCapability::ApplyPatch,
                DisabledCapability::LocalCommandExec,
                DisabledCapability::ProcessSpawn,
                DisabledCapability::SubAgent,
            ],
        };
        proof {
            let off = r.disabled_capabilities@;
            assert(off[0] == DisabledCapability::FileWrite);
            assert(off[1] == DisabledCapability::ApplyPatch);
            assert(off[2] == DisabledCapability::LocalCommandExec);
            assert(off[3] == DisabledCapability::ProcessSpawn);
            assert(off[4] == DisabledCapability::SubAgent);
        }
        r
    }
}

} // verus!
