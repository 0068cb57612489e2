//! Bootstrap orchestration for a local multi-node k3d cluster: the plan, the
//! capability set, the ordered installation steps and the collaborator calls
//! each one makes, and the step sequencer that drives them.

pub mod paths;
pub mod capability;
pub mod plan;
pub mod step;
pub mod manifests;
pub mod calls;
pub mod sequencer;
pub mod report;
pub mod command;
