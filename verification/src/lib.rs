//! Core of a host-side auto-update agent for an image-based operating
//! system: the per-tick state machine that drives a node through
//! discovering, staging and finalizing OS image updates, together with
//! the jittered tick scheduler, the status-payload parser for the
//! deployment tool, the status cache, the agent metrics and the
//! response logic of the external request surface.

pub mod agent;
pub mod ipc;
pub mod metrics;
pub mod release;
pub mod state;
pub mod status;

pub use agent::UpdateAgent;
pub use metrics::Metrics;
pub use release::Identity;
pub use release::Release;
pub use release::ReleaseSet;
pub use state::UpdateAgentState;
pub use status::DeploymentJSON;
pub use status::StatusJSON;
