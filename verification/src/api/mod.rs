//! The transport-agnostic contract of the engine: capability ids, the
//! request and response payloads bound to them, and the envelopes that carry
//! them.

pub mod capabilities;
pub mod contracts;
pub mod codec;
pub mod envelope;
pub mod json;
pub mod views;
pub mod wire;

pub use capabilities::{
    capability_definition, capability_matrix, CapabilityDefinition, CapabilityDomain, CapabilityId,
    CapabilityOperation,
};
pub use contracts::{
    ApiRequestContract, ApiResponseContract, AppEventContract, AppRequest, AppResponse,
    EventsRequest, EventsResponse, JobRunContract, PlannerTaskDocContract,
    PlannerTaskEntryContract, PlannerTaskKindContract, PlannerTaskStatusContract,
    RightPaneToggleContract, SessionListEntryContract, SessionMetaContract, SessionRequest,
    SessionResponse, SessionStoreSnapshotContract, StartedWorkerJobContract, SubagentRequest,
    SubagentResponse, TaskFailureContract, WorkerRoleContract, WorkflowFailureKindContract,
    WorkflowRequest, WorkflowResponse,
};
pub use envelope::{
    ApiErrorCode, ApiErrorEnvelope, ApiResultEnvelope, RequestEnvelope, RequestMetadata,
    ResponseEnvelope,
};
