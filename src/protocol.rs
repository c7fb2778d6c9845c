//! Messages exchanged between nodes on the control plane, and the status
//! codes with which a node refuses a request.
use vstd::prelude::*;

use crate::stack::MigrationStackEntry;

verus! {

/// One delta page on the wire; `data` is LZ4-framed when `data_compressed`.
#[derive(Debug, Clone)]
pub struct MemoryDeltaPage {
    pub page_index: u32,
    pub data: Vec<u8>,
    pub data_compressed: bool,
}

/// One linear memory on the wire: a full image in `data` (LZ4-framed when
/// `compressed`), delta pages, or both; `pages` is its length in 64 KiB pages.
#[derive(Debug, Clone)]
pub struct MemoryImage {
    pub data: Vec<u8>,
    pub compressed: bool,
    pub pages: u64,
    pub delta_pages: Vec<MemoryDeltaPage>,
}

/// A request to take over execution of the guest.
#[derive(Debug, Clone)]
pub struct MigrateRequest {
    pub wasm_sha256: Vec<u8>,
    pub migration_stack: Vec<MigrationStackEntry>,
    pub main_memory: Option<MemoryImage>,
    pub snapify_memory: Option<MemoryImage>,
}

/// Reply to a migration request.
#[derive(Debug, Clone, Copy, PartialEq, Eq, Structural)]
pub struct MigrateResponse {
    pub success: bool,
}

/// Push heartbeat from the coordinator.
#[derive(Debug, Clone)]
pub struct HeartbeatRequest {
    pub from_node_id: String,
    pub execution_started: bool,
}

/// Cluster shutdown notice.
#[derive(Debug, Clone)]
pub struct ShutdownRequest {
    pub from_node_id: String,
    pub reason: String,
}

/// Status codes of the control plane that the logic tells apart.
#[derive(Debug, Clone, Copy, PartialEq, Eq, Structural)]
pub enum RpcCode {
    InvalidArgument,
    FailedPrecondition,
    NotFound,
    Unavailable,
    DeadlineExceeded,
    Unknown,
    Internal,
}

/// A refused request: its status code and a message for the operator.
#[derive(Debug, Clone)]
pub struct RpcStatus {
    pub code: RpcCode,
    pub message: String,
}

/// Health of a peer as its health service reports it.
#[derive(Debug, Clone, Copy, PartialEq, Eq, Structural)]
pub enum ServingStatus {
    Unknown,
    Serving,
    NotServing,
}

/// Reads the numeric status of the standard health protocol.
pub fn serving_status_from_code(code: i32) -> (r: Option<ServingStatus>)
    ensures
        r == (if code == 0 {
            Some(ServingStatus::Unknown)
        } else if code == 1 {
            Some(ServingStatus::Serving)
        } else if code == 2 {
            Some(ServingStatus::NotServing)
        } else {
            None
        }),
{
    if code == 0 {
        Some(ServingStatus::Unknown)
    } else if code == 1 {
        Some(ServingStatus::Serving)
    } else if code == 2 {
        Some(ServingStatus::NotServing)
    } else {
        None
    }
}

} // verus!
