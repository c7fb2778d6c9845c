//! Errors of a node, by kind.
use vstd::prelude::*;

use crate::protocol::{RpcCode, RpcStatus};

verus! {

/// What went wrong on a node.
#[derive(Debug, Clone)]
pub enum KafuError {
    /// Malformed or semantically invalid configuration.
    InvalidConfig(String),
    /// Module loading, metadata parsing or engine instantiation failed.
    WasmInstantiationError(String),
    /// The guest trapped or failed inside `_start` or a resume.
    WasmExecutionError(String),
    /// Preparing, sending or accepting a migration failed.
    WasmMigrationError(String),
    /// Connecting to a peer failed.
    GrpcTransportError(String),
    /// A peer refused a request.
    GrpcClientError(RpcStatus),
    /// A peer failed its health check.
    HealthCheckFailed { node_id: String, endpoint: String, reason: String },
}

/// Whether a failed migration send may be tried again: transport failures,
/// and refusals with the codes that stand for transient trouble.
pub open spec fn is_retryable_spec(err: KafuError) -> bool {
    match err {
        KafuError::GrpcTransportError(_) => true,
        KafuError::GrpcClientError(status) => status.code == RpcCode::Unavailable || status.code
            == RpcCode::DeadlineExceeded || status.code == RpcCode::Unknown,
        _ => false,
    }
}

pub fn is_retryable_migration_send_error(err: &KafuError) -> (r: bool)
    ensures
        r == is_retryable_spec(*err),
{
    match err {
        KafuError::GrpcTransportError(_) => true,
        KafuError::GrpcClientError(status) => match status.code {
            RpcCode::Unavailable | RpcCode::DeadlineExceeded | RpcCode::Unknown => true,
            _ => false,
        },
        _ => false,
    }
}

} // verus!
