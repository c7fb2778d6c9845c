use kafu::config::MemoryMigrationMode;
use kafu::error::KafuError;
use kafu::protocol::{RpcCode, RpcStatus};
use kafu::sender::{SendAction, SendEvent, SendPhase, SendSession};

fn through_prepare(s: &mut SendSession, has_cache: bool) -> SendAction {
    let a = s.step(SendEvent::CacheChecked { has_cache });
    assert!(matches!(s.step(SendEvent::Prepared), SendAction::SendRequest));
    a
}

#[test]
fn delta_when_peer_has_baseline_then_commit() {
    let (mut s, first) = SendSession::new(MemoryMigrationMode::Delta);
    assert!(matches!(first, SendAction::CheckSnapshotCache));
    assert!(matches!(through_prepare(&mut s, true), SendAction::CheckpointDelta));
    assert!(matches!(s.step(SendEvent::Delivered { success: true }), SendAction::CommitCacheUpdate));
    assert_eq!(s.phase, SendPhase::Done);
}

#[test]
fn falls_back_to_full() {
    let (mut s, _) = SendSession::new(MemoryMigrationMode::Delta);
    assert!(matches!(s.step(SendEvent::CacheChecked { has_cache: true }), SendAction::CheckpointDelta));
    assert!(matches!(s.step(SendEvent::DeltaUnavailable), SendAction::CheckpointFull));
    assert_eq!(s.phase, SendPhase::Checkpointing { delta: false });
    let (mut f, _) = SendSession::new(MemoryMigrationMode::Full);
    assert!(matches!(f.step(SendEvent::CacheChecked { has_cache: true }), SendAction::CheckpointFull));
}

#[test]
fn transient_failures_retry_five_times() {
    let (mut s, _) = SendSession::new(MemoryMigrationMode::Delta);
    let mut pauses = Vec::new();
    loop {
        through_prepare(&mut s, false);
        match s.step(SendEvent::SendFailed { err: KafuError::GrpcTransportError("refused".to_string()) }) {
            SendAction::Sleep { ms } => {
                pauses.push(ms);
                assert!(matches!(s.step(SendEvent::BackoffElapsed), SendAction::CheckSnapshotCache));
            }
            SendAction::Fail { err } => {
                assert!(matches!(err, KafuError::WasmMigrationError(_)));
                break;
            }
            other => panic!("unexpected {:?}", other),
        }
    }
    assert_eq!(pauses, vec![200, 400, 800, 1600]);
    assert_eq!(s.attempt, 5);
    assert_eq!(s.phase, SendPhase::Failed);
}

#[test]
fn digest_mismatch_is_not_retried() {
    let (mut s, _) = SendSession::new(MemoryMigrationMode::Delta);
    through_prepare(&mut s, false);
    let err = KafuError::GrpcClientError(RpcStatus { code: RpcCode::FailedPrecondition, message: "Wasm SHA-256 mismatch".to_string() });
    assert!(matches!(
        s.step(SendEvent::SendFailed { err }),
        SendAction::Fail { err: KafuError::WasmMigrationError(_) }
    ));
    assert_eq!(s.attempt, 1);
    assert_eq!(s.phase, SendPhase::Failed);
    assert!(matches!(s.step(SendEvent::Delivered { success: true }), SendAction::Ignore));
}

#[test]
fn refused_reply_fails() {
    let (mut s, _) = SendSession::new(MemoryMigrationMode::Delta);
    through_prepare(&mut s, false);
    assert!(matches!(
        s.step(SendEvent::Delivered { success: false }),
        SendAction::Fail { err: KafuError::WasmMigrationError(_) }
    ));
}
