use kafu::config::MemoryMigrationMode;
use kafu::error::{is_retryable_migration_send_error, KafuError};
use kafu::memory::{compute_memory_delta_pages, MAIN_MEMORY_PAGE_SIZE};
use kafu::protocol::{MemoryDeltaPage, MemoryImage, MigrateRequest, MigrateResponse, RpcCode, RpcStatus};
use kafu::receiver::{handle_migrate_request, wasm_sha256, SnapshotCacheEntry};
use kafu::sender::{
    apply_cache_update, check_migrate_response, next_retry, prepare_delta_request,
    prepare_full_snapshot_request, should_send_delta, CacheUpdate, SendAction, SendEvent,
    SendSession,
};
use kafu::stack::MigrationStackEntry;

const P: usize = MAIN_MEMORY_PAGE_SIZE;

fn stack() -> Vec<MigrationStackEntry> {
    vec![MigrationStackEntry { from_node_id: "n1".to_string(), wasm_stack_height: 0 }]
}

fn image(data: Vec<u8>, pages: u64) -> MemoryImage {
    MemoryImage { data, compressed: false, pages, delta_pages: vec![] }
}

fn request(sha: Vec<u8>, main: Option<MemoryImage>, snapify: Option<MemoryImage>) -> MigrateRequest {
    MigrateRequest { wasm_sha256: sha, migration_stack: stack(), main_memory: main, snapify_memory: snapify }
}

fn status(code: RpcCode) -> KafuError {
    KafuError::GrpcClientError(RpcStatus { code, message: String::new() })
}

#[test]
fn digest_is_sha256() {
    let d = wasm_sha256(b"abc");
    assert_eq!(d.len(), 32);
    assert_eq!(&d[..4], &[0xba, 0x78, 0x16, 0xbf]);
}

#[test]
fn digest_mismatch_is_refused_without_touching_the_cache() {
    let wasm = b"\0asm\x01\0\0\0".to_vec();
    let local = wasm_sha256(&wasm);
    let mut other = local.clone();
    other[0] ^= 1;
    let prepared = prepare_full_snapshot_request(vec![1u8; P], vec![2u8; P], &other, &stack(), true);
    let mut cache = Some(SnapshotCacheEntry { main: vec![9u8; P], snapify: vec![9u8; P] });
    let err = handle_migrate_request(prepared.req, &local, &mut cache).unwrap_err();
    assert_eq!(err.code, RpcCode::FailedPrecondition);
    assert_eq!(cache.as_ref().unwrap().main, vec![9u8; P]);
    let e = KafuError::GrpcClientError(err);
    assert!(!is_retryable_migration_send_error(&e));
    assert_eq!(next_retry(1, 200, &e), None);

    let (mut session, _) = SendSession::new(MemoryMigrationMode::Delta);
    session.step(SendEvent::CacheChecked { has_cache: true });
    session.step(SendEvent::Prepared);
    let action = session.step(SendEvent::SendFailed { err: e });
    assert!(matches!(action, SendAction::Fail { err: KafuError::WasmMigrationError(_) }));
    assert_eq!(session.attempt, 1);
    assert_eq!(cache.as_ref().unwrap().snapify, vec![9u8; P]);
}

#[test]
fn missing_memory_and_zero_pages_are_invalid() {
    let sha = wasm_sha256(b"m");
    let mut cache = None;
    let r = handle_migrate_request(request(sha.clone(), None, Some(image(vec![1], 1))), &sha, &mut cache);
    assert_eq!(r.unwrap_err().code, RpcCode::InvalidArgument);
    let r = handle_migrate_request(request(sha.clone(), Some(image(vec![1], 0)), Some(image(vec![1], 1))), &sha, &mut cache);
    assert_eq!(r.unwrap_err().code, RpcCode::InvalidArgument);
    let r = handle_migrate_request(request(sha.clone(), Some(image(vec![], 1)), Some(image(vec![1], 1))), &sha, &mut cache);
    assert_eq!(r.unwrap_err().code, RpcCode::InvalidArgument);
    let r = handle_migrate_request(request(sha.clone(), Some(image(vec![1; P + 1], 1)), Some(image(vec![1], 1))), &sha, &mut cache);
    assert_eq!(r.unwrap_err().code, RpcCode::InvalidArgument);
    assert!(cache.is_none());
}

#[test]
fn delta_without_baseline_is_a_failed_precondition() {
    let sha = wasm_sha256(b"m");
    let mut main = image(vec![], 1);
    main.delta_pages.push(MemoryDeltaPage { page_index: 0, data: vec![0u8; P], data_compressed: false });
    let mut cache = None;
    let r = handle_migrate_request(request(sha.clone(), Some(main), Some(image(vec![], 1))), &sha, &mut cache);
    assert_eq!(r.unwrap_err().code, RpcCode::FailedPrecondition);
}

#[test]
fn bad_delta_pages_are_invalid() {
    let sha = wasm_sha256(b"m");
    let base = Some(SnapshotCacheEntry { main: vec![0u8; P], snapify: vec![0u8; P] });
    for page in [
        MemoryDeltaPage { page_index: 1, data: vec![0u8; P], data_compressed: false },
        MemoryDeltaPage { page_index: 0, data: vec![0u8; 10], data_compressed: false },
        MemoryDeltaPage { page_index: 0, data: vec![1, 2], data_compressed: true },
    ] {
        let mut main = image(vec![], 1);
        main.delta_pages.push(page);
        let mut cache = base.clone();
        let r = handle_migrate_request(request(sha.clone(), Some(main), Some(image(vec![], 1))), &sha, &mut cache);
        assert_eq!(r.unwrap_err().code, RpcCode::InvalidArgument);
        assert_eq!(cache.as_ref().unwrap().main, vec![0u8; P]);
    }
}

fn hop_with_growth(compression: bool) {
    let sha = wasm_sha256(b"guest");
    let baseline_main = vec![0u8; P];
    let baseline_snapify = vec![0u8; P];
    let mut sender_cache = Some(SnapshotCacheEntry { main: baseline_main.clone(), snapify: baseline_snapify.clone() });
    let mut receiver_cache = sender_cache.clone();

    let mut current = vec![0u8; 3 * P];
    current[0] = 0x01;
    for b in &mut current[2 * P..] {
        *b = 0xAA;
    }
    let main_delta = compute_memory_delta_pages(&baseline_main, &current);
    let snapify_delta = compute_memory_delta_pages(&baseline_snapify, &baseline_snapify);
    let main_pages: Vec<u32> = main_delta.iter().map(|(i, _)| *i).collect();
    assert_eq!(main_pages, vec![0, 1, 2]);

    let prepared = prepare_delta_request(main_delta, snapify_delta, current.len(), P, &sha, &stack(), compression).unwrap();
    let img = prepared.req.main_memory.as_ref().unwrap();
    assert_eq!(img.pages, 3);
    assert!(img.data.is_empty());
    assert_eq!(img.delta_pages.iter().all(|p| p.data_compressed), compression);

    let plan = handle_migrate_request(prepared.req, &sha, &mut receiver_cache).unwrap();
    assert_eq!(plan.main_memory, current);
    assert_eq!(plan.snapify_memory, baseline_snapify);
    assert_eq!(plan.migration_stack.len(), 1);
    assert_eq!(plan.migration_stack[0].from_node_id, "n1");

    apply_cache_update(&mut sender_cache, prepared.cache_update);
    let s = sender_cache.unwrap();
    let r = receiver_cache.unwrap();
    assert_eq!(s.main, r.main);
    assert_eq!(s.snapify, r.snapify);
    assert_eq!(r.main, current);
}

#[test]
fn delta_hop_under_growth_compressed() {
    hop_with_growth(true);
}

#[test]
fn delta_hop_under_growth_uncompressed() {
    hop_with_growth(false);
}

#[test]
fn full_hop_then_delta_back() {
    let sha = wasm_sha256(b"guest");
    let mut n1_cache: Option<SnapshotCacheEntry> = None;
    let mut n2_cache: Option<SnapshotCacheEntry> = None;
    let mut main = vec![0u8; 2 * P];
    main[100] = 5;
    let snapify = vec![3u8; P];
    assert!(!should_send_delta(MemoryMigrationMode::Delta, n2_cache.is_some()));
    let prepared = prepare_full_snapshot_request(main.clone(), snapify.clone(), &sha, &[], true);
    assert!(prepared.req.main_memory.as_ref().unwrap().compressed);
    assert!(prepared.req.snapify_memory.as_ref().unwrap().compressed);
    let raw = prepare_full_snapshot_request(main.clone(), snapify.clone(), &sha, &[], false);
    assert!(!raw.req.main_memory.as_ref().unwrap().compressed);
    assert!(!raw.req.snapify_memory.as_ref().unwrap().compressed);
    assert_eq!(raw.req.snapify_memory.as_ref().unwrap().data, snapify);
    let plan = handle_migrate_request(prepared.req, &sha, &mut n2_cache).unwrap();
    assert_eq!(check_migrate_response(MigrateResponse { success: true }).is_ok(), true);
    apply_cache_update(&mut n1_cache, prepared.cache_update);
    assert_eq!(plan.main_memory, main);
    assert_eq!(n1_cache.as_ref().unwrap().main, n2_cache.as_ref().unwrap().main);

    // n2 runs, changes page 1, and sends a delta back to n1.
    let mut after = plan.main_memory.clone();
    after[P + 1] = 7;
    assert!(should_send_delta(MemoryMigrationMode::Delta, n1_cache.is_some()));
    let d = compute_memory_delta_pages(&plan.main_memory, &after);
    let s = compute_memory_delta_pages(&plan.snapify_memory, &plan.snapify_memory);
    let back = prepare_delta_request(d, s, after.len(), P, &sha, &[], true).unwrap();
    let plan_back = handle_migrate_request(back.req, &sha, &mut n1_cache).unwrap();
    assert_eq!(plan_back.main_memory, after);
    apply_cache_update(&mut n2_cache, back.cache_update);
    assert_eq!(n1_cache.unwrap().main, n2_cache.unwrap().main);
}

#[test]
fn unchanged_memories_fall_back_to_full() {
    assert!(prepare_delta_request(vec![], vec![], P, P, &[0u8; 32], &[], true).is_none());
    assert!(!should_send_delta(MemoryMigrationMode::Full, true));
}

#[test]
fn delta_update_without_baseline_leaves_cache_empty() {
    let mut cache: Option<SnapshotCacheEntry> = None;
    apply_cache_update(&mut cache, CacheUpdate::Delta {
        main_len: P,
        snapify_len: P,
        main_delta_pages_raw: vec![(0, vec![1u8; P])],
        snapify_delta_pages_raw: vec![],
    });
    assert!(cache.is_none());
}

#[test]
fn retry_policy_backs_off_and_gives_up() {
    let transient = KafuError::GrpcTransportError("connect".to_string());
    assert_eq!(next_retry(1, 200, &transient), Some((2, 200, 400)));
    assert_eq!(next_retry(4, 1600, &transient), Some((5, 1600, 2000)));
    assert_eq!(next_retry(5, 2000, &transient), None);
    assert!(is_retryable_migration_send_error(&status(RpcCode::Unavailable)));
    assert!(is_retryable_migration_send_error(&status(RpcCode::DeadlineExceeded)));
    assert!(is_retryable_migration_send_error(&status(RpcCode::Unknown)));
    assert!(!is_retryable_migration_send_error(&status(RpcCode::InvalidArgument)));
    assert!(!is_retryable_migration_send_error(&KafuError::WasmMigrationError("x".to_string())));
    assert!(check_migrate_response(MigrateResponse { success: false }).is_err());
}
