use kafu::liveness::{post_run_action, PostRunAction};
use kafu::memory::{compute_memory_delta_pages, MAIN_MEMORY_PAGE_SIZE};
use kafu::metadata::{KafuFunctionMetadata, KafuModuleMetadata};
use kafu::receiver::{handle_migrate_request, wasm_sha256, SnapshotCacheEntry};
use kafu::runtime_config::LinkerSnapifyConfig;
use kafu::sender::{apply_cache_update, copy_stack, prepare_delta_request, prepare_full_snapshot_request, should_send_delta};
use kafu::config::MemoryMigrationMode;
use kafu::store::KafuStore;
use std::collections::HashMap;

const P: usize = MAIN_MEMORY_PAGE_SIZE;

fn metadata() -> KafuModuleMetadata {
    let mut functions = HashMap::new();
    functions.insert(1u32, KafuFunctionMetadata { name: Some("f".to_string()), dest: Some("n2".to_string()) });
    KafuModuleMetadata { functions }
}

#[test]
fn two_node_hop_full_snapshot_and_back() {
    let sha = wasm_sha256(b"guest binary");
    let mut n1 = KafuStore::new("n1".to_string(), metadata());
    let mut n2 = KafuStore::new("n2".to_string(), metadata());
    let mut n1_cache: Option<SnapshotCacheEntry> = None;
    let mut n2_cache: Option<SnapshotCacheEntry> = None;

    // n1 calls f, annotated for n2: the hook suspends the guest.
    assert_eq!(n1.should_checkpoint(1, 0, LinkerSnapifyConfig::Enabled), Ok(1));
    assert_eq!(post_run_action(n1.has_pending_migration_request()), PostRunAction::SendMigration);
    let pending = n1.take_pending_migration_request().unwrap();
    assert_eq!(pending.to_node_id, "n2");

    // No baseline on n2: full snapshot.
    let mut main = vec![0u8; 2 * P];
    main[10] = 42;
    let snapify = vec![1u8; P];
    assert!(!should_send_delta(MemoryMigrationMode::Delta, n2_cache.is_some()));
    let stack = copy_stack(&n1.migration_ctx.migration_stack);
    let full = prepare_full_snapshot_request(main.clone(), snapify.clone(), &sha, &stack, true);
    let plan = handle_migrate_request(full.req, &sha, &mut n2_cache).unwrap();
    apply_cache_update(&mut n1_cache, full.cache_update);
    n2.record_restore(plan.migration_stack, plan.main_memory.clone(), plan.snapify_memory.clone());
    assert_eq!(n2.migration_ctx.migration_stack[0].from_node_id, "n1");

    // f returns on n2: back to n1, as a delta since n1 holds the baseline.
    assert_eq!(n2.should_checkpoint(1, 1, LinkerSnapifyConfig::Enabled), Ok(1));
    let back = n2.take_pending_migration_request().unwrap();
    assert_eq!(back.to_node_id, "n1");
    assert!(n2.migration_ctx.migration_stack.is_empty());
    let mut main2 = plan.main_memory.clone();
    main2[P + 3] = 9;
    let (md, sd, ml, sl) = n2.checkpoint_delta_pages(&main2, &plan.snapify_memory).unwrap();
    assert!(should_send_delta(MemoryMigrationMode::Delta, n1_cache.is_some()));
    let delta = prepare_delta_request(md, sd, ml, sl, &sha, &n2.migration_ctx.migration_stack, true).unwrap();
    let plan_back = handle_migrate_request(delta.req, &sha, &mut n1_cache).unwrap();
    apply_cache_update(&mut n2_cache, delta.cache_update);
    assert_eq!(plan_back.main_memory, main2);
    assert_eq!(n1_cache.as_ref().unwrap().main, n2_cache.as_ref().unwrap().main);
    n1.record_restore(plan_back.migration_stack, plan_back.main_memory, plan_back.snapify_memory);

    // The program finishes on n1: cluster shutdown.
    assert!(n1.migration_ctx.migration_stack.is_empty());
    assert_eq!(post_run_action(n1.has_pending_migration_request()), PostRunAction::ShutdownCluster);
    assert_eq!(compute_memory_delta_pages(&main2, &main2).len(), 0);
}
