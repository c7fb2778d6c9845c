use kafu::metadata::{go, KafuFunctionMetadata, KafuModuleMetadata, MetadataError, WasmModule, parse_dest_section_name, DestSectionName};
use kafu::runtime_config::LinkerSnapifyConfig;
use kafu::stack::{handle_migration_point, InterruptReason, MigrationContext, MigrationPointError};
use kafu::store::KafuStore;
use std::collections::HashMap;

fn metadata_with(idx: u32, dest: Option<&str>) -> KafuModuleMetadata {
    let mut functions = HashMap::new();
    functions.insert(idx, KafuFunctionMetadata { name: Some("f".to_string()), dest: dest.map(|d| d.to_string()) });
    KafuModuleMetadata { functions }
}

#[test]
fn interrupt_reason_codes() {
    assert_eq!(InterruptReason::new(0), InterruptReason::FuncEntry);
    assert_eq!(InterruptReason::new(1), InterruptReason::FuncExit);
}

#[test]
fn entry_then_exit_returns_home_and_empties_stack() {
    let md = metadata_with(3, Some("n2"));
    let mut ctx = MigrationContext::new();
    let p = handle_migration_point(&mut ctx, &md, 3, "n1", InterruptReason::FuncEntry, 0).unwrap().unwrap();
    assert_eq!(p.to_node_id, "n2");
    assert_eq!(p.reason, InterruptReason::FuncEntry);
    assert_eq!(ctx.get_migration_stack().len(), 1);
    assert_eq!(ctx.get_migration_stack()[0].from_node_id, "n1");
    let back = handle_migration_point(&mut ctx, &md, 3, "n2", InterruptReason::FuncExit, 0).unwrap().unwrap();
    assert_eq!(back.to_node_id, "n1");
    assert!(ctx.get_migration_stack().is_empty());
}

#[test]
fn no_migration_to_self_or_without_destination() {
    let md = metadata_with(3, Some("n1"));
    let mut ctx = MigrationContext::new();
    assert!(handle_migration_point(&mut ctx, &md, 3, "n1", InterruptReason::FuncEntry, 0).unwrap().is_none());
    assert!(ctx.get_migration_stack().is_empty());
    let md2 = metadata_with(3, None);
    assert!(handle_migration_point(&mut ctx, &md2, 3, "n1", InterruptReason::FuncEntry, 0).unwrap().is_none());
    assert!(handle_migration_point(&mut ctx, &md2, 3, "n1", InterruptReason::FuncExit, 0).unwrap().is_none());
    assert_eq!(
        handle_migration_point(&mut ctx, &md2, 4, "n1", InterruptReason::FuncEntry, 0).unwrap_err(),
        MigrationPointError::MetadataNotFound
    );
}

#[test]
fn exit_at_other_height_is_inner_recursion() {
    let md = metadata_with(3, Some("n2"));
    let mut ctx = MigrationContext::new();
    handle_migration_point(&mut ctx, &md, 3, "n1", InterruptReason::FuncEntry, 4).unwrap().unwrap();
    assert!(!ctx.should_migrate("n2", InterruptReason::FuncExit, 5, "n1"));
    assert!(ctx.should_migrate("n2", InterruptReason::FuncExit, 4, "n1"));
    assert!(handle_migration_point(&mut ctx, &md, 3, "n2", InterruptReason::FuncExit, 5).unwrap().is_none());
    assert_eq!(ctx.get_migration_stack().len(), 1);
}

#[test]
fn hook_suspends_or_switches_node() {
    let mut store = KafuStore::new("n1".to_string(), metadata_with(3, Some("n2")));
    assert_eq!(store.should_checkpoint(3, 0, LinkerSnapifyConfig::Enabled), Ok(1));
    assert!(store.has_pending_migration_request());
    let p = store.take_pending_migration_request().unwrap();
    assert_eq!(p.to_node_id, "n2");
    assert!(!store.has_pending_migration_request());

    let mut single = KafuStore::new("n1".to_string(), metadata_with(3, Some("n2")));
    assert_eq!(single.should_checkpoint(3, 0, LinkerSnapifyConfig::Dummy), Ok(0));
    assert_eq!(single.get_node_id(), "n2");
    assert!(!single.has_pending_migration_request());
    assert_eq!(single.should_checkpoint(3, 1, LinkerSnapifyConfig::Dummy), Ok(0));
    assert_eq!(single.get_node_id(), "n1");
    assert_eq!(
        single.should_checkpoint(9, 0, LinkerSnapifyConfig::Enabled),
        Err(MigrationPointError::MetadataNotFound)
    );
    assert_eq!(single.should_checkpoint(9, 0, LinkerSnapifyConfig::Disabled), Ok(0));
}

#[test]
fn store_deltas_need_a_baseline() {
    let mut store = KafuStore::new("n1".to_string(), metadata_with(3, None));
    assert!(store.checkpoint_delta_pages(&[0u8; 4], &[0u8; 4]).is_none());
    store.record_restore(vec![], vec![0u8; 4], vec![1u8; 4]);
    let (m, s, ml, sl) = store.checkpoint_delta_pages(&[0u8, 0, 0, 1], &[1u8; 4]).unwrap();
    assert_eq!(m, vec![(0u32, vec![0u8, 0, 0, 1])]);
    assert!(s.is_empty());
    assert_eq!((ml, sl), (4, 4));
    assert!(store.get_snapshot_main_memory_delta(&[0u8; 4]).unwrap().is_empty());
}

fn module_bytes(custom: &str) -> Vec<u8> {
    let mut m = vec![0x00, 0x61, 0x73, 0x6d, 0x01, 0x00, 0x00, 0x00];
    m.extend_from_slice(&[0x01, 0x04, 0x01, 0x60, 0x00, 0x00]);
    m.extend_from_slice(&[0x03, 0x02, 0x01, 0x00]);
    m.extend_from_slice(&[0x07, 0x05, 0x01, 0x01, b'f', 0x00, 0x00]);
    m.extend_from_slice(&[0x0a, 0x04, 0x01, 0x02, 0x00, 0x0b]);
    let name = custom.as_bytes();
    m.push(0x00);
    m.push((name.len() + 1) as u8);
    m.push(name.len() as u8);
    m.extend_from_slice(name);
    m
}

#[test]
fn metadata_from_annotation_sections() {
    let md = go(&module_bytes(".kafu_dest.f.n2")).unwrap();
    let f = md.functions.get(&0).unwrap();
    assert_eq!(f.name.as_deref(), Some("f"));
    assert_eq!(f.dest.as_deref(), Some("n2"));
    let module = WasmModule::new(module_bytes(".kafu_dest.f.n2.extra")).unwrap();
    assert_eq!(module.metadata.functions.get(&0).unwrap().dest.as_deref(), Some("n2"));
    assert!(go(&module_bytes("name")).unwrap().functions.is_empty());
}

#[test]
fn metadata_errors() {
    assert_eq!(go(&module_bytes(".kafu_dest.g.n2")).unwrap_err(), MetadataError::UnresolvedFunction);
    assert_eq!(go(&module_bytes(".kafu_dest.f")).unwrap_err(), MetadataError::MalformedAnnotation);
    assert_eq!(go(&[1, 2, 3]).unwrap_err(), MetadataError::Parse);
}

#[test]
fn annotation_names() {
    assert!(matches!(parse_dest_section_name(".kafu_dest.main.node-b"),
        DestSectionName::Annotation { ref ident, ref dest } if ident == "main" && dest == "node-b"));
    assert!(matches!(parse_dest_section_name(".kafu_dest.main"), DestSectionName::Malformed));
    assert!(matches!(parse_dest_section_name(".kafu_desk.a.b"), DestSectionName::Other));
}
