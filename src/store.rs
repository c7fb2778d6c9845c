//! Host-side state of a running guest: its node, the module's metadata, the
//! migration context, and the memories last restored, against which deltas
//! are computed.
use vstd::prelude::*;

use crate::memory::{compute_memory_delta_pages, max_delta_memory_len, memory_delta, vec_pages_view, SnapshotMemoryDelta};
use crate::metadata::KafuModuleMetadata;
use crate::runtime_config::LinkerSnapifyConfig;
use crate::stack::{
    handle_migration_point, intended_destination, should_migrate_spec, stack_after, stack_view,
    InterruptReason, MigrationContext, MigrationPointError, MigrationStackEntry, PendingMigration,
};

verus! {

/// Host-side state of a running guest.
pub struct KafuStore {
    /// The node that the guest runs on.
    pub node_id: String,
    pub metadata: KafuModuleMetadata,
    pub migration_ctx: MigrationContext,
    /// Main memory at the last restore.
    pub baseline_main_memory: Option<Vec<u8>>,
    /// Snapify memory at the last restore.
    pub baseline_snapify_memory: Option<Vec<u8>>,
}

/// Where a hook event in function `func_idx` sends the guest, at stack
/// height 0: the destination when the function has metadata, the event has
/// a destination, and the guest should move there.
pub open spec fn hook_destination(st: KafuStore, func_idx: u32, reason: InterruptReason) -> Option<Seq<char>> {
    if !st.metadata.functions@.contains_key(func_idx) {
        None
    } else {
        let meta = st.metadata.functions@[func_idx];
        let stack = stack_view(st.migration_ctx.migration_stack@);
        let dest = intended_destination(
            stack,
            match meta.dest {
                Some(d) => Some(d@),
                None => None,
            },
            reason,
        );
        if dest is Some && should_migrate_spec(stack, st.node_id@, reason, 0, dest->0) {
            dest
        } else {
            None
        }
    }
}

/// Delta of both memories against the baselines, and their current lengths.
pub type DeltaCheckpoint = (SnapshotMemoryDelta, SnapshotMemoryDelta, usize, usize);

impl KafuStore {
    /// A fresh store: no pending migration, an empty stack, no baselines.
    pub fn new(node_id: String, metadata: KafuModuleMetadata) -> (r: Self)
        ensures
            r.node_id == node_id,
            r.metadata == metadata,
            r.migration_ctx.pending_migration_request is None,
            r.migration_ctx.migration_stack@.len() == 0,
            r.baseline_main_memory is None,
            r.baseline_snapify_memory is None,
    {
        KafuStore {
            node_id,
            metadata,
            migration_ctx: MigrationContext::new(),
            baseline_main_memory: None,
            baseline_snapify_memory: None,
        }
    }

    pub fn get_node_id(&self) -> (r: &str)
        ensures
            r@ == self.node_id@,
    {
        self.node_id.as_str()
    }

    pub fn get_migration_ctx(&self) -> (r: &MigrationContext)
        ensures
            r == &self.migration_ctx,
    {
        &self.migration_ctx
    }

    pub fn has_pending_migration_request(&self) -> (r: bool)
        ensures
            r == self.migration_ctx.pending_migration_request is Some,
    {
        self.migration_ctx.pending_migration_request.is_some()
    }

    /// Takes the pending migration, leaving none.
    pub fn take_pending_migration_request(&mut self) -> (r: Option<PendingMigration>)
        ensures
            r == old(self).migration_ctx.pending_migration_request,
            final(self).migration_ctx.pending_migration_request is None,
            final(self).migration_ctx.migration_stack == old(self).migration_ctx.migration_stack,
            final(self).node_id == old(self).node_id,
    {
        self.migration_ctx.pending_migration_request.take()
    }

    /// Records a restore: the migration stack arrives with the guest, and the
    /// restored memories become the baselines.
    pub fn record_restore(
        &mut self,
        migration_stack: Vec<MigrationStackEntry>,
        main_memory: Vec<u8>,
        snapify_memory: Vec<u8>,
    )
        ensures
            final(self).migration_ctx.migration_stack == migration_stack,
            final(self).baseline_main_memory == Some(main_memory),
            final(self).baseline_snapify_memory == Some(snapify_memory),
            final(self).node_id == old(self).node_id,
            final(self).migration_ctx.pending_migration_request == old(self).migration_ctx.pending_migration_request,
    {
        self.migration_ctx.migration_stack = migration_stack;
        self.baseline_main_memory = Some(main_memory);
        self.baseline_snapify_memory = Some(snapify_memory);
    }

    /// Delta pages of `current_main_memory` against the main baseline, if there is one.
    pub fn get_snapshot_main_memory_delta(&self, current_main_memory: &[u8]) -> (r: Option<SnapshotMemoryDelta>)
        requires
            current_main_memory@.len() <= max_delta_memory_len(),
        ensures
            r is None <==> self.baseline_main_memory is None,
            r is Some ==> vec_pages_view(r->0@) == memory_delta(
                self.baseline_main_memory->0@,
                current_main_memory@,
            ),
    {
        match &self.baseline_main_memory {
            Some(b) => Some(compute_memory_delta_pages(b.as_slice(), current_main_memory)),
            None => None,
        }
    }

    /// Delta pages of `current_snapify_memory` against the snapify baseline, if there is one.
    pub fn get_snapshot_snapify_memory_delta(&self, current_snapify_memory: &[u8]) -> (r: Option<SnapshotMemoryDelta>)
        requires
            current_snapify_memory@.len() <= max_delta_memory_len(),
        ensures
            r is None <==> self.baseline_snapify_memory is None,
            r is Some ==> vec_pages_view(r->0@) == memory_delta(
                self.baseline_snapify_memory->0@,
                current_snapify_memory@,
            ),
    {
        match &self.baseline_snapify_memory {
            Some(b) => Some(compute_memory_delta_pages(b.as_slice(), current_snapify_memory)),
            None => None,
        }
    }

    /// Deltas of both checkpointed memories against the baselines, with the
    /// memories' lengths; `None` unless both baselines are there.
    pub fn checkpoint_delta_pages(&self, main: &[u8], snapify: &[u8]) -> (r: Option<DeltaCheckpoint>)
        requires
            main@.len() <= max_delta_memory_len(),
            snapify@.len() <= max_delta_memory_len(),
        ensures
            r is None <==> self.baseline_main_memory is None || self.baseline_snapify_memory is None,
            r matches Some((md, sd, ml, sl)) ==> {
                &&& vec_pages_view(md@) == memory_delta(self.baseline_main_memory->0@, main@)
                &&& vec_pages_view(sd@) == memory_delta(self.baseline_snapify_memory->0@, snapify@)
                &&& ml == main@.len()
                &&& sl == snapify@.len()
            },
    {
        if self.baseline_main_memory.is_none() || self.baseline_snapify_memory.is_none() {
            return None;
        }
        let main_delta = match self.get_snapshot_main_memory_delta(main) {
            Some(d) => d,
            None => {
                return None;
            },
        };
        let snapify_delta = match self.get_snapshot_snapify_memory_delta(snapify) {
            Some(d) => d,
            None => {
                return None;
            },
        };
        Some((main_delta, snapify_delta, main.len(), snapify.len()))
    }

    /// Serves the guest's `snapify.should_checkpoint(reason)` hook, called
    /// from function `func_idx`. When the event moves the guest (see
    /// `hook_destination`), the stack is updated and, with real migration, the
    /// migration is recorded as pending and the guest is told to suspend (1);
    /// in single-node emulation the node ID switches to the destination and
    /// the guest goes on (0). It fails, changing nothing, when the calling
    /// function has no metadata. Otherwise, and when the hook is not linked,
    /// the guest goes on (0) and nothing changes.
    pub fn should_checkpoint(&mut self, func_idx: u32, reason: i32, mode: LinkerSnapifyConfig) -> (r: Result<i32, MigrationPointError>)
        requires
            reason == 0 || reason == 1,
        ensures
            ({
                let ev = if reason == 0 {
                    InterruptReason::FuncEntry
                } else {
                    InterruptReason::FuncExit
                };
                let d = hook_destination(*old(self), func_idx, ev);
                let stack0 = stack_view(old(self).migration_ctx.migration_stack@);
                let missing = mode != LinkerSnapifyConfig::Disabled
                    && !old(self).metadata.functions@.contains_key(func_idx);
                &&& final(self).metadata == old(self).metadata
                &&& final(self).baseline_main_memory == old(self).baseline_main_memory
                &&& final(self).baseline_snapify_memory == old(self).baseline_snapify_memory
                &&& missing ==> {
                    &&& r == Err::<i32, MigrationPointError>(MigrationPointError::MetadataNotFound)
                    &&& final(self).node_id == old(self).node_id
                    &&& final(self).migration_ctx.migration_stack@ == old(self).migration_ctx.migration_stack@
                    &&& final(self).migration_ctx.pending_migration_request == old(self).migration_ctx.pending_migration_request
                }
                &&& (!missing && (mode == LinkerSnapifyConfig::Disabled || d is None)) ==> {
                    &&& r == Ok::<i32, MigrationPointError>(0)
                    &&& final(self).node_id == old(self).node_id
                    &&& final(self).migration_ctx.migration_stack@ == old(self).migration_ctx.migration_stack@
                    &&& final(self).migration_ctx.pending_migration_request == old(self).migration_ctx.pending_migration_request
                }
                &&& (mode != LinkerSnapifyConfig::Disabled && d is Some) ==> {
                    &&& stack_view(final(self).migration_ctx.migration_stack@) == stack_after(
                        stack0,
                        old(self).node_id@,
                        ev,
                        0,
                    )
                    &&& mode == LinkerSnapifyConfig::Enabled ==> {
                        &&& r == Ok::<i32, MigrationPointError>(1)
                        &&& final(self).node_id == old(self).node_id
                        &&& final(self).migration_ctx.pending_migration_request is Some
                        &&& final(self).migration_ctx.pending_migration_request->0.to_node_id@ == d->0
                        &&& final(self).migration_ctx.pending_migration_request->0.reason == ev
                    }
                    &&& mode == LinkerSnapifyConfig::Dummy ==> {
                        &&& r == Ok::<i32, MigrationPointError>(0)
                        &&& final(self).node_id@ == d->0
                        &&& final(self).migration_ctx.pending_migration_request == old(self).migration_ctx.pending_migration_request
                    }
                }
            }),
    {
        if mode == LinkerSnapifyConfig::Disabled {
            return Ok(0);
        }
        let reason = InterruptReason::new(reason);
        let node_id = self.node_id.clone();
        match handle_migration_point(&mut self.migration_ctx, &self.metadata, func_idx, node_id.as_str(), reason, 0) {
            Ok(Some(pending)) => {
                match mode {
                    LinkerSnapifyConfig::Dummy => {
                        self.node_id = pending.to_node_id;
                        Ok(0)
                    },
                    LinkerSnapifyConfig::Enabled => {
                        self.migration_ctx.pending_migration_request = Some(pending);
                        Ok(1)
                    },
                    LinkerSnapifyConfig::Disabled => Ok(0),
                }
            },
            Ok(None) => Ok(0),
            Err(e) => Err(e),
        }
    }
}

} // verus!
