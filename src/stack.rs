//! The migration stack and the decision taken at each migration point.
use vstd::prelude::*;

use crate::metadata::{KafuFunctionMetadata, KafuModuleMetadata};

verus! {

broadcast use vstd::std_specs::hash::group_hash_axioms;

/// Pair of a WASM stack height and the node that the guest left from.
#[derive(Debug, Clone)]
pub struct MigrationStackEntry {
    pub from_node_id: String,
    pub wasm_stack_height: u32,
}

/// Why the guest called the migration hook.
#[derive(Debug, Clone, Copy, PartialEq, Eq, Structural)]
pub enum InterruptReason {
    /// An annotated function is entered.
    FuncEntry,
    /// An annotated function returns.
    FuncExit,
}

impl InterruptReason {
    /// Reads the hook's argument: 0 on entry, 1 on exit.
    pub fn new(reason: i32) -> (r: Self)
        requires
            reason == 0 || reason == 1,
        ensures
            r == (if reason == 0 {
                InterruptReason::FuncEntry
            } else {
                InterruptReason::FuncExit
            }),
    {
        if reason == 0 {
            InterruptReason::FuncEntry
        } else {
            InterruptReason::FuncExit
        }
    }
}

/// A migration that the hook asked for and the host has not sent yet.
#[derive(Debug, Clone)]
pub struct PendingMigration {
    /// Metadata of the annotated function.
    pub func: KafuFunctionMetadata,
    /// Node that the guest moves to.
    pub to_node_id: String,
    /// Hook event that asked for the migration.
    pub reason: InterruptReason,
}

/// Migration state of one runtime: the pending request and the migration stack.
pub struct MigrationContext {
    pub pending_migration_request: Option<PendingMigration>,
    /// One entry per migration on entry that has not come back yet; the top
    /// names the node that a return must go back to.
    pub migration_stack: Vec<MigrationStackEntry>,
}

/// The stack as plain values: `(from_node_id, wasm_stack_height)` per entry.
pub open spec fn stack_view(s: Seq<MigrationStackEntry>) -> Seq<(Seq<char>, u32)> {
    Seq::new(s.len(), |k: int| (s[k].from_node_id@, s[k].wasm_stack_height))
}

/// Whether the hook event moves the guest from `from` to `to`, given the stack.
pub open spec fn should_migrate_spec(
    stack: Seq<(Seq<char>, u32)>,
    from: Seq<char>,
    reason: InterruptReason,
    height: u32,
    to: Seq<char>,
) -> bool {
    from != to && match reason {
        InterruptReason::FuncEntry => true,
        InterruptReason::FuncExit => stack.len() > 0 && stack.last().1 == height,
    }
}

/// The stack after a migration: pushed on entry, popped on exit.
pub open spec fn stack_after(
    stack: Seq<(Seq<char>, u32)>,
    from: Seq<char>,
    reason: InterruptReason,
    height: u32,
) -> Seq<(Seq<char>, u32)> {
    match reason {
        InterruptReason::FuncEntry => stack.push((from, height)),
        InterruptReason::FuncExit => if stack.len() > 0 {
            stack.drop_last()
        } else {
            stack
        },
    }
}

/// Where a hook event would send the guest: the annotation's destination on
/// entry, the node on top of the stack on exit; none when that is missing.
pub open spec fn intended_destination(
    stack: Seq<(Seq<char>, u32)>,
    dest: Option<Seq<char>>,
    reason: InterruptReason,
) -> Option<Seq<char>> {
    match reason {
        InterruptReason::FuncEntry => dest,
        InterruptReason::FuncExit => if stack.len() > 0 {
            Some(stack.last().0)
        } else {
            None
        },
    }
}

/// Whether two strings hold the same characters.
pub fn str_equal(a: &str, b: &str) -> (r: bool)
    ensures
        r == (a@ == b@),
{
    a.to_owned() == b.to_owned()
}

/// The hook could not be served.
#[derive(Debug, Clone, Copy, PartialEq, Eq, Structural)]
pub enum MigrationPointError {
    /// The calling function has no metadata.
    MetadataNotFound,
}

impl MigrationContext {
    /// A context with no pending request and an empty stack.
    pub fn new() -> (r: Self)
        ensures
            r.pending_migration_request is None,
            r.migration_stack@.len() == 0,
    {
        MigrationContext { pending_migration_request: None, migration_stack: Vec::new() }
    }

    pub fn get_migration_stack(&self) -> (r: &Vec<MigrationStackEntry>)
        ensures
            r == &self.migration_stack,
    {
        &self.migration_stack
    }

    /// Whether the event moves the guest from `from_node_id` to `to_node_id`:
    /// never to the node itself; on exit only when the height matches the top
    /// of the stack (a mismatch is an inner recursive call).
    pub fn should_migrate(
        &self,
        from_node_id: &str,
        reason: InterruptReason,
        current_wasm_stack_height: u32,
        to_node_id: &str,
    ) -> (r: bool)
        ensures
            r == should_migrate_spec(
                stack_view(self.migration_stack@),
                from_node_id@,
                reason,
                current_wasm_stack_height,
                to_node_id@,
            ),
    {
        if str_equal(from_node_id, to_node_id) {
            return false;
        }
        match reason {
            InterruptReason::FuncEntry => true,
            InterruptReason::FuncExit => {
                let n = self.migration_stack.len();
                if n == 0 {
                    false
                } else {
                    current_wasm_stack_height == self.migration_stack[n - 1].wasm_stack_height
                }
            },
        }
    }

    /// Records a migration on the stack: push on entry, pop on exit.
    pub fn on_migrate(
        &mut self,
        from_node_id: &str,
        reason: InterruptReason,
        current_wasm_stack_height: u32,
    )
        ensures
            stack_view(final(self).migration_stack@) == stack_after(
                stack_view(old(self).migration_stack@),
                from_node_id@,
                reason,
                current_wasm_stack_height,
            ),
            final(self).pending_migration_request == old(self).pending_migration_request,
    {
        let ghost s0 = self.migration_stack@;
        match reason {
            InterruptReason::FuncEntry => {
                self.migration_stack.push(
                    MigrationStackEntry {
                        from_node_id: from_node_id.to_owned(),
                        wasm_stack_height: current_wasm_stack_height,
                    },
                );
                assert(stack_view(self.migration_stack@) =~= stack_view(s0).push(
                    (from_node_id@, current_wasm_stack_height),
                ));
            },
            InterruptReason::FuncExit => {
                if self.migration_stack.len() > 0 {
                    self.migration_stack.pop();
                    assert(stack_view(self.migration_stack@) =~= stack_view(s0).drop_last());
                }
            },
        }
    }
}

/// Serves the migration hook for the function `func_idx` that called it.
///
/// Fails when that function has no metadata. Otherwise it finds where the
/// event would send the guest; when there is such a node and the guest should
/// move there, it updates the stack and returns the pending migration, else it
/// returns `None` and changes nothing.
pub fn handle_migration_point(
    ctx: &mut MigrationContext,
    metadata: &KafuModuleMetadata,
    func_idx: u32,
    node_id: &str,
    reason: InterruptReason,
    current_wasm_stack_height: u32,
) -> (r: Result<Option<PendingMigration>, MigrationPointError>)
    ensures
        final(ctx).pending_migration_request == old(ctx).pending_migration_request,
        r is Err ==> final(ctx).migration_stack@ == old(ctx).migration_stack@,
        !metadata.functions@.contains_key(func_idx) ==> r == Err::<
            Option<PendingMigration>,
            MigrationPointError,
        >(MigrationPointError::MetadataNotFound),
        metadata.functions@.contains_key(func_idx) ==> {
            let meta = metadata.functions@[func_idx];
            let stack = stack_view(old(ctx).migration_stack@);
            let dest = intended_destination(
                stack,
                match meta.dest {
                    Some(d) => Some(d@),
                    None => None,
                },
                reason,
            );
            let go = dest is Some && should_migrate_spec(
                stack,
                node_id@,
                reason,
                current_wasm_stack_height,
                dest->0,
            );
            &&& r is Ok
            &&& go ==> {
                &&& r->Ok_0 is Some
                &&& r->Ok_0->0.to_node_id@ == dest->0
                &&& r->Ok_0->0.reason == reason
                &&& r->Ok_0->0.func.name == meta.name
                &&& r->Ok_0->0.func.dest == meta.dest
                &&& stack_view(final(ctx).migration_stack@) == stack_after(
                    stack,
                    node_id@,
                    reason,
                    current_wasm_stack_height,
                )
            }
            &&& !go ==> r->Ok_0 is None && final(ctx).migration_stack@ == old(
                ctx,
            ).migration_stack@
        },
{
    let meta = match metadata.functions.get(&func_idx) {
        Some(m) => m,
        None => {
            return Err(MigrationPointError::MetadataNotFound);
        },
    };
    let to_node_id: String = match reason {
        InterruptReason::FuncEntry => match &meta.dest {
            Some(d) => d.clone(),
            None => {
                return Ok(None);
            },
        },
        InterruptReason::FuncExit => {
            let n = ctx.migration_stack.len();
            if n == 0 {
                return Ok(None);
            }
            ctx.migration_stack[n - 1].from_node_id.clone()
        },
    };
    let go = ctx.should_migrate(node_id, reason, current_wasm_stack_height, to_node_id.as_str());
    if go {
        let func = KafuFunctionMetadata { name: meta.name.clone(), dest: meta.dest.clone() };
        ctx.on_migrate(node_id, reason, current_wasm_stack_height);
        Ok(Some(PendingMigration { func, to_node_id, reason }))
    } else {
        Ok(None)
    }
}

} // verus!

verus! {

/// A migration event as the stack sees it: reason, node left from, stack height.
pub type StackEvent = (InterruptReason, Seq<char>, u32);

/// The stack after a run of migration events, applied in order.
pub open spec fn run_stack(s: Seq<(Seq<char>, u32)>, evs: Seq<StackEvent>) -> Seq<(Seq<char>, u32)>
    decreases evs.len(),
{
    if evs.len() == 0 {
        s
    } else {
        let e = evs.last();
        stack_after(run_stack(s, evs.drop_last()), e.1, e.0, e.2)
    }
}

/// Entries minus exits in a run of events.
pub open spec fn net_depth(evs: Seq<StackEvent>) -> int
    decreases evs.len(),
{
    if evs.len() == 0 {
        0
    } else {
        net_depth(evs.drop_last()) + match evs.last().0 {
            InterruptReason::FuncEntry => 1int,
            InterruptReason::FuncExit => -1int,
        }
    }
}

/// Every exit closes an earlier entry, and every entry is closed.
pub open spec fn balanced(evs: Seq<StackEvent>) -> bool {
    &&& net_depth(evs) == 0
    &&& forall|n: int| 0 <= n <= evs.len() ==> net_depth(#[trigger] evs.take(n)) >= 0
}

proof fn lemma_run_stack_grows(s: Seq<(Seq<char>, u32)>, evs: Seq<StackEvent>)
    requires
        forall|n: int| 0 <= n <= evs.len() ==> net_depth(#[trigger] evs.take(n)) >= 0,
    ensures
        run_stack(s, evs).len() == s.len() + net_depth(evs),
        run_stack(s, evs).take(s.len() as int) == s,
    decreases evs.len(),
{
    if evs.len() > 0 {
        let rest = evs.drop_last();
        assert forall|n: int| 0 <= n <= rest.len() implies net_depth(#[trigger] rest.take(n)) >= 0 by {
            assert(rest.take(n) =~= evs.take(n));
        }
        lemma_run_stack_grows(s, rest);
        assert(evs.take(evs.len() as int) =~= evs);
        assert(net_depth(evs.take(evs.len() as int)) >= 0);
        let prev = run_stack(s, rest);
        assert(prev.push((evs.last().1, evs.last().2)).take(s.len() as int) =~= prev.take(s.len() as int));
        if evs.last().0 == InterruptReason::FuncExit {
            assert(prev.drop_last().take(s.len() as int) =~= prev.take(s.len() as int));
        }
    }
}

/// Balanced migrations: a balanced run of entry and exit migrations leaves
/// the stack as it found it; from an empty stack, empty.
pub proof fn lemma_balanced_migrations_restore_stack(s: Seq<(Seq<char>, u32)>, evs: Seq<StackEvent>)
    requires
        balanced(evs),
    ensures
        run_stack(s, evs) == s,
{
    lemma_run_stack_grows(s, evs);
    assert(run_stack(s, evs) =~= run_stack(s, evs).take(s.len() as int));
}

/// Return target: after the guest migrates away from node `a` on entry at
/// height `h`, the exit at the same height sends it back to `a` (from any
/// other node), and that exit restores the stack.
pub proof fn lemma_exit_returns_to_entry_origin(
    s: Seq<(Seq<char>, u32)>,
    a: Seq<char>,
    h: u32,
    b: Seq<char>,
    annotated: Option<Seq<char>>,
)
    requires
        b != a,
    ensures
        intended_destination(stack_after(s, a, InterruptReason::FuncEntry, h), annotated, InterruptReason::FuncExit)
            == Some(a),
        should_migrate_spec(stack_after(s, a, InterruptReason::FuncEntry, h), b, InterruptReason::FuncExit, h, a),
        stack_after(stack_after(s, a, InterruptReason::FuncEntry, h), b, InterruptReason::FuncExit, h) == s,
{
    assert(s.push((a, h)).drop_last() =~= s);
}

} // verus!
