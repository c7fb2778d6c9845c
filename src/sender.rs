//! The sending side of a migration: building a full or delta request, the
//! retry policy, and the baseline update once the peer has accepted.
use vstd::prelude::*;

use crate::compression::{
    build_delta_pages_payload, decoded_payload, delta_payload_matches, encode_payload,
    encoded_payload,
};
use crate::config::{find_node, node_entries, node_index, MemoryMigrationMode, NodeConfig};
use crate::error::{is_retryable_migration_send_error, is_retryable_spec, KafuError};
use crate::memory::{
    apply_delta_pages_in_place, apply_pages, page_size, page_start, pages_fit, rebuild,
    vec_pages_view, zero_extend, MAIN_MEMORY_PAGE_SIZE,
};
use crate::protocol::{MemoryImage, MigrateRequest, MigrateResponse};
use crate::receiver::{
    decoded_delta, delta_pages_valid, pages_len, reconstructed, SnapshotCacheEntry,
};
use crate::stack::{stack_view, MigrationStackEntry, PendingMigration};
use indexmap::IndexMap;

verus! {

/// Attempts at sending one migration request.
pub const MIGRATION_SEND_MAX_ATTEMPTS: usize = 5;

/// Pause before the first retry, in milliseconds.
pub const MIGRATION_SEND_INITIAL_BACKOFF_MS: u64 = 200;

/// Longest pause between retries, in milliseconds.
pub const MIGRATION_SEND_MAX_BACKOFF_MS: u64 = 2000;

/// How the sender's baseline changes once the peer has accepted the request.
#[derive(Debug)]
pub enum CacheUpdate {
    /// Write the sent pages over the baseline, grown to the memories' lengths.
    Delta {
        main_len: usize,
        snapify_len: usize,
        main_delta_pages_raw: Vec<(u32, Vec<u8>)>,
        snapify_delta_pages_raw: Vec<(u32, Vec<u8>)>,
    },
    /// Replace the baseline with the memories sent.
    Full { main: Vec<u8>, snapify: Vec<u8> },
}

/// A request ready to send, and the baseline update that its acceptance brings.
#[derive(Debug)]
pub struct PreparedMigration {
    pub req: MigrateRequest,
    pub cache_update: CacheUpdate,
}

/// Copies a migration stack entry by entry.
pub fn copy_stack(s: &[MigrationStackEntry]) -> (r: Vec<MigrationStackEntry>)
    ensures
        stack_view(r@) == stack_view(s@),
{
    let mut out: Vec<MigrationStackEntry> = Vec::new();
    let mut k: usize = 0;
    while k < s.len()
        invariant
            k <= s@.len(),
            out@.len() == k,
            stack_view(out@) == stack_view(s@.take(k as int)),
        decreases s@.len() - k,
    {
        let ghost before = out@;
        out.push(
            MigrationStackEntry {
                from_node_id: s[k].from_node_id.clone(),
                wasm_stack_height: s[k].wasm_stack_height,
            },
        );
        assert(out@[k as int].from_node_id@ == s@[k as int].from_node_id@);
        assert forall|j: int| 0 <= j < k implies out@[j] == before[j] && stack_view(before)[j]
            == stack_view(s@.take(k as int))[j] by {}
        assert(stack_view(out@) =~= stack_view(s@.take(k + 1)));
        k = k + 1;
    }
    assert(s@.take(s@.len() as int) =~= s@);
    out
}

/// A full image of `data` as sent under the given compression policy.
pub open spec fn is_full_image(img: MemoryImage, data: Seq<u8>, use_compression: bool) -> bool {
    &&& (img.data@, img.compressed) == encoded_payload(data, use_compression)
    &&& (img.data@.len() == 0 ==> data.len() == 0)
    &&& img.pages as int == (data.len() as int) / page_size()
    &&& img.delta_pages@.len() == 0
}

/// A delta image of a memory of `len` bytes carrying `raw` pages.
pub open spec fn is_delta_image(
    img: MemoryImage,
    raw: Seq<(u32, Vec<u8>)>,
    len: int,
    use_compression: bool,
) -> bool {
    &&& img.data@.len() == 0
    &&& !img.compressed
    &&& img.pages as int == len / page_size()
    &&& delta_payload_matches(raw, img.delta_pages@, use_compression)
}

fn full_image_of(data: &[u8], use_compression: bool) -> (r: MemoryImage)
    ensures
        is_full_image(r, data@, use_compression),
{
    let (payload, compressed) = encode_payload(data, use_compression);
    MemoryImage {
        data: payload,
        compressed,
        pages: (data.len() / MAIN_MEMORY_PAGE_SIZE) as u64,
        delta_pages: Vec::new(),
    }
}

fn copy_bytes(data: &[u8]) -> (r: Vec<u8>)
    ensures
        r@ == data@,
{
    let mut v: Vec<u8> = Vec::new();
    v.extend_from_slice(data);
    v
}

/// Builds a full-snapshot request: the main memory compressed when that
/// pays and compression is on, and likewise the snapify memory; on
/// acceptance the baseline becomes the two memories as they are.
pub fn prepare_full_snapshot_request(
    main_memory: Vec<u8>,
    snapify_memory: Vec<u8>,
    wasm_sha256: &[u8],
    migration_stack: &[MigrationStackEntry],
    use_compression: bool,
) -> (r: PreparedMigration)
    ensures
        r.req.wasm_sha256@ == wasm_sha256@,
        stack_view(r.req.migration_stack@) == stack_view(migration_stack@),
        r.req.main_memory is Some && is_full_image(
            r.req.main_memory->0,
            main_memory@,
            use_compression,
        ),
        r.req.snapify_memory is Some && is_full_image(
            r.req.snapify_memory->0,
            snapify_memory@,
            use_compression,
        ),
        r.cache_update matches CacheUpdate::Full { main, snapify } && main@ == main_memory@
            && snapify@ == snapify_memory@,
{
    let main_img = full_image_of(main_memory.as_slice(), use_compression);
    let snapify_img = full_image_of(snapify_memory.as_slice(), use_compression);
    let req = MigrateRequest {
        wasm_sha256: copy_bytes(wasm_sha256),
        migration_stack: copy_stack(migration_stack),
        main_memory: Some(main_img),
        snapify_memory: Some(snapify_img),
    };
    PreparedMigration {
        req,
        cache_update: CacheUpdate::Full { main: main_memory, snapify: snapify_memory },
    }
}

/// Builds a delta request from the pages that changed since the baseline;
/// `None` when no page changed, in which case a full snapshot is sent.
pub fn prepare_delta_request(
    main_delta: Vec<(u32, Vec<u8>)>,
    snapify_delta: Vec<(u32, Vec<u8>)>,
    main_len: usize,
    snapify_len: usize,
    wasm_sha256: &[u8],
    migration_stack: &[MigrationStackEntry],
    use_compression: bool,
) -> (r: Option<PreparedMigration>)
    ensures
        r is None <==> main_delta@.len() == 0 && snapify_delta@.len() == 0,
        r is Some ==> {
            let p = r->0;
            &&& p.req.wasm_sha256@ == wasm_sha256@
            &&& stack_view(p.req.migration_stack@) == stack_view(migration_stack@)
            &&& p.req.main_memory is Some && is_delta_image(
                p.req.main_memory->0,
                main_delta@,
                main_len as int,
                use_compression,
            )
            &&& p.req.snapify_memory is Some && is_delta_image(
                p.req.snapify_memory->0,
                snapify_delta@,
                snapify_len as int,
                use_compression,
            )
            &&& p.cache_update matches CacheUpdate::Delta {
                main_len: ml,
                snapify_len: sl,
                main_delta_pages_raw: md,
                snapify_delta_pages_raw: sd,
            } && ml == main_len && sl == snapify_len && md@ == main_delta@ && sd@ == snapify_delta@
        },
{
    if main_delta.len() == 0 && snapify_delta.len() == 0 {
        return None;
    }
    let main_pages = build_delta_pages_payload(main_delta.as_slice(), use_compression);
    let snapify_pages = build_delta_pages_payload(snapify_delta.as_slice(), use_compression);
    let req = MigrateRequest {
        wasm_sha256: copy_bytes(wasm_sha256),
        migration_stack: copy_stack(migration_stack),
        main_memory: Some(
            MemoryImage {
                data: Vec::new(),
                compressed: false,
                pages: (main_len / MAIN_MEMORY_PAGE_SIZE) as u64,
                delta_pages: main_pages,
            },
        ),
        snapify_memory: Some(
            MemoryImage {
                data: Vec::new(),
                compressed: false,
                pages: (snapify_len / MAIN_MEMORY_PAGE_SIZE) as u64,
                delta_pages: snapify_pages,
            },
        ),
    };
    Some(
        PreparedMigration {
            req,
            cache_update: CacheUpdate::Delta {
                main_len,
                snapify_len,
                main_delta_pages_raw: main_delta,
                snapify_delta_pages_raw: snapify_delta,
            },
        },
    )
}

/// Whether to try a delta: the policy asks for deltas and the peer holds a baseline.
pub fn should_send_delta(mode: MemoryMigrationMode, receiver_has_cache: bool) -> (r: bool)
    ensures
        r == (mode == MemoryMigrationMode::Delta && receiver_has_cache),
{
    match mode {
        MemoryMigrationMode::Delta => receiver_has_cache,
        MemoryMigrationMode::Full => false,
    }
}

/// Memory length after growing `len` bytes to at least `target`.
pub open spec fn grown_len(len: int, target: int) -> int {
    if target > len {
        target
    } else {
        len
    }
}

/// Brings the sender's baseline in step with what the peer now holds: a
/// delta is written over the baseline, grown to the memories' lengths (with
/// no baseline nothing changes, and the next send is full); a full snapshot
/// replaces it.
pub fn apply_cache_update(cache: &mut Option<SnapshotCacheEntry>, update: CacheUpdate)
    requires
        update matches CacheUpdate::Delta {
            main_delta_pages_raw: md,
            snapify_delta_pages_raw: sd,
            ..
        } ==> pages_fit(vec_pages_view(md@)) && pages_fit(vec_pages_view(sd@)),
    ensures
        match update {
            CacheUpdate::Delta {
                main_len,
                snapify_len,
                main_delta_pages_raw: md,
                snapify_delta_pages_raw: sd,
            } => match *old(cache) {
                None => *final(cache) is None,
                Some(e) => *final(cache) is Some && (*final(cache))->0.main@ == apply_pages(
                    zero_extend(e.main@, grown_len(e.main@.len() as int, main_len as int)),
                    vec_pages_view(md@),
                ) && (*final(cache))->0.snapify@ == apply_pages(
                    zero_extend(e.snapify@, grown_len(e.snapify@.len() as int, snapify_len as int)),
                    vec_pages_view(sd@),
                ),
            },
            CacheUpdate::Full { main, snapify } => *final(cache) is Some && (*final(cache))->0.main@
                == main@ && (*final(cache))->0.snapify@ == snapify@,
        },
{
    match update {
        CacheUpdate::Delta {
            main_len,
            snapify_len,
            main_delta_pages_raw,
            snapify_delta_pages_raw,
        } => {
            match cache {
                Some(entry) => {
                    apply_delta_pages_in_place(&mut entry.main, main_len, main_delta_pages_raw.as_slice());
                    apply_delta_pages_in_place(
                        &mut entry.snapify,
                        snapify_len,
                        snapify_delta_pages_raw.as_slice(),
                    );
                },
                None => {},
            }
        },
        CacheUpdate::Full { main, snapify } => {
            *cache = Some(SnapshotCacheEntry { main, snapify });
        },
    }
}

/// What to do after a failed send: `Some((next_attempt, pause_ms, next_backoff_ms))`
/// to try again, `None` to give up.
pub open spec fn retry_plan(attempt: usize, backoff_ms: u64, err: KafuError) -> Option<(usize, u64, u64)> {
    if attempt < MIGRATION_SEND_MAX_ATTEMPTS && is_retryable_spec(err) {
        Some(
            (
                (attempt + 1) as usize,
                backoff_ms,
                if 2 * backoff_ms > MIGRATION_SEND_MAX_BACKOFF_MS {
                    MIGRATION_SEND_MAX_BACKOFF_MS
                } else {
                    (2 * backoff_ms) as u64
                },
            ),
        )
    } else {
        None
    }
}

/// Decides whether attempt `attempt` (counted from 1), which failed with
/// `err`, is followed by another: only for a transient failure and fewer than
/// five attempts so far, after a pause of `backoff_ms`, which then doubles up
/// to two seconds.
pub fn next_retry(attempt: usize, backoff_ms: u64, err: &KafuError) -> (r: Option<(usize, u64, u64)>)
    ensures
        r == retry_plan(attempt, backoff_ms, *err),
{
    if attempt < MIGRATION_SEND_MAX_ATTEMPTS && is_retryable_migration_send_error(err) {
        let next_backoff = if backoff_ms > MIGRATION_SEND_MAX_BACKOFF_MS / 2 {
            MIGRATION_SEND_MAX_BACKOFF_MS
        } else {
            backoff_ms * 2
        };
        Some((attempt + 1, backoff_ms, next_backoff))
    } else {
        None
    }
}

/// Reads the peer's reply to a delivered request.
pub fn check_migrate_response(res: MigrateResponse) -> (r: Result<(), KafuError>)
    ensures
        r is Ok <==> res.success,
        r is Err ==> r->Err_0 is WasmMigrationError,
{
    if res.success {
        Ok(())
    } else {
        Err(KafuError::WasmMigrationError("peer returned failure".to_owned()))
    }
}

} // verus!

verus! {

/// The payload of `data` decodes back to `data` after encoding under the policy.
pub open spec fn payload_round_trips(data: Seq<u8>, use_compression: bool) -> bool {
    decoded_payload(encoded_payload(data, use_compression).0, encoded_payload(data, use_compression).1)
        == Some(data)
}

/// A memory length that the wire can carry: a positive whole number of pages.
pub open spec fn page_aligned_len(len: int) -> bool {
    0 < len <= usize::MAX && len % page_size() == 0
}

/// Raw delta pages as the sender takes them from a page-aligned memory of
/// `len` bytes over `baseline`: whole pages inside the memory, each of which
/// decodes back to itself after encoding.
pub open spec fn sound_delta(
    baseline: Seq<u8>,
    raw: Seq<(u32, Vec<u8>)>,
    len: int,
    use_compression: bool,
) -> bool {
    &&& page_aligned_len(len)
    &&& baseline.len() <= len
    &&& forall|k: int|
        0 <= k < raw.len() ==> {
            &&& (#[trigger] raw[k]).1@.len() == page_size()
            &&& page_start(raw[k].0 as int) + page_size() <= len
            &&& payload_round_trips(raw[k].1@, use_compression)
        }
}

proof fn lemma_pages_of_aligned(len: int)
    requires
        page_aligned_len(len),
    ensures
        (len / page_size()) * page_size() == len,
        len / page_size() <= u64::MAX,
{
    assert((len / 65536) * 65536 == len) by (nonlinear_arith)
        requires
            len % 65536 == 0,
    ;
}

proof fn lemma_max_page_end_within(d: Seq<(u32, Seq<u8>)>, len: int)
    requires
        forall|k: int| 0 <= k < d.len() ==> page_start(d[k].0 as int) + d[k].1.len() <= len,
        0 <= len,
    ensures
        crate::memory::max_page_end(d) <= len,
    decreases d.len(),
{
    if d.len() > 0 {
        lemma_max_page_end_within(d.drop_last(), len);
    }
}

/// The receiver rebuilds one memory of a delta image to exactly what the
/// sender's baseline becomes.
proof fn lemma_delta_image_consistency(
    baseline: Seq<u8>,
    raw: Seq<(u32, Vec<u8>)>,
    len: int,
    use_compression: bool,
    img: MemoryImage,
)
    requires
        is_delta_image(img, raw, len, use_compression),
        sound_delta(baseline, raw, len, use_compression),
    ensures
        pages_len(img.pages) == len,
        reconstructed(img, baseline, len) == Some(
            apply_pages(zero_extend(baseline, grown_len(baseline.len() as int, len)), vec_pages_view(raw)),
        ),
{
    lemma_pages_of_aligned(len);
    let d = decoded_delta(img);
    let v = vec_pages_view(raw);
    assert forall|k: int| 0 <= k < raw.len() implies d[k] == v[k] by {
        let p = img.delta_pages@[k];
        assert(p.page_index == raw[k].0);
        assert((p.data@, p.data_compressed) == encoded_payload(raw[k].1@, use_compression));
        assert(payload_round_trips(raw[k].1@, use_compression));
    }
    assert(d =~= v);
    if raw.len() > 0 {
        assert forall|k: int| 0 <= k < img.delta_pages@.len() implies {
            let p = #[trigger] img.delta_pages@[k];
            &&& (p.page_index as int) < img.pages
            &&& decoded_payload(p.data@, p.data_compressed) is Some
            &&& decoded_payload(p.data@, p.data_compressed)->0.len() == page_size()
            &&& page_start(p.page_index as int) + page_size() <= len
        } by {
            let p = img.delta_pages@[k];
            assert(p.page_index == raw[k].0);
            assert((p.data@, p.data_compressed) == encoded_payload(raw[k].1@, use_compression));
            assert(payload_round_trips(raw[k].1@, use_compression));
            assert(page_start(raw[k].0 as int) + page_size() <= len);
            assert((p.page_index as int) < img.pages) by (nonlinear_arith)
                requires
                    p.page_index * 65536 + 65536 <= len,
                    img.pages as int == len / 65536,
                    page_aligned_len(len),
            ;
        }
        assert(delta_pages_valid(img, len));
        lemma_max_page_end_within(v, len);
        assert(zero_extend(zero_extend(baseline, len), len) =~= zero_extend(baseline, len));
        assert(rebuild(zero_extend(baseline, len), d, len) == apply_pages(zero_extend(baseline, len), v));
    } else {
        assert(v =~= Seq::<(u32, Seq<u8>)>::empty());
    }
}

/// Cache consistency for a delta send: when both nodes hold the same
/// baseline, the receiver accepts a delta request built from sound pages and
/// rebuilds exactly the memories to which the sender's baseline update brings
/// its own copy.
pub proof fn lemma_cache_consistency_delta(
    req: MigrateRequest,
    local_sha256: Seq<u8>,
    base: SnapshotCacheEntry,
    main_delta: Seq<(u32, Vec<u8>)>,
    snapify_delta: Seq<(u32, Vec<u8>)>,
    main_len: int,
    snapify_len: int,
    use_compression: bool,
)
    requires
        req.wasm_sha256@ == local_sha256,
        req.main_memory is Some && is_delta_image(req.main_memory->0, main_delta, main_len, use_compression),
        req.snapify_memory is Some && is_delta_image(
            req.snapify_memory->0,
            snapify_delta,
            snapify_len,
            use_compression,
        ),
        main_delta.len() > 0 || snapify_delta.len() > 0,
        sound_delta(base.main@, main_delta, main_len, use_compression),
        sound_delta(base.snapify@, snapify_delta, snapify_len, use_compression),
    ensures
        migrate_outcome_is(req, local_sha256, Some(base), apply_pages(
            zero_extend(base.main@, grown_len(base.main@.len() as int, main_len)),
            vec_pages_view(main_delta),
        ), apply_pages(
            zero_extend(base.snapify@, grown_len(base.snapify@.len() as int, snapify_len)),
            vec_pages_view(snapify_delta),
        )),
{
    lemma_delta_image_consistency(base.main@, main_delta, main_len, use_compression, req.main_memory->0);
    lemma_delta_image_consistency(
        base.snapify@,
        snapify_delta,
        snapify_len,
        use_compression,
        req.snapify_memory->0,
    );
    lemma_pages_of_aligned(main_len);
    lemma_pages_of_aligned(snapify_len);
}

/// The request is accepted on a node with digest `sha` and baseline `cache`,
/// rebuilding `main` and `snapify`.
pub open spec fn migrate_outcome_is(
    req: MigrateRequest,
    sha: Seq<u8>,
    cache: Option<SnapshotCacheEntry>,
    main: Seq<u8>,
    snapify: Seq<u8>,
) -> bool {
    crate::receiver::migrate_outcome(req, sha, cache) == Ok::<(Seq<u8>, Seq<u8>), crate::protocol::RpcCode>((main, snapify))
}

/// Cache consistency for a full send: a full request of page-aligned
/// memories whose payloads decode back is accepted on any node with the
/// same digest, which rebuilds exactly the memories that become the sender's
/// baseline.
pub proof fn lemma_cache_consistency_full(
    req: MigrateRequest,
    local_sha256: Seq<u8>,
    cache: Option<SnapshotCacheEntry>,
    main: Seq<u8>,
    snapify: Seq<u8>,
    use_compression: bool,
)
    requires
        req.wasm_sha256@ == local_sha256,
        req.main_memory is Some && is_full_image(req.main_memory->0, main, use_compression),
        req.snapify_memory is Some && is_full_image(req.snapify_memory->0, snapify, use_compression),
        page_aligned_len(main.len() as int),
        page_aligned_len(snapify.len() as int),
        payload_round_trips(main, use_compression),
        payload_round_trips(snapify, use_compression),
    ensures
        migrate_outcome_is(req, local_sha256, cache, main, snapify),
{
    lemma_pages_of_aligned(main.len() as int);
    lemma_pages_of_aligned(snapify.len() as int);
    let mi = req.main_memory->0;
    let si = req.snapify_memory->0;
    assert(mi.pages > 0) by (nonlinear_arith)
        requires
            mi.pages as int == main.len() / 65536,
            page_aligned_len(main.len() as int),
    ;
    assert(si.pages > 0) by (nonlinear_arith)
        requires
            si.pages as int == snapify.len() / 65536,
            page_aligned_len(snapify.len() as int),
    ;
    assert(zero_extend(main, main.len() as int) =~= main);
    assert(zero_extend(snapify, snapify.len() as int) =~= snapify);
}

} // verus!

verus! {

/// Where a migration send stands.
#[derive(Debug, Clone, Copy, PartialEq, Eq, Structural)]
pub enum SendPhase {
    /// Asking the peer whether it holds a baseline.
    Negotiating,
    /// Checkpointing the guest; `delta` when a delta is tried.
    Checkpointing { delta: bool },
    /// The request is on its way.
    Delivering,
    /// Waiting before the next attempt.
    BackingOff,
    /// The peer accepted; the baseline is brought in step.
    Done,
    /// The send failed for good.
    Failed,
}

/// What happened since the last step.
#[derive(Debug, Clone)]
pub enum SendEvent {
    /// The peer said whether it holds a baseline (`false` also when the question failed).
    CacheChecked { has_cache: bool },
    /// No delta can be made (no local baseline, or no page changed).
    DeltaUnavailable,
    /// The request is built.
    Prepared,
    /// The peer answered the request.
    Delivered { success: bool },
    /// The request did not get through.
    SendFailed { err: KafuError },
    /// The pause before the next attempt is over.
    BackoffElapsed,
}

/// What the node does next.
#[derive(Debug, Clone)]
pub enum SendAction {
    CheckSnapshotCache,
    CheckpointDelta,
    CheckpointFull,
    SendRequest,
    /// Pause for `ms` milliseconds, then report `BackoffElapsed`.
    Sleep { ms: u64 },
    /// Apply the prepared baseline update: the peer accepted.
    CommitCacheUpdate,
    Fail { err: KafuError },
    /// Nothing to do for this event in this phase.
    Ignore,
}

/// State of one migration send: attempt number (from 1), pause before the
/// next retry, and phase.
#[derive(Debug, Clone, Copy, PartialEq, Eq, Structural)]
pub struct SendSession {
    pub mode: MemoryMigrationMode,
    pub attempt: usize,
    pub backoff_ms: u64,
    pub phase: SendPhase,
}

/// The session's next state after an event.
pub open spec fn send_next(s: SendSession, e: SendEvent) -> SendSession {
    match (s.phase, e) {
        (SendPhase::Negotiating, SendEvent::CacheChecked { has_cache }) => SendSession {
            phase: SendPhase::Checkpointing {
                delta: s.mode == MemoryMigrationMode::Delta && has_cache,
            },
            ..s
        },
        (SendPhase::Checkpointing { delta: true }, SendEvent::DeltaUnavailable) => SendSession {
            phase: SendPhase::Checkpointing { delta: false },
            ..s
        },
        (SendPhase::Checkpointing { .. }, SendEvent::Prepared) => SendSession {
            phase: SendPhase::Delivering,
            ..s
        },
        (SendPhase::Delivering, SendEvent::Delivered { success }) => SendSession {
            phase: if success {
                SendPhase::Done
            } else {
                SendPhase::Failed
            },
            ..s
        },
        (SendPhase::Delivering, SendEvent::SendFailed { err }) => match retry_plan(
            s.attempt,
            s.backoff_ms,
            err,
        ) {
            Some((next, _, next_backoff)) => SendSession {
                attempt: next,
                backoff_ms: next_backoff,
                phase: SendPhase::BackingOff,
                ..s
            },
            None => SendSession { phase: SendPhase::Failed, ..s },
        },
        (SendPhase::BackingOff, SendEvent::BackoffElapsed) => SendSession {
            phase: SendPhase::Negotiating,
            ..s
        },
        _ => s,
    }
}

/// The action that the session takes on an event.
pub open spec fn send_action_ok(s: SendSession, e: SendEvent, a: SendAction) -> bool {
    match (s.phase, e) {
        (SendPhase::Negotiating, SendEvent::CacheChecked { has_cache }) => if s.mode
            == MemoryMigrationMode::Delta && has_cache {
            a is CheckpointDelta
        } else {
            a is CheckpointFull
        },
        (SendPhase::Checkpointing { delta: true }, SendEvent::DeltaUnavailable) => a is CheckpointFull,
        (SendPhase::Checkpointing { .. }, SendEvent::Prepared) => a is SendRequest,
        (SendPhase::Delivering, SendEvent::Delivered { success }) => if success {
            a is CommitCacheUpdate
        } else {
            a is Fail && a->Fail_err is WasmMigrationError
        },
        (SendPhase::Delivering, SendEvent::SendFailed { err }) => match retry_plan(
            s.attempt,
            s.backoff_ms,
            err,
        ) {
            Some((_, pause, _)) => a == (SendAction::Sleep { ms: pause }),
            None => a is Fail && a->Fail_err is WasmMigrationError,
        },
        (SendPhase::BackingOff, SendEvent::BackoffElapsed) => a is CheckSnapshotCache,
        _ => a is Ignore,
    }
}

impl SendSession {
    /// A send about to ask the peer for its baseline, on attempt 1.
    pub fn new(mode: MemoryMigrationMode) -> (r: (Self, SendAction))
        ensures
            r.0.mode == mode,
            r.0.attempt == 1,
            r.0.backoff_ms == MIGRATION_SEND_INITIAL_BACKOFF_MS,
            r.0.phase == SendPhase::Negotiating,
            r.1 is CheckSnapshotCache,
    {
        (
            SendSession {
                mode,
                attempt: 1,
                backoff_ms: MIGRATION_SEND_INITIAL_BACKOFF_MS,
                phase: SendPhase::Negotiating,
            },
            SendAction::CheckSnapshotCache,
        )
    }

    /// Takes one step of a migration send: negotiate delta or full, fall back
    /// to full when no delta can be made, send, retry transient failures with
    /// backoff up to five attempts, and commit the baseline update only once
    /// the peer has accepted. A send that fails for good (attempts spent, a
    /// failure that is not transient, or a refusing reply) ends in a
    /// migration error.
    pub fn step(&mut self, e: SendEvent) -> (r: SendAction)
        ensures
            *final(self) == send_next(*old(self), e),
            send_action_ok(*old(self), e, r),
            r is CommitCacheUpdate ==> e matches SendEvent::Delivered { success: true },
            r is Fail ==> r->Fail_err is WasmMigrationError && final(self).phase == SendPhase::Failed,
            final(self).attempt <= MIGRATION_SEND_MAX_ATTEMPTS || final(self).attempt == old(self).attempt,
    {
        match (self.phase, e) {
            (SendPhase::Negotiating, SendEvent::CacheChecked { has_cache }) => {
                let delta = should_send_delta(self.mode, has_cache);
                self.phase = SendPhase::Checkpointing { delta };
                if delta {
                    SendAction::CheckpointDelta
                } else {
                    SendAction::CheckpointFull
                }
            },
            (SendPhase::Checkpointing { delta: true }, SendEvent::DeltaUnavailable) => {
                self.phase = SendPhase::Checkpointing { delta: false };
                SendAction::CheckpointFull
            },
            (SendPhase::Checkpointing { .. }, SendEvent::Prepared) => {
                self.phase = SendPhase::Delivering;
                SendAction::SendRequest
            },
            (SendPhase::Delivering, SendEvent::Delivered { success }) => {
                if success {
                    self.phase = SendPhase::Done;
                    SendAction::CommitCacheUpdate
                } else {
                    self.phase = SendPhase::Failed;
                    SendAction::Fail {
                        err: KafuError::WasmMigrationError("peer returned failure".to_owned()),
                    }
                }
            },
            (SendPhase::Delivering, SendEvent::SendFailed { err }) => {
                match next_retry(self.attempt, self.backoff_ms, &err) {
                    Some((next, pause, next_backoff)) => {
                        self.attempt = next;
                        self.backoff_ms = next_backoff;
                        self.phase = SendPhase::BackingOff;
                        SendAction::Sleep { ms: pause }
                    },
                    None => {
                        self.phase = SendPhase::Failed;
                        SendAction::Fail {
                            err: KafuError::WasmMigrationError(
                                "failed to send migration request".to_owned(),
                            ),
                        }
                    },
                }
            },
            (SendPhase::BackingOff, SendEvent::BackoffElapsed) => {
                self.phase = SendPhase::Negotiating;
                SendAction::CheckSnapshotCache
            },
            _ => SendAction::Ignore,
        }
    }
}

} // verus!

verus! {

/// With compression off every payload decodes back to itself, so the
/// cache-consistency laws hold with no premise on the payloads.
pub proof fn lemma_uncompressed_payload_round_trips(data: Seq<u8>)
    ensures
        payload_round_trips(data, false),
{
}

} // verus!

verus! {

/// Resolves where a pending migration goes: the configured node named as its
/// destination. Fails with a migration error when no migration is pending or
/// the destination is not in the configuration.
pub fn resolve_migration_destination<'a>(
    pending: &Option<PendingMigration>,
    nodes: &'a IndexMap<String, NodeConfig>,
) -> (r: Result<&'a NodeConfig, KafuError>)
    ensures
        pending is None ==> r is Err && r->Err_0 is WasmMigrationError,
        pending is Some && node_index(node_entries(*nodes), pending->0.to_node_id@) is None ==> r is Err
            && r->Err_0 is WasmMigrationError,
        pending is Some && node_index(node_entries(*nodes), pending->0.to_node_id@) is Some ==> {
            let e = node_entries(*nodes)[node_index(node_entries(*nodes), pending->0.to_node_id@)->0];
            &&& r is Ok
            &&& r->Ok_0.address@ == e.1
            &&& r->Ok_0.port == e.2
        },
{
    match pending {
        None => Err(KafuError::WasmMigrationError("No pending migration request on instance".to_owned())),
        Some(p) => match find_node(nodes, p.to_node_id.as_str()) {
            Some(n) => Ok(n),
            None => Err(
                KafuError::WasmMigrationError(
                    "Destination node not found in configuration".to_owned(),
                ),
            ),
        },
    }
}

} // verus!
