//! The receiving side of a migration: checking a request, rebuilding both
//! memories from a full image or from delta pages over the cached baseline,
//! and keeping the baseline in step.
use vstd::prelude::*;

use crate::compression::{decode_payload, decoded_payload};
use crate::memory::{
    apply_memory_delta_into_sized, page_size, page_start, rebuild, zero_extend,
    MAIN_MEMORY_PAGE_SIZE,
};
use crate::protocol::{MemoryImage, MigrateRequest, RpcCode, RpcStatus};
use crate::stack::MigrationStackEntry;
use sha2::{Digest, Sha256};

verus! {

/// The baseline of a node: the memories it last exchanged with a peer.
#[derive(Debug, Clone)]
pub struct SnapshotCacheEntry {
    pub main: Vec<u8>,
    pub snapify: Vec<u8>,
}

/// SHA-256 digest of `data`.
pub uninterp spec fn sha256_of(data: Seq<u8>) -> Seq<u8>;

/// Relies on sha2::Sha256::digest: the 32-byte SHA-256 digest of `data`.
#[verifier::external_body]
fn sha256_digest(data: &[u8]) -> (r: Vec<u8>)
    ensures
        r@ == sha256_of(data@),
        r@.len() == 32,
{
    Sha256::digest(data).to_vec()
}

/// Digest of a guest binary, which every migration request must carry.
pub fn wasm_sha256(wasm: &[u8]) -> (r: Vec<u8>)
    ensures
        r@ == sha256_of(wasm@),
        r@.len() == 32,
{
    sha256_digest(wasm)
}

/// Whether two byte strings are equal.
pub fn bytes_equal(a: &[u8], b: &[u8]) -> (r: bool)
    ensures
        r == (a@ == b@),
{
    if a.len() != b.len() {
        return false;
    }
    let mut i: usize = 0;
    while i < a.len()
        invariant
            a@.len() == b@.len(),
            i <= a@.len(),
            forall|j: int| 0 <= j < i ==> a@[j] == b@[j],
        decreases a@.len() - i,
    {
        if a[i] != b[i] {
            return false;
        }
        i = i + 1;
    }
    assert(a@ =~= b@);
    true
}

/// Length in bytes of `pages` pages.
pub open spec fn pages_len(pages: u64) -> int {
    pages as int * page_size()
}

/// Delta pages of an image as decoded on arrival.
pub open spec fn decoded_delta(img: MemoryImage) -> Seq<(u32, Seq<u8>)> {
    Seq::new(
        img.delta_pages@.len(),
        |k: int|
            (
                img.delta_pages@[k].page_index,
                decoded_payload(img.delta_pages@[k].data@, img.delta_pages@[k].data_compressed)->0,
            ),
    )
}

/// Every delta page of the image lies inside it, decodes, and is exactly one page long.
pub open spec fn delta_pages_valid(img: MemoryImage, target: int) -> bool {
    forall|k: int|
        0 <= k < img.delta_pages@.len() ==> {
            let p = #[trigger] img.delta_pages@[k];
            &&& (p.page_index as int) < img.pages
            &&& decoded_payload(p.data@, p.data_compressed) is Some
            &&& decoded_payload(p.data@, p.data_compressed)->0.len() == page_size()
            &&& page_start(p.page_index as int) + page_size() <= target
        }
}

/// The memory that an image of a delta request stands for, over `baseline`:
/// the image's own data if it has any, else the baseline, zero-extended to
/// `target`, with the decoded delta pages written over it.
pub open spec fn reconstructed(img: MemoryImage, baseline: Seq<u8>, target: int) -> Option<Seq<u8>> {
    let base = if img.data@.len() > 0 {
        decoded_payload(img.data@, img.compressed)
    } else {
        Some(baseline)
    };
    if baseline.len() > target || base is None || base->0.len() > target {
        None
    } else if img.delta_pages@.len() == 0 {
        Some(zero_extend(base->0, target))
    } else if !delta_pages_valid(img, target) {
        None
    } else {
        Some(rebuild(zero_extend(base->0, target), decoded_delta(img), target))
    }
}

/// The memory that an image of a full request stands for: its decoded data,
/// zero-extended to `target`.
pub open spec fn full_image(img: MemoryImage, target: int) -> Option<Seq<u8>> {
    let d = decoded_payload(img.data@, img.compressed);
    if d is None || d->0.len() > target {
        None
    } else {
        Some(zero_extend(d->0, target))
    }
}

/// What a migration request yields on a node whose binary has digest
/// `local_sha256` and whose baseline is `cache`: both rebuilt memories, or
/// the status code with which the request is refused.
pub open spec fn migrate_outcome(
    req: MigrateRequest,
    local_sha256: Seq<u8>,
    cache: Option<SnapshotCacheEntry>,
) -> Result<(Seq<u8>, Seq<u8>), RpcCode> {
    if req.main_memory is None || req.snapify_memory is None {
        Err(RpcCode::InvalidArgument)
    } else if req.wasm_sha256@ != local_sha256 {
        Err(RpcCode::FailedPrecondition)
    } else {
        let main = req.main_memory->0;
        let snapify = req.snapify_memory->0;
        let main_len = pages_len(main.pages);
        let snapify_len = pages_len(snapify.pages);
        if main.pages == 0 || snapify.pages == 0 || main_len > usize::MAX || snapify_len
            > usize::MAX {
            Err(RpcCode::InvalidArgument)
        } else if main.delta_pages@.len() > 0 || snapify.delta_pages@.len() > 0 {
            if cache is None {
                Err(RpcCode::FailedPrecondition)
            } else {
                let m = reconstructed(main, cache->0.main@, main_len);
                let s = reconstructed(snapify, cache->0.snapify@, snapify_len);
                if m is None || s is None {
                    Err(RpcCode::InvalidArgument)
                } else {
                    Ok((m->0, s->0))
                }
            }
        } else if main.data@.len() == 0 || snapify.data@.len() == 0 {
            Err(RpcCode::InvalidArgument)
        } else {
            let m = full_image(main, main_len);
            let s = full_image(snapify, snapify_len);
            if m is None || s is None {
                Err(RpcCode::InvalidArgument)
            } else {
                Ok((m->0, s->0))
            }
        }
    }
}

/// What the runtime restores after an accepted migration.
#[derive(Debug)]
pub struct RestorePlan {
    pub migration_stack: Vec<MigrationStackEntry>,
    pub main_memory: Vec<u8>,
    pub snapify_memory: Vec<u8>,
}

fn invalid_argument(message: &str) -> (r: RpcStatus)
    ensures
        r.code == RpcCode::InvalidArgument,
{
    RpcStatus { code: RpcCode::InvalidArgument, message: message.to_owned() }
}

fn failed_precondition(message: &str) -> (r: RpcStatus)
    ensures
        r.code == RpcCode::FailedPrecondition,
{
    RpcStatus { code: RpcCode::FailedPrecondition, message: message.to_owned() }
}

/// Decodes, checks and collects the delta pages of an image.
fn decode_delta_pages(img: &MemoryImage, target_len: usize) -> (r: Result<Vec<(u32, Vec<u8>)>, RpcStatus>)
    ensures
        r is Ok <==> delta_pages_valid(*img, target_len as int),
        r is Err ==> r->Err_0.code == RpcCode::InvalidArgument,
        r is Ok ==> r->Ok_0@.len() == img.delta_pages@.len() && forall|k: int|
            0 <= k < r->Ok_0@.len() ==> (#[trigger] r->Ok_0@[k]).0 == decoded_delta(*img)[k].0
                && r->Ok_0@[k].1@ == decoded_delta(*img)[k].1,
{
    let mut out: Vec<(u32, Vec<u8>)> = Vec::new();
    let mut k: usize = 0;
    while k < img.delta_pages.len()
        invariant
            k <= img.delta_pages@.len(),
            out@.len() == k,
            forall|j: int|
                0 <= j < k ==> {
                    let p = #[trigger] img.delta_pages@[j];
                    &&& (p.page_index as int) < img.pages
                    &&& decoded_payload(p.data@, p.data_compressed) is Some
                    &&& decoded_payload(p.data@, p.data_compressed)->0.len() == page_size()
                    &&& page_start(p.page_index as int) + page_size() <= target_len
                },
            forall|j: int|
                0 <= j < k ==> (#[trigger] out@[j]).0 == decoded_delta(*img)[j].0 && out@[j].1@
                    == decoded_delta(*img)[j].1,
        decreases img.delta_pages@.len() - k,
    {
        let p = &img.delta_pages[k];
        if (p.page_index as u64) >= img.pages {
            return Err(invalid_argument("delta page_index out of range"));
        }
        let data = match decode_payload(p.data.as_slice(), p.data_compressed) {
            Ok(d) => d,
            Err(_) => {
                return Err(invalid_argument("delta page decompress failed"));
            },
        };
        if data.len() != MAIN_MEMORY_PAGE_SIZE {
            return Err(invalid_argument("delta page has invalid size"));
        }
        let start: u64 = (p.page_index as u64) * (MAIN_MEMORY_PAGE_SIZE as u64);
        if start + (MAIN_MEMORY_PAGE_SIZE as u64) > target_len as u64 {
            return Err(invalid_argument("delta page out of bounds"));
        }
        let ghost before = out@;
        out.push((p.page_index, data));
        assert(forall|j: int| 0 <= j < k ==> out@[j] == before[j]);
        k = k + 1;
    }
    Ok(out)
}

/// Borrows delta pages as slices.
fn borrow_pages(pages: &Vec<(u32, Vec<u8>)>) -> (r: Vec<(u32, &[u8])>)
    ensures
        r@.len() == pages@.len(),
        forall|k: int| 0 <= k < r@.len() ==> (#[trigger] r@[k]).0 == pages@[k].0 && r@[k].1@ == pages@[k].1@,
{
    let mut out: Vec<(u32, &[u8])> = Vec::new();
    let mut k: usize = 0;
    while k < pages.len()
        invariant
            k <= pages@.len(),
            out@.len() == k,
            forall|j: int| 0 <= j < k ==> (#[trigger] out@[j]).0 == pages@[j].0 && out@[j].1@ == pages@[j].1@,
        decreases pages@.len() - k,
    {
        out.push((pages[k].0, pages[k].1.as_slice()));
        k = k + 1;
    }
    out
}

/// Rebuilds one memory of a delta request over `baseline`.
fn reconstruct_one(img: &MemoryImage, baseline: &[u8], target_len: usize) -> (r: Result<Vec<u8>, RpcStatus>)
    requires
        target_len > 0,
    ensures
        r is Ok <==> reconstructed(*img, baseline@, target_len as int) is Some,
        r is Ok ==> r->Ok_0@ == reconstructed(*img, baseline@, target_len as int)->0,
        r is Err ==> r->Err_0.code == RpcCode::InvalidArgument,
{
    if baseline.len() > target_len {
        return Err(invalid_argument("baseline size exceeds requested size"));
    }
    let mut base: Vec<u8> = if img.data.len() > 0 {
        match decode_payload(img.data.as_slice(), img.compressed) {
            Ok(d) => d,
            Err(_) => {
                return Err(invalid_argument("memory decompress failed"));
            },
        }
    } else {
        let mut v: Vec<u8> = Vec::new();
        v.extend_from_slice(baseline);
        v
    };
    if base.len() > target_len {
        return Err(invalid_argument("memory size exceeds requested size"));
    }
    let ghost b0 = base@;
    base.resize(target_len, 0u8);
    assert(base@ =~= zero_extend(b0, target_len as int));
    if img.delta_pages.len() == 0 {
        return Ok(base);
    }
    let pages = decode_delta_pages(img, target_len)?;
    let refs = borrow_pages(&pages);
    let ghost d = crate::memory::slice_pages_view(refs@);
    assert(d =~= decoded_delta(*img));
    proof {
        assert forall|k: int| 0 <= k < d.len() implies page_start(d[k].0 as int) + d[k].1.len()
            <= usize::MAX by {
            let p = img.delta_pages@[k];
            assert(delta_pages_valid(*img, target_len as int));
            assert(page_start(p.page_index as int) + page_size() <= target_len);
        }
    }
    assert(base@.len() > 0);
    let mut out: Vec<u8> = Vec::new();
    match apply_memory_delta_into_sized(base.as_slice(), refs.as_slice(), &mut out, target_len) {
        Ok(()) => {
            proof {
                assert(delta_pages_valid(*img, target_len as int));
                assert(img.data@.len() > 0 ==> decoded_payload(img.data@, img.compressed) == Some(
                    b0,
                ));
                assert(img.data@.len() == 0 ==> baseline@ == b0);
            }
            Ok(out)
        },
        Err(_) => Err(invalid_argument("delta apply failed")),
    }
}

/// Decodes one memory of a full request and zero-extends it to `target_len`.
fn decode_full(img: &MemoryImage, target_len: usize) -> (r: Result<Vec<u8>, RpcStatus>)
    ensures
        r is Ok <==> full_image(*img, target_len as int) is Some,
        r is Ok ==> r->Ok_0@ == full_image(*img, target_len as int)->0,
        r is Err ==> r->Err_0.code == RpcCode::InvalidArgument,
{
    let mut m = match decode_payload(img.data.as_slice(), img.compressed) {
        Ok(d) => d,
        Err(_) => {
            return Err(invalid_argument("memory decompress failed"));
        },
    };
    if m.len() > target_len {
        return Err(invalid_argument("memory size exceeds requested size"));
    }
    let ghost m0 = m@;
    m.resize(target_len, 0u8);
    assert(m@ =~= zero_extend(m0, target_len as int));
    Ok(m)
}

fn pages_to_len(pages: u64) -> (r: Option<usize>)
    ensures
        r is Some <==> pages_len(pages) <= usize::MAX,
        r is Some ==> r->0 as int == pages_len(pages),
{
    if pages > (usize::MAX / MAIN_MEMORY_PAGE_SIZE) as u64 {
        assert(pages_len(pages) > usize::MAX) by (nonlinear_arith)
            requires
                pages > usize::MAX / 65536,
                pages_len(pages) == pages * 65536,
        ;
        None
    } else {
        assert(pages * 65536 <= usize::MAX) by (nonlinear_arith)
            requires
                pages <= usize::MAX / 65536,
        ;
        Some((pages as usize) * MAIN_MEMORY_PAGE_SIZE)
    }
}

/// Handles a migration request on a node whose binary has digest
/// `local_sha256` and whose baseline is `cache`.
///
/// Refuses a request that lacks a memory, has page count zero or too large,
/// or whose image does not decode or fit (InvalidArgument); one whose digest
/// differs from the local one, or that sends delta pages to a node with no
/// baseline (FailedPrecondition). A refusal leaves the baseline as it was.
/// Otherwise it rebuilds both memories, makes them the new baseline, and
/// returns them with the migration stack for the runtime to restore.
pub fn handle_migrate_request(
    request: MigrateRequest,
    local_sha256: &[u8],
    cache: &mut Option<SnapshotCacheEntry>,
) -> (r: Result<RestorePlan, RpcStatus>)
    ensures
        r is Ok <==> migrate_outcome(request, local_sha256@, *old(cache)) is Ok,
        r is Err ==> r->Err_0.code == migrate_outcome(request, local_sha256@, *old(cache))->Err_0,
        r is Err ==> *final(cache) == *old(cache),
        r is Ok ==> {
            let (m, s) = migrate_outcome(request, local_sha256@, *old(cache))->Ok_0;
            &&& r->Ok_0.main_memory@ == m
            &&& r->Ok_0.snapify_memory@ == s
            &&& r->Ok_0.migration_stack@ == request.migration_stack@
            &&& *final(cache) is Some
            &&& (*final(cache))->0.main@ == m
            &&& (*final(cache))->0.snapify@ == s
        },
{
    let main_img = match &request.main_memory {
        Some(i) => i,
        None => {
            return Err(invalid_argument("missing main_memory"));
        },
    };
    let snapify_img = match &request.snapify_memory {
        Some(i) => i,
        None => {
            return Err(invalid_argument("missing snapify_memory"));
        },
    };
    if !bytes_equal(request.wasm_sha256.as_slice(), local_sha256) {
        return Err(failed_precondition("Wasm SHA-256 mismatch"));
    }
    if main_img.pages == 0 {
        return Err(invalid_argument("main_memory.pages must be non-zero"));
    }
    if snapify_img.pages == 0 {
        return Err(invalid_argument("snapify_memory.pages must be non-zero"));
    }
    let requested_main_len = match pages_to_len(main_img.pages) {
        Some(n) => n,
        None => {
            return Err(invalid_argument("requested memory pages overflow"));
        },
    };
    let requested_snapify_len = match pages_to_len(snapify_img.pages) {
        Some(n) => n,
        None => {
            return Err(invalid_argument("requested memory pages overflow"));
        },
    };
    assert(requested_main_len > 0) by (nonlinear_arith)
        requires
            requested_main_len as int == main_img.pages * 65536,
            main_img.pages > 0,
    ;
    assert(requested_snapify_len > 0) by (nonlinear_arith)
        requires
            requested_snapify_len as int == snapify_img.pages * 65536,
            snapify_img.pages > 0,
    ;
    let uses_delta = main_img.delta_pages.len() > 0 || snapify_img.delta_pages.len() > 0;
    let (main, snapify) = if uses_delta {
        let cached = match &*cache {
            Some(c) => c,
            None => {
                return Err(failed_precondition("baseline not in cache; sender should send full snapshot"));
            },
        };
        let main = reconstruct_one(main_img, cached.main.as_slice(), requested_main_len)?;
        let snapify = reconstruct_one(snapify_img, cached.snapify.as_slice(), requested_snapify_len)?;
        (main, snapify)
    } else {
        if main_img.data.len() == 0 || snapify_img.data.len() == 0 {
            return Err(invalid_argument("full snapshot (main_memory + snapify_memory) or valid delta required"));
        }
        let main = decode_full(main_img, requested_main_len)?;
        let snapify = decode_full(snapify_img, requested_snapify_len)?;
        (main, snapify)
    };
    *cache = Some(SnapshotCacheEntry { main: main.clone(), snapify: snapify.clone() });
    Ok(RestorePlan { migration_stack: request.migration_stack, main_memory: main, snapify_memory: snapify })
}

} // verus!

verus! {

/// Digest gate: a request that carries a digest other than the local one is
/// refused (FailedPrecondition, or InvalidArgument when a memory is missing),
/// so it never reaches the baseline or the runtime.
pub proof fn lemma_digest_gate(
    req: MigrateRequest,
    local_sha256: Seq<u8>,
    cache: Option<SnapshotCacheEntry>,
)
    requires
        req.wasm_sha256@ != local_sha256,
    ensures
        migrate_outcome(req, local_sha256, cache) is Err,
        req.main_memory is Some && req.snapify_memory is Some ==> migrate_outcome(
            req,
            local_sha256,
            cache,
        ) == Err::<(Seq<u8>, Seq<u8>), RpcCode>(RpcCode::FailedPrecondition),
{
}

} // verus!
