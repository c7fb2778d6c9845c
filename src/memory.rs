//! Page-level memory deltas: computing the pages that changed against a
//! baseline, and rebuilding a memory image from a baseline plus such pages.
use vstd::prelude::*;

verus! {

/// Size of one linear-memory page (64 KiB), the unit of delta encoding.
pub const MAIN_MEMORY_PAGE_SIZE: usize = 65536;

/// Delta pages of one memory: `(page_index, bytes)`.
pub type SnapshotMemoryDelta = Vec<(u32, Vec<u8>)>;

pub open spec fn page_size() -> int {
    MAIN_MEMORY_PAGE_SIZE as int
}

/// The largest memory length (in bytes) whose page indices fit in a `u32`.
pub open spec fn max_delta_memory_len() -> int {
    u32::MAX as int * page_size()
}

/// First byte of page `i`.
pub open spec fn page_start(i: int) -> int {
    i * page_size()
}

/// One past the last byte of page `i` in a memory of `len` bytes (the last page may be short).
pub open spec fn page_end(i: int, len: int) -> int {
    if (i + 1) * page_size() <= len {
        (i + 1) * page_size()
    } else {
        len
    }
}

/// Number of pages, the last one possibly short, that cover `len` bytes.
pub open spec fn num_pages(len: int) -> int {
    (len + page_size() - 1) / page_size()
}

/// Page `i` of `m` must travel in a delta against `b`: it reaches past the end
/// of `b`, or its bytes differ from those of `b` at the same place.
pub open spec fn page_changed(b: Seq<u8>, m: Seq<u8>, i: int) -> bool {
    page_end(i, m.len() as int) > b.len()
        || m.subrange(page_start(i), page_end(i, m.len() as int)) != b.subrange(
        page_start(i),
        page_end(i, m.len() as int),
    )
}

/// The delta entries of the first `n` pages of `m` against `b`, in page order.
pub open spec fn delta_upto(b: Seq<u8>, m: Seq<u8>, n: int) -> Seq<(u32, Seq<u8>)>
    decreases n,
{
    if n <= 0 {
        Seq::empty()
    } else if page_changed(b, m, n - 1) {
        delta_upto(b, m, n - 1).push(
            ((n - 1) as u32, m.subrange(page_start(n - 1), page_end(n - 1, m.len() as int))),
        )
    } else {
        delta_upto(b, m, n - 1)
    }
}

/// The delta of memory `m` against baseline `b`: every changed page, in page order.
pub open spec fn memory_delta(b: Seq<u8>, m: Seq<u8>) -> Seq<(u32, Seq<u8>)> {
    delta_upto(b, m, num_pages(m.len() as int))
}

/// `b` extended with zero bytes to length `n` (or cut to `n`).
pub open spec fn zero_extend(b: Seq<u8>, n: int) -> Seq<u8> {
    Seq::new(n as nat, |j: int| if j < b.len() { b[j] } else { 0u8 })
}

/// `s` with `data` written at `start`; unchanged where `data` does not fit.
pub open spec fn write_at(s: Seq<u8>, start: int, data: Seq<u8>) -> Seq<u8> {
    if 0 <= start && start + data.len() <= s.len() {
        Seq::new(
            s.len(),
            |j: int|
                if start <= j < start + data.len() {
                    data[j - start]
                } else {
                    s[j]
                },
        )
    } else {
        s
    }
}

/// `s` with each delta page written at its place, in order.
pub open spec fn apply_pages(s: Seq<u8>, d: Seq<(u32, Seq<u8>)>) -> Seq<u8>
    decreases d.len(),
{
    if d.len() == 0 {
        s
    } else {
        write_at(apply_pages(s, d.drop_last()), page_start(d.last().0 as int), d.last().1)
    }
}

/// The furthest byte that a delta page reaches (0 for no pages).
pub open spec fn max_page_end(d: Seq<(u32, Seq<u8>)>) -> int
    decreases d.len(),
{
    if d.len() == 0 {
        0
    } else {
        let e = page_start(d.last().0 as int) + d.last().1.len();
        let rest = max_page_end(d.drop_last());
        if e > rest {
            e
        } else {
            rest
        }
    }
}

/// Length of a rebuilt image: the baseline, the furthest delta page and the target, whichever is largest.
pub open spec fn rebuilt_len(b: Seq<u8>, d: Seq<(u32, Seq<u8>)>, target: int) -> int {
    let m = if max_page_end(d) > b.len() {
        max_page_end(d)
    } else {
        b.len() as int
    };
    if target > m {
        target
    } else {
        m
    }
}

/// The image rebuilt from baseline `b`, delta `d` and a target length.
pub open spec fn rebuild(b: Seq<u8>, d: Seq<(u32, Seq<u8>)>, target: int) -> Seq<u8> {
    apply_pages(zero_extend(b, rebuilt_len(b, d, target)), d)
}

/// Delta pages held as borrowed slices, as plain sequences.
pub open spec fn slice_pages_view(d: Seq<(u32, &[u8])>) -> Seq<(u32, Seq<u8>)> {
    Seq::new(d.len(), |k: int| (d[k].0, d[k].1@))
}

/// Delta pages held as vectors, as plain sequences.
pub open spec fn vec_pages_view(d: Seq<(u32, Vec<u8>)>) -> Seq<(u32, Seq<u8>)> {
    Seq::new(d.len(), |k: int| (d[k].0, d[k].1@))
}

/// Every delta page's end fits in a `usize`.
pub open spec fn pages_fit(d: Seq<(u32, Seq<u8>)>) -> bool {
    forall|k: int| 0 <= k < d.len() ==> page_start(d[k].0 as int) + d[k].1.len() <= usize::MAX
}

/// Whether `a[start..end]` and `b[start..end]` differ.
fn range_differs(a: &[u8], b: &[u8], start: usize, end: usize) -> (r: bool)
    requires
        start <= end <= a@.len(),
        end <= b@.len(),
    ensures
        r == (a@.subrange(start as int, end as int) != b@.subrange(start as int, end as int)),
{
    let mut i = start;
    while i < end
        invariant
            start <= i <= end <= a@.len(),
            end <= b@.len(),
            a@.subrange(start as int, i as int) == b@.subrange(start as int, i as int),
        decreases end - i,
    {
        if a[i] != b[i] {
            assert(a@.subrange(start as int, end as int)[i - start] != b@.subrange(
                start as int,
                end as int,
            )[i - start]);
            return true;
        }
        assert(a@.subrange(start as int, i + 1) =~= a@.subrange(start as int, i as int).push(a@[i as int]));
        assert(b@.subrange(start as int, i + 1) =~= b@.subrange(start as int, i as int).push(b@[i as int]));
        i = i + 1;
    }
    false
}

/// Copies `s[start..end]` into a new vector.
fn copy_range(s: &[u8], start: usize, end: usize) -> (r: Vec<u8>)
    requires
        start <= end <= s@.len(),
    ensures
        r@ == s@.subrange(start as int, end as int),
{
    let mut v: Vec<u8> = Vec::new();
    v.extend_from_slice(&s[start..end]);
    v
}

proof fn lemma_page_bounds(i: int, len: int)
    requires
        0 <= i,
        page_start(i) < len,
    ensures
        page_start(i) < page_end(i, len) <= len,
        page_end(i, len) <= page_start(i) + page_size(),
        i < num_pages(len),
{
    assert((i + 1) * page_size() == i * page_size() + page_size()) by (nonlinear_arith);
    assert(i * page_size() < len);
    assert(i < num_pages(len)) by (nonlinear_arith)
        requires
            i * 65536 < len,
            num_pages(len) == (len + 65535) / 65536,
            page_size() == 65536,
    ;
}

/// Computes the delta pages of `current` against `baseline`: each page of
/// `current` that reaches past `baseline` or differs from it, in page order.
pub fn compute_memory_delta_pages(baseline: &[u8], current: &[u8]) -> (r: SnapshotMemoryDelta)
    requires
        current@.len() <= max_delta_memory_len(),
    ensures
        vec_pages_view(r@) == memory_delta(baseline@, current@),
{
    let mut delta_pages: SnapshotMemoryDelta = Vec::new();
    let mut page_index: u32 = 0;
    let mut offset: usize = 0;
    let ghost b = baseline@;
    let ghost m = current@;
    while offset < current.len()
        invariant
            b == baseline@,
            m == current@,
            m.len() <= max_delta_memory_len(),
            offset <= m.len(),
            offset < m.len() ==> offset as int == page_start(page_index as int),
            offset < m.len() ==> page_index < u32::MAX,
            offset >= m.len() ==> page_index as int == num_pages(m.len() as int),
            offset < m.len() ==> page_index as int <= num_pages(m.len() as int),
            vec_pages_view(delta_pages@) == delta_upto(b, m, page_index as int),
        decreases m.len() - offset,
    {
        proof {
            lemma_page_bounds(page_index as int, m.len() as int);
        }
        let end: usize = if current.len() - offset >= MAIN_MEMORY_PAGE_SIZE {
            offset + MAIN_MEMORY_PAGE_SIZE
        } else {
            current.len()
        };
        assert(end as int == page_end(page_index as int, m.len() as int));
        let differs = if end > baseline.len() {
            true
        } else {
            range_differs(current, baseline, offset, end)
        };
        let ghost old_view = delta_pages@;
        if differs {
            let page_data = copy_range(current, offset, end);
            delta_pages.push((page_index, page_data));
            assert(vec_pages_view(delta_pages@) =~= vec_pages_view(old_view).push(
                (page_index, page_data@),
            ));
        }
        proof {
            assert(page_start(page_index + 1) == page_start(page_index as int) + page_size())
                by (nonlinear_arith);
            if end < m.len() {
                assert(page_index + 1 < u32::MAX) by (nonlinear_arith)
                    requires
                        offset as int == page_index * 65536,
                        offset + 65536 < m.len(),
                        m.len() <= 4294967295 * 65536,
                ;
            } else {
                assert(num_pages(m.len() as int) == page_index + 1) by (nonlinear_arith)
                    requires
                        offset as int == page_index * 65536,
                        offset < m.len(),
                        m.len() <= offset + 65536,
                        num_pages(m.len() as int) == (m.len() + 65535) / 65536,
                ;
            }
        }
        page_index = page_index + 1;
        offset = end;
    }
    delta_pages
}

/// Why a memory image could not be rebuilt.
#[derive(Debug, Clone, Copy, PartialEq, Eq, Structural)]
pub enum DeltaError {
    /// The baseline is empty and no delta page was given: nothing to rebuild from.
    NoSourceOfTruth,
}

/// Writes `data` into `out` at `start`.
fn write_page(out: &mut Vec<u8>, start: usize, data: &[u8])
    requires
        start + data@.len() <= old(out)@.len(),
    ensures
        final(out)@ == write_at(old(out)@, start as int, data@),
{
    let ghost s0 = out@;
    let n: usize = out.len();
    let mut i: usize = 0;
    while i < data.len()
        invariant
            start + data@.len() <= s0.len(),
            s0.len() == n,
            out@.len() == s0.len(),
            i <= data@.len(),
            forall|j: int|
                0 <= j < s0.len() ==> out@[j] == (if start <= j < start + i {
                    data@[j - start]
                } else {
                    s0[j]
                }),
        decreases data@.len() - i,
    {
        out.set(start + i, data[i]);
        i = i + 1;
    }
    assert(out@ =~= write_at(s0, start as int, data@));
}

proof fn lemma_apply_pages_take(s: Seq<u8>, d: Seq<(u32, Seq<u8>)>, k: int)
    requires
        0 <= k < d.len(),
    ensures
        apply_pages(s, d.take(k + 1)) == write_at(
            apply_pages(s, d.take(k)),
            page_start(d[k].0 as int),
            d[k].1,
        ),
        max_page_end(d.take(k + 1)) == (if page_start(d[k].0 as int) + d[k].1.len() > max_page_end(
            d.take(k),
        ) {
            page_start(d[k].0 as int) + d[k].1.len()
        } else {
            max_page_end(d.take(k))
        }),
{
    assert(d.take(k + 1).drop_last() =~= d.take(k));
}

proof fn lemma_apply_pages_len(s: Seq<u8>, d: Seq<(u32, Seq<u8>)>)
    ensures
        apply_pages(s, d).len() == s.len(),
    decreases d.len(),
{
    if d.len() > 0 {
        lemma_apply_pages_len(s, d.drop_last());
    }
}

/// Rebuilds a full memory image into `out` from `baseline` and `delta_pages`.
///
/// The image is as long as the baseline, the furthest delta page and
/// `target_len_bytes`, whichever is largest; it holds the baseline, zeros past
/// it, and each delta page written at `page_index * 64 KiB`, in order. Fails,
/// leaving `out` as it was, when the baseline is empty and no page is given.
pub fn apply_memory_delta_into_sized(
    baseline: &[u8],
    delta_pages: &[(u32, &[u8])],
    out: &mut Vec<u8>,
    target_len_bytes: usize,
) -> (r: Result<(), DeltaError>)
    requires
        pages_fit(slice_pages_view(delta_pages@)),
    ensures
        r is Err <==> baseline@.len() == 0 && delta_pages@.len() == 0,
        r is Err ==> final(out)@ == old(out)@,
        r is Ok ==> final(out)@ == rebuild(
            baseline@,
            slice_pages_view(delta_pages@),
            target_len_bytes as int,
        ),
{
    if baseline.len() == 0 && delta_pages.len() == 0 {
        return Err(DeltaError::NoSourceOfTruth);
    }
    let ghost d = slice_pages_view(delta_pages@);
    let mut out_len: usize = baseline.len();
    let mut k: usize = 0;
    while k < delta_pages.len()
        invariant
            d == slice_pages_view(delta_pages@),
            pages_fit(d),
            k <= d.len(),
            out_len as int == (if max_page_end(d.take(k as int)) > baseline@.len() {
                max_page_end(d.take(k as int))
            } else {
                baseline@.len() as int
            }),
        decreases d.len() - k,
    {
        proof {
            lemma_apply_pages_take(Seq::empty(), d, k as int);
        }
        let start: usize = (delta_pages[k].0 as usize) * MAIN_MEMORY_PAGE_SIZE;
        let end: usize = start + delta_pages[k].1.len();
        if end > out_len {
            out_len = end;
        }
        k = k + 1;
    }
    assert(d.take(d.len() as int) =~= d);
    if target_len_bytes > out_len {
        out_len = target_len_bytes;
    }
    let ghost n = out_len as int;
    assert(n == rebuilt_len(baseline@, d, target_len_bytes as int));
    out.clear();
    out.resize(out_len, 0u8);
    let mut i: usize = 0;
    while i < baseline.len()
        invariant
            baseline@.len() <= n,
            out@.len() == n,
            i <= baseline@.len(),
            forall|j: int|
                0 <= j < n ==> out@[j] == (if j < i {
                    baseline@[j]
                } else {
                    0u8
                }),
        decreases baseline@.len() - i,
    {
        out.set(i, baseline[i]);
        i = i + 1;
    }
    assert(out@ =~= zero_extend(baseline@, n));
    assert(d.take(0) =~= Seq::<(u32, Seq<u8>)>::empty());
    let mut k: usize = 0;
    while k < delta_pages.len()
        invariant
            d == slice_pages_view(delta_pages@),
            pages_fit(d),
            k <= d.len(),
            out@.len() == n,
            out_len as int == n,
            out@ == apply_pages(zero_extend(baseline@, n), d.take(k as int)),
        decreases d.len() - k,
    {
        proof {
            lemma_apply_pages_take(zero_extend(baseline@, n), d, k as int);
            lemma_apply_pages_len(zero_extend(baseline@, n), d.take(k + 1));
        }
        let start: usize = (delta_pages[k].0 as usize) * MAIN_MEMORY_PAGE_SIZE;
        let data: &[u8] = delta_pages[k].1;
        if data.len() <= out_len && start <= out_len - data.len() && data.len() > 0 {
            write_page(out, start, data);
        } else {
            assert(write_at(out@, start as int, data@) =~= out@);
        }
        k = k + 1;
    }
    assert(d.take(d.len() as int) =~= d);
    Ok(())
}

/// Rebuilds a full memory image into `out`, as long as the baseline and the furthest delta page.
pub fn apply_memory_delta_into(
    baseline: &[u8],
    delta_pages: &[(u32, &[u8])],
    out: &mut Vec<u8>,
) -> (r: Result<(), DeltaError>)
    requires
        pages_fit(slice_pages_view(delta_pages@)),
    ensures
        r is Err <==> baseline@.len() == 0 && delta_pages@.len() == 0,
        r is Err ==> final(out)@ == old(out)@,
        r is Ok ==> final(out)@ == rebuild(baseline@, slice_pages_view(delta_pages@), 0),
{
    apply_memory_delta_into_sized(baseline, delta_pages, out, 0)
}

/// Rebuilds and returns a full memory image from `baseline` and `delta_pages`.
pub fn apply_memory_delta(baseline: &[u8], delta_pages: &[(u32, &[u8])]) -> (r: Result<
    Vec<u8>,
    DeltaError,
>)
    requires
        pages_fit(slice_pages_view(delta_pages@)),
    ensures
        r is Err <==> baseline@.len() == 0 && delta_pages@.len() == 0,
        r is Ok ==> r->Ok_0@ == rebuild(baseline@, slice_pages_view(delta_pages@), 0),
{
    let mut out: Vec<u8> = Vec::new();
    match apply_memory_delta_into_sized(baseline, delta_pages, &mut out, 0) {
        Ok(()) => Ok(out),
        Err(e) => Err(e),
    }
}

/// Writes `delta_pages` into `mem` in place, first growing it with zeros to
/// `target_len`; a page that does not fit is left out.
pub fn apply_delta_pages_in_place(
    mem: &mut Vec<u8>,
    target_len: usize,
    delta_pages: &[(u32, Vec<u8>)],
)
    requires
        pages_fit(vec_pages_view(delta_pages@)),
    ensures
        final(mem)@ == apply_pages(
            zero_extend(
                old(mem)@,
                if (target_len as int) > old(mem)@.len() {
                    target_len as int
                } else {
                    old(mem)@.len() as int
                },
            ),
            vec_pages_view(delta_pages@),
        ),
{
    let ghost d = vec_pages_view(delta_pages@);
    let ghost m0 = mem@;
    if mem.len() < target_len {
        mem.resize(target_len, 0u8);
    }
    let ghost n = mem@.len() as int;
    assert(mem@ =~= zero_extend(m0, n));
    assert(d.take(0) =~= Seq::<(u32, Seq<u8>)>::empty());
    let len: usize = mem.len();
    let mut k: usize = 0;
    while k < delta_pages.len()
        invariant
            d == vec_pages_view(delta_pages@),
            pages_fit(d),
            k <= d.len(),
            mem@.len() == n,
            len as int == n,
            mem@ == apply_pages(zero_extend(m0, n), d.take(k as int)),
        decreases d.len() - k,
    {
        proof {
            lemma_apply_pages_take(zero_extend(m0, n), d, k as int);
            lemma_apply_pages_len(zero_extend(m0, n), d.take(k + 1));
        }
        let start: usize = (delta_pages[k].0 as usize) * MAIN_MEMORY_PAGE_SIZE;
        let data: &Vec<u8> = &delta_pages[k].1;
        if data.len() <= len && start <= len - data.len() && data.len() > 0 {
            write_page(mem, start, data.as_slice());
        } else {
            assert(write_at(mem@, start as int, data@) =~= mem@);
        }
        k = k + 1;
    }
    assert(d.take(d.len() as int) =~= d);
}

// ----- Laws of deltas -----

proof fn lemma_apply_pages_push(s: Seq<u8>, d: Seq<(u32, Seq<u8>)>, e: (u32, Seq<u8>))
    ensures
        apply_pages(s, d.push(e)) == write_at(apply_pages(s, d), page_start(e.0 as int), e.1),
        max_page_end(d.push(e)) == (if page_start(e.0 as int) + e.1.len() > max_page_end(d) {
            page_start(e.0 as int) + e.1.len()
        } else {
            max_page_end(d)
        }),
{
    assert(d.push(e).drop_last() =~= d);
}

proof fn lemma_page_step(i: int, len: int)
    requires
        0 <= i,
    ensures
        page_start(i + 1) == page_start(i) + page_size(),
        page_start(i) >= 0,
{
    assert((i + 1) * page_size() == i * page_size() + page_size()) by (nonlinear_arith);
    assert(i * page_size() >= 0) by (nonlinear_arith)
        requires
            i >= 0,
            page_size() == 65536,
    ;
}

/// After the first `n` pages of the delta, the image agrees with `m` on those
/// pages and with the zero-extended baseline past them.
proof fn lemma_delta_upto_prefix(b: Seq<u8>, m: Seq<u8>, n: int)
    requires
        b.len() <= m.len(),
        m.len() <= max_delta_memory_len(),
        0 <= n,
        page_start(n - 1) < m.len() || n == 0,
    ensures
        apply_pages(zero_extend(b, m.len() as int), delta_upto(b, m, n)) =~= Seq::new(
            m.len(),
            |j: int|
                if j < page_end(n - 1, m.len() as int) && n > 0 {
                    m[j]
                } else {
                    zero_extend(b, m.len() as int)[j]
                },
        ),
        max_page_end(delta_upto(b, m, n)) <= m.len(),
    decreases n,
{
    let s = zero_extend(b, m.len() as int);
    if n > 0 {
        let i = n - 1;
        lemma_page_step(i, m.len() as int);
        lemma_page_bounds(i, m.len() as int);
        if i > 0 {
            lemma_page_step(i - 1, m.len() as int);
            lemma_page_bounds(i - 1, m.len() as int);
        }
        lemma_delta_upto_prefix(b, m, n - 1);
        assert(i == 0 ==> page_end(i - 1, m.len() as int) <= page_start(i));
        assert(i > 0 ==> page_end(i - 1, m.len() as int) == page_start(i));
        assert(i < u32::MAX) by (nonlinear_arith)
            requires
                i * 65536 < m.len(),
                m.len() <= 4294967295 * 65536,
        ;
        let prev = apply_pages(s, delta_upto(b, m, n - 1));
        let st = page_start(i);
        let en = page_end(i, m.len() as int);
        let target = Seq::new(
            m.len(),
            |j: int|
                if j < page_end(n - 1, m.len() as int) && n > 0 {
                    m[j]
                } else {
                    s[j]
                },
        );
        if page_changed(b, m, i) {
            let e = (i as u32, m.subrange(st, en));
            lemma_apply_pages_push(s, delta_upto(b, m, n - 1), e);
            assert(apply_pages(s, delta_upto(b, m, n)) =~= target);
        } else {
            assert forall|j: int| st <= j < en implies m[j] == s[j] by {
                assert(m.subrange(st, en)[j - st] == b.subrange(st, en)[j - st]);
            }
            assert(apply_pages(s, delta_upto(b, m, n)) =~= target);
        }
    }
}

proof fn lemma_delta_upto_contains(b: Seq<u8>, m: Seq<u8>, n: int, i: int)
    requires
        0 <= i < n,
        page_changed(b, m, i),
    ensures
        delta_upto(b, m, n).contains((i as u32, m.subrange(page_start(i), page_end(i, m.len() as int)))),
    decreases n,
{
    let e = (i as u32, m.subrange(page_start(i), page_end(i, m.len() as int)));
    if i == n - 1 {
        assert(delta_upto(b, m, n).last() == e);
    } else {
        lemma_delta_upto_contains(b, m, n - 1, i);
        let prev = delta_upto(b, m, n - 1);
        let k = choose|k: int| 0 <= k < prev.len() && #[trigger] prev[k] == e;
        if page_changed(b, m, n - 1) {
            assert(delta_upto(b, m, n)[k] == e);
        } else {
            assert(delta_upto(b, m, n) == prev);
        }
    }
}

/// Delta round trip: rebuilding from baseline `b` with the delta of `m`
/// against `b` and `m`'s length as target gives `m` back, whenever memory did
/// not shrink. When `b` is empty and `m` is not, the delta is not empty, so the
/// rebuild has a source of truth.
pub proof fn lemma_delta_round_trip(b: Seq<u8>, m: Seq<u8>)
    requires
        b.len() <= m.len(),
        m.len() <= max_delta_memory_len(),
    ensures
        rebuild(b, memory_delta(b, m), m.len() as int) == m,
        b.len() == 0 && m.len() > 0 ==> memory_delta(b, m).len() > 0,
{
    let n = num_pages(m.len() as int);
    if m.len() > 0 {
        assert(n >= 1 && page_start(n - 1) < m.len() && page_end(n - 1, m.len() as int) == m.len())
            by (nonlinear_arith)
            requires
                n == (m.len() + 65535) / 65536,
                m.len() > 0,
                page_start(n - 1) == (n - 1) * 65536,
                page_end(n - 1, m.len() as int) == (if n * 65536 <= m.len() {
                    n * 65536
                } else {
                    m.len() as int
                }),
        ;
        lemma_delta_upto_prefix(b, m, n);
        if b.len() == 0 {
            lemma_page_bounds(0, m.len() as int);
            lemma_delta_upto_contains(b, m, n, 0);
        }
    } else {
        assert(n == 0) by (nonlinear_arith)
            requires
                n == (m.len() + 65535) / 65536,
                m.len() == 0,
        ;
    }
    assert(rebuild(b, memory_delta(b, m), m.len() as int) =~= m);
}

/// Growth: every page of `m` that lies past the end of baseline `b` travels in
/// the delta, holding `m`'s bytes verbatim.
pub proof fn lemma_delta_carries_new_pages(b: Seq<u8>, m: Seq<u8>, i: int)
    requires
        b.len() <= m.len(),
        m.len() <= max_delta_memory_len(),
        0 <= i,
        b.len() <= page_start(i) < m.len(),
    ensures
        memory_delta(b, m).contains((i as u32, m.subrange(page_start(i), page_end(i, m.len() as int)))),
{
    lemma_page_bounds(i, m.len() as int);
    lemma_delta_upto_contains(b, m, num_pages(m.len() as int), i);
}

/// Empty delta: rebuilding from `b` with no pages and `b`'s length as target gives `b`.
pub proof fn lemma_empty_delta_identity(b: Seq<u8>)
    ensures
        rebuild(b, Seq::empty(), b.len() as int) == b,
{
    assert(rebuild(b, Seq::empty(), b.len() as int) =~= b);
}

/// The byte ranges `[a, a + la)` and `[c, c + lc)` do not overlap.
pub open spec fn ranges_apart(a: int, la: int, c: int, lc: int) -> bool {
    a + la <= c || c + lc <= a
}

/// No page index of `d1` occurs in `d2`.
pub open spec fn page_indices_disjoint(d1: Seq<(u32, Seq<u8>)>, d2: Seq<(u32, Seq<u8>)>) -> bool {
    forall|k1: int, k2: int| 0 <= k1 < d1.len() && 0 <= k2 < d2.len() ==> d1[k1].0 != d2[k2].0
}

/// No delta page is longer than one page.
pub open spec fn pages_within_page(d: Seq<(u32, Seq<u8>)>) -> bool {
    forall|k: int| 0 <= k < d.len() ==> d[k].1.len() <= page_size()
}

proof fn lemma_write_commute(s: Seq<u8>, a: int, da: Seq<u8>, c: int, dc: Seq<u8>)
    requires
        ranges_apart(a, da.len() as int, c, dc.len() as int),
    ensures
        write_at(write_at(s, a, da), c, dc) == write_at(write_at(s, c, dc), a, da),
{
    assert(write_at(write_at(s, a, da), c, dc) =~= write_at(write_at(s, c, dc), a, da));
}

proof fn lemma_pages_apart(i1: u32, l1: int, i2: u32, l2: int)
    requires
        i1 != i2,
        0 <= l1 <= page_size(),
        0 <= l2 <= page_size(),
    ensures
        ranges_apart(page_start(i1 as int), l1, page_start(i2 as int), l2),
{
    if i1 < i2 {
        assert((i1 + 1) * 65536 <= i2 * 65536) by (nonlinear_arith)
            requires
                i1 + 1 <= i2,
        ;
        lemma_page_step(i1 as int, 0);
    } else {
        assert((i2 + 1) * 65536 <= i1 * 65536) by (nonlinear_arith)
            requires
                i2 + 1 <= i1,
        ;
        lemma_page_step(i2 as int, 0);
    }
}

proof fn lemma_apply_past_write(s: Seq<u8>, d: Seq<(u32, Seq<u8>)>, p: (u32, Seq<u8>))
    requires
        pages_within_page(d),
        p.1.len() <= page_size(),
        forall|k: int| 0 <= k < d.len() ==> d[k].0 != p.0,
    ensures
        apply_pages(write_at(s, page_start(p.0 as int), p.1), d) == write_at(
            apply_pages(s, d),
            page_start(p.0 as int),
            p.1,
        ),
    decreases d.len(),
{
    if d.len() > 0 {
        let q = d.last();
        lemma_apply_past_write(s, d.drop_last(), p);
        lemma_pages_apart(p.0, p.1.len() as int, q.0, q.1.len() as int);
        lemma_write_commute(
            apply_pages(s, d.drop_last()),
            page_start(p.0 as int),
            p.1,
            page_start(q.0 as int),
            q.1,
        );
    }
}

/// Page independence: two deltas whose page indices are disjoint, and whose
/// pages are no longer than a page, give the same image in either order.
pub proof fn lemma_disjoint_deltas_commute(
    s: Seq<u8>,
    d1: Seq<(u32, Seq<u8>)>,
    d2: Seq<(u32, Seq<u8>)>,
)
    requires
        page_indices_disjoint(d1, d2),
        pages_within_page(d1),
        pages_within_page(d2),
    ensures
        apply_pages(apply_pages(s, d1), d2) == apply_pages(apply_pages(s, d2), d1),
    decreases d2.len(),
{
    if d2.len() > 0 {
        let p = d2.last();
        let d2r = d2.drop_last();
        assert(page_indices_disjoint(d1, d2r));
        lemma_disjoint_deltas_commute(s, d1, d2r);
        assert forall|k: int| 0 <= k < d1.len() implies d1[k].0 != p.0 by {
            assert(d2[d2.len() - 1] == p);
        }
        lemma_apply_past_write(apply_pages(s, d2r), d1, p);
    }
}

} // verus!

verus! {

/// Applying a concatenation of deltas is applying one after the other.
pub proof fn lemma_apply_pages_concat(s: Seq<u8>, d1: Seq<(u32, Seq<u8>)>, d2: Seq<(u32, Seq<u8>)>)
    ensures
        apply_pages(s, d1 + d2) == apply_pages(apply_pages(s, d1), d2),
    decreases d2.len(),
{
    if d2.len() == 0 {
        assert(d1 + d2 =~= d1);
    } else {
        assert((d1 + d2).drop_last() =~= d1 + d2.drop_last());
        lemma_apply_pages_concat(s, d1, d2.drop_last());
    }
}

/// Page independence for one list: a delta list made of two parts with
/// disjoint page indices, pages no longer than a page, gives the same image
/// with its parts in either order.
pub proof fn lemma_disjoint_parts_reorder(s: Seq<u8>, d1: Seq<(u32, Seq<u8>)>, d2: Seq<(u32, Seq<u8>)>)
    requires
        page_indices_disjoint(d1, d2),
        pages_within_page(d1),
        pages_within_page(d2),
    ensures
        apply_pages(s, d1 + d2) == apply_pages(s, d2 + d1),
{
    lemma_apply_pages_concat(s, d1, d2);
    lemma_apply_pages_concat(s, d2, d1);
    lemma_disjoint_deltas_commute(s, d1, d2);
}

} // verus!
