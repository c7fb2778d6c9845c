use kafu::memory::{
    apply_delta_pages_in_place, apply_memory_delta, apply_memory_delta_into,
    apply_memory_delta_into_sized, compute_memory_delta_pages, DeltaError, MAIN_MEMORY_PAGE_SIZE,
};

const P: usize = MAIN_MEMORY_PAGE_SIZE;

fn as_refs(d: &[(u32, Vec<u8>)]) -> Vec<(u32, &[u8])> {
    d.iter().map(|(i, v)| (*i, v.as_slice())).collect()
}

fn rebuild(baseline: &[u8], delta: &[(u32, Vec<u8>)], target: usize) -> Vec<u8> {
    let mut out = Vec::new();
    apply_memory_delta_into_sized(baseline, &as_refs(delta), &mut out, target).unwrap();
    out
}

#[test]
fn delta_round_trip_same_size() {
    let baseline = vec![7u8; 3 * P];
    let mut current = baseline.clone();
    current[5] = 1;
    current[2 * P + 10] = 2;
    let delta = compute_memory_delta_pages(&baseline, &current);
    let pages: Vec<u32> = delta.iter().map(|(i, _)| *i).collect();
    assert_eq!(pages, vec![0, 2]);
    assert_eq!(rebuild(&baseline, &delta, current.len()), current);
}

#[test]
fn delta_round_trip_under_growth() {
    let baseline = vec![0u8; P];
    let mut current = vec![0u8; 3 * P];
    current[0] = 1;
    for b in &mut current[2 * P..3 * P] {
        *b = 0xAA;
    }
    let delta = compute_memory_delta_pages(&baseline, &current);
    let pages: Vec<u32> = delta.iter().map(|(i, _)| *i).collect();
    assert_eq!(pages, vec![0, 1, 2]);
    assert_eq!(delta[2].1, vec![0xAAu8; P]);
    let rebuilt = rebuild(&baseline, &delta, 3 * P);
    assert_eq!(rebuilt.len(), 3 * P);
    assert_eq!(rebuilt, current);
}

#[test]
fn delta_of_equal_memories_is_empty() {
    let baseline = vec![3u8; 2 * P];
    let delta = compute_memory_delta_pages(&baseline, &baseline);
    assert!(delta.is_empty());
}

#[test]
fn short_last_page_is_compared_over_its_length() {
    let baseline = vec![1u8; P + 10];
    let mut current = baseline.clone();
    current[P + 9] = 9;
    let delta = compute_memory_delta_pages(&baseline, &current);
    assert_eq!(delta.len(), 1);
    assert_eq!(delta[0].0, 1);
    assert_eq!(delta[0].1.len(), 10);
    assert_eq!(rebuild(&baseline, &delta, current.len()), current);
}

#[test]
fn empty_delta_is_identity() {
    let baseline: Vec<u8> = (0..2 * P).map(|i| (i % 251) as u8).collect();
    assert_eq!(rebuild(&baseline, &[], baseline.len()), baseline);
}

#[test]
fn empty_baseline_and_no_pages_is_an_error() {
    let mut out = vec![1u8, 2, 3];
    let r = apply_memory_delta_into_sized(&[], &[], &mut out, P);
    assert_eq!(r, Err(DeltaError::NoSourceOfTruth));
    assert_eq!(out, vec![1u8, 2, 3]);
    assert_eq!(apply_memory_delta(&[], &[]), Err(DeltaError::NoSourceOfTruth));
}

#[test]
fn target_length_grows_with_zeros() {
    let baseline = vec![5u8; 4];
    let mut out = vec![9u8; 10];
    apply_memory_delta_into_sized(&baseline, &[], &mut out, 8).unwrap();
    assert_eq!(out, vec![5, 5, 5, 5, 0, 0, 0, 0]);
    let mut out2 = Vec::new();
    apply_memory_delta_into(&baseline, &[], &mut out2).unwrap();
    assert_eq!(out2, baseline);
}

#[test]
fn pages_past_baseline_extend_the_image() {
    let baseline = vec![1u8; 4];
    let page = vec![2u8; 3];
    let out = apply_memory_delta(&baseline, &[(1, page.as_slice())]).unwrap();
    assert_eq!(out.len(), P + 3);
    assert_eq!(&out[0..4], &[1, 1, 1, 1]);
    assert!(out[4..P].iter().all(|b| *b == 0));
    assert_eq!(&out[P..], &[2, 2, 2]);
}

#[test]
fn disjoint_deltas_commute() {
    let base = vec![0u8; 3 * P];
    let d1 = vec![(0u32, vec![1u8; P])];
    let d2 = vec![(2u32, vec![2u8; P])];
    let a = rebuild(&rebuild(&base, &d1, 3 * P), &d2, 3 * P);
    let b = rebuild(&rebuild(&base, &d2, 3 * P), &d1, 3 * P);
    assert_eq!(a, b);
}

#[test]
fn in_place_update_grows_and_writes() {
    let mut mem = vec![4u8; P];
    apply_delta_pages_in_place(&mut mem, 2 * P, &[(1, vec![6u8; P])]);
    assert_eq!(mem.len(), 2 * P);
    assert!(mem[..P].iter().all(|b| *b == 4));
    assert!(mem[P..].iter().all(|b| *b == 6));
    let mut small = vec![0u8; 4];
    apply_delta_pages_in_place(&mut small, 0, &[(1, vec![6u8; 4])]);
    assert_eq!(small, vec![0u8; 4]);
}
