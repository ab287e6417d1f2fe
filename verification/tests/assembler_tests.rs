use acpcap::assembler::{AsmError, AssemblerConfig, FragmentAssembler};

fn fresh_assembler() -> FragmentAssembler {
    FragmentAssembler::new(AssemblerConfig::standard())
}

#[test]
fn single_fragment_emits_directly() {
    let mut a = fresh_assembler();
    let r = a.push_fragment(1, 7, 1, 0, vec![1, 2, 3], 100).unwrap();
    assert_eq!(r, Some(vec![1, 2, 3]));
    assert_eq!(a.group_count(), 0);
}

#[test]
fn two_fragments_out_of_order_assemble_in_index_order() {
    let mut a = fresh_assembler();
    // Index 1 arrives first; nothing is emitted until index 0 lands.
    let r1 = a.push_fragment(1, 7, 2, 1, vec![4, 5, 6], 100).unwrap();
    assert_eq!(r1, None);
    assert_eq!(a.group_count(), 1);
    let r2 = a.push_fragment(1, 7, 2, 0, vec![1, 2, 3], 101).unwrap();
    assert_eq!(r2, Some(vec![1, 2, 3, 4, 5, 6]));
    assert_eq!(a.group_count(), 0);
}

#[test]
fn permuted_three_fragments_assemble_once() {
    let mut a = fresh_assembler();
    assert_eq!(a.push_fragment(0, 9, 3, 2, vec![30], 1).unwrap(), None);
    assert_eq!(a.push_fragment(0, 9, 3, 0, vec![10], 2).unwrap(), None);
    let r = a.push_fragment(0, 9, 3, 1, vec![20], 3).unwrap();
    assert_eq!(r, Some(vec![10, 20, 30]));
}

#[test]
fn interleaved_groups_assemble_as_if_serial() {
    let mut a = fresh_assembler();
    assert_eq!(a.push_fragment(0, 1, 2, 0, vec![1], 1).unwrap(), None);
    assert_eq!(a.push_fragment(0, 2, 2, 1, vec![9], 1).unwrap(), None);
    let p1 = a.push_fragment(0, 1, 2, 1, vec![2], 2).unwrap();
    assert_eq!(p1, Some(vec![1, 2]));
    let p2 = a.push_fragment(0, 2, 2, 0, vec![8], 2).unwrap();
    assert_eq!(p2, Some(vec![8, 9]));

    // Processed serially, each group yields the same payload.
    let mut b = fresh_assembler();
    assert_eq!(b.push_fragment(0, 1, 2, 0, vec![1], 1).unwrap(), None);
    assert_eq!(b.push_fragment(0, 1, 2, 1, vec![2], 2).unwrap(), Some(vec![1, 2]));
    assert_eq!(b.push_fragment(0, 2, 2, 1, vec![9], 1).unwrap(), None);
    assert_eq!(b.push_fragment(0, 2, 2, 0, vec![8], 2).unwrap(), Some(vec![8, 9]));
}

#[test]
fn groups_differ_by_stream() {
    let mut a = fresh_assembler();
    assert_eq!(a.push_fragment(0, 5, 2, 0, vec![1], 1).unwrap(), None);
    assert_eq!(a.push_fragment(1, 5, 2, 0, vec![2], 1).unwrap(), None);
    assert_eq!(a.group_count(), 2);
}

#[test]
fn identical_retransmission_is_accepted_silently() {
    let mut a = fresh_assembler();
    assert_eq!(a.push_fragment(0, 3, 2, 0, vec![1, 2], 1).unwrap(), None);
    assert_eq!(a.push_fragment(0, 3, 2, 0, vec![1, 2], 2).unwrap(), None);
    assert_eq!(a.group_count(), 1);
    assert_eq!(a.push_fragment(0, 3, 2, 1, vec![3], 3).unwrap(), Some(vec![1, 2, 3]));
}

#[test]
fn conflicting_retransmission_drops_the_group() {
    let mut a = fresh_assembler();
    assert_eq!(a.push_fragment(0, 3, 2, 0, vec![1, 2], 1).unwrap(), None);
    let r = a.push_fragment(0, 3, 2, 0, vec![9, 9], 2);
    assert_eq!(r, Err(AsmError::FragmentConflict));
    assert_eq!(a.group_count(), 0);
}

#[test]
fn conflicting_count_drops_the_group() {
    let mut a = fresh_assembler();
    assert_eq!(a.push_fragment(0, 3, 2, 0, vec![1], 1).unwrap(), None);
    let r = a.push_fragment(0, 3, 3, 1, vec![2], 2);
    assert_eq!(r, Err(AsmError::FragmentConflict));
    assert_eq!(a.group_count(), 0);
}

#[test]
fn index_at_or_past_count_is_invalid() {
    let mut a = fresh_assembler();
    assert_eq!(a.push_fragment(0, 3, 2, 2, vec![1], 1), Err(AsmError::InvalidFragment));
    assert_eq!(a.push_fragment(0, 3, 0, 0, vec![1], 1), Err(AsmError::InvalidFragment));
}

#[test]
fn oversized_fragment_is_rejected_unchanged() {
    let mut a = FragmentAssembler::new(
        AssemblerConfig { ttl_secs: 60, max_groups: 8, max_fragment_bytes: 4 },
    );
    let r = a.push_fragment(0, 3, 2, 0, vec![0; 5], 1);
    assert_eq!(r, Err(AsmError::FragmentTooLarge));
    assert_eq!(a.group_count(), 0);
}

#[test]
fn stale_partial_group_is_evicted() {
    let mut a = fresh_assembler();
    assert_eq!(a.push_fragment(0, 5, 3, 0, vec![1], 100).unwrap(), None);
    assert_eq!(a.group_count(), 1);
    // Within the staleness window nothing happens.
    assert_eq!(a.evict_stale(120), 0);
    assert_eq!(a.group_count(), 1);
    // Past it the partial group is dropped.
    assert_eq!(a.evict_stale(161), 1);
    assert_eq!(a.group_count(), 0);
}

#[test]
fn evict_oldest_drops_least_recently_updated() {
    let mut a = fresh_assembler();
    assert_eq!(a.push_fragment(0, 1, 2, 0, vec![1], 10).unwrap(), None);
    assert_eq!(a.push_fragment(0, 2, 2, 0, vec![2], 20).unwrap(), None);
    let k = a.evict_oldest().unwrap();
    assert_eq!(k.group_id, 1);
    assert_eq!(a.group_count(), 1);
}
