use mcbe_fisher::game::{rod_offsets, rod_walk, ROD_BASE_OFFSET};
use mcbe_fisher::pointer::{PointerWalk, ResolveError};
use std::collections::HashMap;

fn drive(walk: &mut PointerWalk, memory: &HashMap<usize, usize>) -> usize {
    let mut reads = 0;
    while let Some(a) = walk.pending_read() {
        reads += 1;
        walk.supply(memory.get(&a).copied());
    }
    reads
}

#[test]
fn resolves_chain_with_one_read_per_offset() {
    let memory: HashMap<usize, usize> = [(100, 1000), (1001, 2000), (2002, 3000)].into_iter().collect();
    let mut w = PointerWalk::new(100, vec![1, 2, 3]);
    assert_eq!(w.outcome(), None);
    let reads = drive(&mut w, &memory);
    assert_eq!(reads, 3);
    assert_eq!(w.reads_taken(), 3);
    assert_eq!(w.outcome(), Some(Ok(3003)));
}

#[test]
fn last_address_is_not_followed() {
    let memory: HashMap<usize, usize> = [(10, 50), (58, 7)].into_iter().collect();
    let mut w = PointerWalk::new(10, vec![8, 4]);
    assert_eq!(drive(&mut w, &memory), 2);
    assert_eq!(w.outcome(), Some(Ok(11)));
}

#[test]
fn empty_chain_resolves_to_base_without_reads() {
    let mut w = PointerWalk::new(42, vec![]);
    assert_eq!(w.pending_read(), None);
    assert_eq!(drive(&mut w, &HashMap::new()), 0);
    assert_eq!(w.outcome(), Some(Ok(42)));
}

#[test]
fn failure_at_any_step_stops_without_address() {
    let full: Vec<(usize, usize)> = vec![(100, 1000), (1001, 2000), (2002, 3000)];
    for k in 0..3 {
        let memory: HashMap<usize, usize> = full.iter().take(k).copied().collect();
        let mut w = PointerWalk::new(100, vec![1, 2, 3]);
        let reads = drive(&mut w, &memory);
        assert_eq!(reads, k + 1);
        assert_eq!(w.reads_taken(), k + 1);
        assert_eq!(w.outcome(), Some(Err(ResolveError::ReadFailed { step: k })));
        assert_eq!(w.pending_read(), None);
    }
}

#[test]
fn results_after_failure_are_ignored() {
    let mut w = PointerWalk::new(5, vec![1, 1]);
    w.supply(None);
    w.supply(Some(77));
    assert_eq!(w.outcome(), Some(Err(ResolveError::ReadFailed { step: 0 })));
    assert_eq!(w.reads_taken(), 1);
}

#[test]
fn overflowing_address_is_an_error() {
    let mut w = PointerWalk::new(5, vec![0, 16]);
    assert_eq!(w.pending_read(), Some(5));
    w.supply(Some(usize::MAX - 3));
    assert_eq!(w.pending_read(), Some(usize::MAX - 3));
    w.supply(Some(usize::MAX - 3));
    assert_eq!(w.outcome(), Some(Err(ResolveError::AddressOverflow { step: 1 })));
    assert_eq!(w.pending_read(), None);
}

#[test]
fn pending_read_follows_pointer_plus_offset() {
    let mut w = PointerWalk::new(0x1000, vec![0x10, 0x20]);
    assert_eq!(w.pending_read(), Some(0x1000));
    w.supply(Some(0x5000));
    assert_eq!(w.pending_read(), Some(0x5010));
    w.supply(Some(0x9000));
    assert_eq!(w.pending_read(), None);
    assert_eq!(w.outcome(), Some(Ok(0x9020)));
}

#[test]
fn rod_chain_offsets() {
    assert_eq!(rod_offsets(), vec![0, 0x230, 0x18, 0x798, 0x48, 0x10, 0x78, 0xC]);
    assert_eq!(ROD_BASE_OFFSET, 0x05A5D218);
}

#[test]
fn rod_walk_starts_past_module_base() {
    let w = rod_walk(0x7FF0_0000_0000).unwrap();
    assert_eq!(w.pending_read(), Some(0x7FF0_0000_0000 + 0x05A5D218));
    assert!(rod_walk(usize::MAX).is_none());
}

#[test]
fn rod_walk_takes_eight_reads() {
    let mut w = rod_walk(0).unwrap();
    let mut reads = 0;
    while let Some(_) = w.pending_read() {
        reads += 1;
        w.supply(Some(0x100));
    }
    assert_eq!(reads, 8);
    assert_eq!(w.outcome(), Some(Ok(0x10C)));
}
