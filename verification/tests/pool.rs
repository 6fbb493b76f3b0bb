use std::sync::Arc;

use skim_core::pool::ItemPool;

fn batch(vals: &[u64]) -> Vec<Arc<u64>> {
    vals.iter().map(|v| Arc::new(*v)).collect()
}

fn values(items: &[Arc<u64>]) -> Vec<u64> {
    items.iter().map(|a| **a).collect()
}

#[test]
fn append_grows_len_by_batch_size() {
    let mut p = ItemPool::<u64>::new();
    assert_eq!(p.len(), 0);
    assert!(p.is_empty());
    let n = p.append(batch(&[1, 2, 3]));
    assert_eq!(n, 3);
    assert_eq!(p.len(), 3);
    assert!(p.num_taken() <= p.len());
    p.append(batch(&[4, 5]));
    assert_eq!(p.len(), 5);
    assert!(p.num_taken() <= p.len());
    assert_eq!(p.num_not_taken(), 5);
}

#[test]
fn append_straddles_reserved_boundary() {
    let mut p = ItemPool::<u64>::new().lines_to_reserve(2);
    p.append(batch(&[10]));
    assert_eq!(values(&p.reserved().items), vec![10]);
    // one more reserved slot is open: a batch of three is split
    let n = p.append(batch(&[20, 30, 40]));
    assert_eq!(n, 4);
    assert_eq!(values(&p.reserved().items), vec![10, 20]);
    let g = p.take();
    assert_eq!(values(&g.items), vec![30, 40]);
    // the reserved view is idempotent and unclaimed
    assert_eq!(values(&p.reserved().items), vec![10, 20]);
}

#[test]
fn reserved_full_then_all_to_main() {
    let mut p = ItemPool::<u64>::new().lines_to_reserve(1);
    p.append(batch(&[1, 2]));
    assert_eq!(values(&p.reserved().items), vec![1]);
    p.append(batch(&[3]));
    assert_eq!(values(&p.reserved().items), vec![1]);
    assert_eq!(values(&p.take().items), vec![2, 3]);
}

#[test]
fn take_twice_returns_empty_then_new_items() {
    let mut p = ItemPool::<u64>::new();
    p.append(batch(&[1, 2, 3]));
    assert_eq!(values(&p.take().items), vec![1, 2, 3]);
    assert_eq!(p.take().items.len(), 0);
    p.append(batch(&[4, 5]));
    assert_eq!(values(&p.take().items), vec![4, 5]);
    assert_eq!(p.num_taken(), 5);
}

#[test]
fn reset_then_take_returns_full_main_pool() {
    let mut p = ItemPool::<u64>::new();
    p.append(batch(&[1, 2, 3]));
    assert_eq!(values(&p.take().items), vec![1, 2, 3]);
    p.reset();
    assert_eq!(p.num_taken(), 0);
    assert_eq!(p.len(), 3);
    assert_eq!(values(&p.take().items), vec![1, 2, 3]);
}

#[test]
fn clear_empties_everything() {
    let mut p = ItemPool::<u64>::new().lines_to_reserve(1);
    p.append(batch(&[1, 2, 3]));
    p.take();
    p.clear();
    assert_eq!(p.len(), 0);
    assert_eq!(p.num_taken(), 0);
    assert_eq!(p.num_not_taken(), 0);
    assert!(p.is_empty());
    assert_eq!(p.reserved().items.len(), 0);
    // the reserve configuration survives a clear
    p.append(batch(&[7, 8]));
    assert_eq!(values(&p.reserved().items), vec![7]);
    assert_eq!(values(&p.take().items), vec![8]);
}

#[test]
fn default_pool_is_empty_with_no_reserve() {
    let mut p = ItemPool::<u64>::default();
    assert_eq!(p.len(), 0);
    p.append(batch(&[9]));
    assert_eq!(p.reserved().items.len(), 0);
    assert_eq!(values(&p.take().items), vec![9]);
}
