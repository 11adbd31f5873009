use rayon::iter::{IntoParallelIterator, ParallelIterator};
use rayon_par_bridge::channel::{forward_item, open_channel};

/// Drive `0..100` doubled through the bridge on a two-thread pool and
/// collect everything the adapter yields.
fn bridge_doubled(bound: usize) -> Vec<u32> {
    let pool = rayon::ThreadPoolBuilder::new().num_threads(2).build().unwrap();
    let data: Vec<u32> = (0u32..100).collect();
    let (sender, mut items) = open_channel(bound);
    let mut result: Vec<u32> = Vec::new();
    pool.scope(|s| {
        s.spawn(move |_| {
            let _ = data.into_par_iter().map(|n| n * 2).try_for_each(|x| forward_item(&sender, x));
        });
        while let Some(x) = items.next() {
            result.push(x);
        }
    });
    result
}

#[test]
fn doubles_all_inputs_with_buffered_channel() {
    let mut result = bridge_doubled(5);
    assert_eq!(result.len(), 100);
    result.sort_unstable();
    let expected: Vec<u32> = (0u32..100).map(|n| n * 2).collect();
    assert_eq!(result, expected);
}

#[test]
fn doubles_all_inputs_with_rendezvous_channel() {
    let mut result = bridge_doubled(0);
    assert_eq!(result.len(), 100);
    result.sort_unstable();
    let expected: Vec<u32> = (0u32..100).map(|n| n * 2).collect();
    assert_eq!(result, expected);
}

#[test]
fn same_source_gives_same_multiset_across_runs() {
    let mut first = bridge_doubled(5);
    let mut second = bridge_doubled(5);
    first.sort_unstable();
    second.sort_unstable();
    assert_eq!(first, second);
}

#[test]
fn early_stop_returns_promptly_with_three_items() {
    let pool = rayon::ThreadPoolBuilder::new().num_threads(2).build().unwrap();
    let data: Vec<u32> = (0u32..100).collect();
    let (sender, mut items) = open_channel(5);
    let mut got: Vec<u32> = Vec::new();
    pool.scope(|s| {
        s.spawn(move |_| {
            let _ = data.into_par_iter().map(|n| n * 2).try_for_each(|x| forward_item(&sender, x));
        });
        let mut taken: usize = 0;
        while taken < 3 {
            match items.next() {
                Some(x) => {
                    got.push(x);
                    taken += 1;
                }
                None => break,
            }
        }
        drop(items);
    });
    assert_eq!(got.len(), 3);
    for x in got {
        assert!(x % 2 == 0 && x <= 198);
    }
}

#[test]
fn single_sender_is_fifo() {
    let (sender, mut items) = open_channel(10);
    for i in 1u32..=3 {
        assert!(forward_item(&sender, i).is_some());
    }
    drop(sender);
    assert_eq!(items.next(), Some(1));
    assert_eq!(items.next(), Some(2));
    assert_eq!(items.next(), Some(3));
    assert_eq!(items.next(), None);
}

#[test]
fn forward_after_adapter_dropped_signals_stop() {
    let (sender, items) = open_channel::<u32>(10);
    drop(items);
    assert!(forward_item(&sender, 1).is_none());
}
