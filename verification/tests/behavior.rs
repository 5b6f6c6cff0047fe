use sharedbuf::ring::Ring;
use sharedbuf::ring::RingCore;
use sharedbuf::simple::Simple;
use sharedbuf::Buffer;
use sharedbuf::Store;
use sharedbuf::UnboundedCore;

#[test]
fn unbounded_empty_then_two() {
    // Unbounded buffer: append [] then append [1, 2]; the drain returns [1, 2].
    let mut buf = Simple::<u64>::default();
    let n = buf.append(Vec::new());
    assert_eq!(n, 0);
    let n = buf.append(vec![1, 2]);
    assert_eq!(n, 2);
    assert_eq!(buf.get_and_clear(), vec![1, 2]);
}

#[test]
fn bounded_capacity_five_scenario() {
    // Bounded buffer of capacity 5: append [1,2,3] then [4,5,6,7]; stored size
    // is 5, contents are the five most recent elements in append order; a
    // second drain returns [].
    let mut buf = Ring::<u64>::new(5);
    let n = buf.append(vec![1, 2, 3]);
    assert_eq!(n, 3);
    let n = buf.append(vec![4, 5, 6, 7]);
    assert_eq!(n, 5);
    assert_eq!(buf.get_and_clear(), vec![3, 4, 5, 6, 7]);
    assert_eq!(buf.get_and_clear(), Vec::<u64>::new());
}

#[test]
fn second_drain_returns_empty() {
    let mut simple = Simple::<u32>::default();
    simple.append(vec![7, 8, 9]);
    assert_eq!(simple.get_and_clear(), vec![7, 8, 9]);
    assert_eq!(simple.get_and_clear(), Vec::<u32>::new());

    let mut ring = Ring::<u32>::new(4);
    ring.append(vec![7, 8, 9]);
    assert_eq!(ring.get_and_clear(), vec![7, 8, 9]);
    assert_eq!(ring.get_and_clear(), Vec::<u32>::new());

    let mut buffer = Buffer::<u32>::default();
    buffer.append(&mut vec![7, 8, 9]);
    assert_eq!(buffer.get_and_clear(), vec![7, 8, 9]);
    assert_eq!(buffer.get_and_clear(), Vec::<u32>::new());
}

#[test]
fn empty_batch_changes_nothing() {
    let mut simple = Simple::<i64>::default();
    assert_eq!(simple.append(vec![5, 6]), 2);
    assert_eq!(simple.append(Vec::new()), 2);
    assert_eq!(simple.get_and_clear(), vec![5, 6]);

    let mut ring = Ring::<i64>::new(2);
    assert_eq!(ring.append(vec![5, 6]), 2);
    assert_eq!(ring.append(Vec::new()), 2);
    assert_eq!(ring.get_and_clear(), vec![5, 6]);
}

#[test]
fn buffer_append_reports_size_and_drains_input() {
    let mut buf = Buffer::<u8>::default();
    let mut batch = vec![10, 20];
    assert_eq!(buf.append(&mut batch), 2);
    assert!(batch.is_empty());
    let mut batch = vec![30];
    assert_eq!(buf.append(&mut batch), 3);
    assert!(batch.is_empty());
    assert_eq!(buf.get_and_clear(), vec![10, 20, 30]);
}

#[test]
fn oversized_batch_keeps_last_capacity_elements() {
    // A batch longer than the capacity: only its last `capacity` elements
    // survive, and everything previously stored is evicted.
    let mut buf = Ring::<u64>::new(5);
    buf.append(vec![100, 101]);
    let n = buf.append(vec![1, 2, 3, 4, 5, 6, 7, 8, 9, 10, 11, 12]);
    assert_eq!(n, 5);
    assert_eq!(buf.get_and_clear(), vec![8, 9, 10, 11, 12]);
}

#[test]
fn zero_capacity_discards_everything() {
    // Capacity 0 is accepted: every append is fully discarded.
    let mut buf = Ring::<u64>::new(0);
    assert_eq!(buf.append(vec![1, 2, 3]), 0);
    assert_eq!(buf.get_and_clear(), Vec::<u64>::new());
    assert_eq!(buf.append(Vec::new()), 0);
    assert_eq!(buf.get_and_clear(), Vec::<u64>::new());
}

#[test]
fn clone_shares_storage() {
    // Duplicating a handle shares the storage: appends through any clone are
    // seen by drains through any other.
    let mut a = Simple::<u64>::default();
    let mut b = a.clone();
    a.append(vec![1]);
    b.append(vec![2]);
    assert_eq!(a.get_and_clear(), vec![1, 2]);
    assert_eq!(b.get_and_clear(), Vec::<u64>::new());

    let mut r1 = Ring::<u64>::new(3);
    let mut r2 = r1.clone();
    r1.append(vec![1, 2]);
    r2.append(vec![3, 4]);
    assert_eq!(r1.get_and_clear(), vec![2, 3, 4]);

    let mut u1 = Buffer::<u64>::default();
    let mut u2 = u1.clone();
    u1.append(&mut vec![5]);
    u2.append(&mut vec![6]);
    assert_eq!(u2.get_and_clear(), vec![5, 6]);
}

#[test]
fn cloned_handles_accumulate_disjoint_batches() {
    // Several producer handles, each appending disjoint batches of equal
    // size: one final drain returns every element exactly once.
    let producers: usize = 8;
    let batch_size: usize = 25;
    let shared = Simple::<usize>::default();
    let mut handles: Vec<Simple<usize>> = (0..producers).map(|_| shared.clone()).collect();
    for (p, handle) in handles.iter_mut().enumerate() {
        let batch: Vec<usize> = (0..batch_size).map(|k| p * batch_size + k).collect();
        handle.append(batch);
    }
    let mut drained = shared.clone().get_and_clear();
    assert_eq!(drained.len(), producers * batch_size);
    drained.sort();
    let expected: Vec<usize> = (0..producers * batch_size).collect();
    assert_eq!(drained, expected);
}

#[test]
fn multi_write_in_chunks_drains_when_full() {
    // Many producer handles append fixed-size chunks to one shared store and
    // drain it whenever the reported size reaches the high-water mark.
    let target: usize = 1000;
    let chunks: usize = 10;
    let chunk = target / chunks;
    let shared = Buffer::<u64>::default();
    let mut total_drained: usize = 0;
    for _ in 0..4 {
        let mut producer = shared.clone();
        for _ in 0..chunks {
            let mut batch: Vec<u64> = vec![7; chunk];
            let len = producer.append(&mut batch);
            assert!(len >= chunk);
            if len == target {
                let data = producer.clone().get_and_clear();
                total_drained += data.len();
            }
        }
    }
    total_drained += shared.clone().get_and_clear().len();
    assert_eq!(total_drained, 4 * target);
}

fn feed<S: Store<u64>>(store: &mut S) -> Vec<u64> {
    store.append(vec![1, 2, 3]);
    store.append(vec![4]);
    store.get_and_clear()
}

#[test]
fn capability_is_backend_agnostic() {
    // The same caller runs against either backend through the capability.
    let mut simple = Simple::<u64>::default();
    assert_eq!(feed(&mut simple), vec![1, 2, 3, 4]);
    let mut roomy = Ring::<u64>::new(10);
    assert_eq!(feed(&mut roomy), vec![1, 2, 3, 4]);
    let mut tight = Ring::<u64>::new(2);
    assert_eq!(feed(&mut tight), vec![3, 4]);
}

#[test]
fn unbounded_core_exact_semantics() {
    // The unbounded store itself: every appended element is kept in order,
    // append reports the exact stored size, and a drain resets the store.
    let mut core = UnboundedCore::<u64>::new();
    let mut batch = Vec::new();
    assert_eq!(core.append(&mut batch), 0);
    let mut batch = vec![1, 2];
    assert_eq!(core.append(&mut batch), 2);
    assert!(batch.is_empty());
    let mut batch = vec![3];
    assert_eq!(core.append(&mut batch), 3);
    assert_eq!(core.get_and_clear(), vec![1, 2, 3]);
    assert_eq!(core.get_and_clear(), Vec::<u64>::new());
}

#[test]
fn ring_core_window_semantics() {
    // The bounded store itself: exact window semantics, drain resets it and
    // keeps the capacity.
    let mut core = RingCore::<u64>::new(3);
    assert_eq!(core.append_batch(vec![1]), 1);
    assert_eq!(core.append_batch(vec![2, 3, 4]), 3);
    assert_eq!(core.get_and_clear(), vec![2, 3, 4]);
    assert_eq!(core.append_batch(vec![5]), 1);
    assert_eq!(core.get_and_clear(), vec![5]);
}
