use iv_dashboard::channel::{
    drain_latest, open_channel, take_in, DrainEnd, Received, CHANNEL_CAPACITY,
};

type Dataset = Vec<(f64, f64)>;

fn dataset(n: u32) -> Dataset {
    vec![(800.0 + n as f64, 0.02 * n as f64)]
}

#[test]
fn burst_of_five_drains_to_the_fifth() {
    let (tx, mut rx) = open_channel::<Dataset>(CHANNEL_CAPACITY).unwrap();
    for n in 1..=5 {
        tx.try_send(dataset(n)).unwrap();
    }
    let mut held: Dataset = Vec::new();
    let report = drain_latest(&mut rx, &mut held, CHANNEL_CAPACITY);
    assert_eq!(held, dataset(5));
    assert_eq!(report.taken, 5);
    assert_eq!(report.end, DrainEnd::Empty);
    assert!(rx.try_recv().is_err());
}

#[test]
fn channel_capacity_is_eight() {
    assert_eq!(CHANNEL_CAPACITY, 8);
    let (tx, rx) = open_channel::<u32>(CHANNEL_CAPACITY).unwrap();
    assert_eq!(rx.max_capacity(), 8);
    for n in 0..8 {
        assert!(tx.try_send(n).is_ok());
    }
    assert!(tx.try_send(8).is_err());
}

#[test]
fn drain_keeps_the_last_of_every_burst_size() {
    for size in 1..=CHANNEL_CAPACITY as u32 {
        let (tx, mut rx) = open_channel::<Dataset>(CHANNEL_CAPACITY).unwrap();
        for n in 1..=size {
            tx.try_send(dataset(n)).unwrap();
        }
        let mut held = dataset(0);
        let report = drain_latest(&mut rx, &mut held, CHANNEL_CAPACITY);
        assert_eq!(held, dataset(size));
        assert_eq!(report.taken, size as usize);
    }
}

#[test]
fn drain_of_an_empty_channel_changes_nothing() {
    let (_tx, mut rx) = open_channel::<Dataset>(CHANNEL_CAPACITY).unwrap();
    let mut held = dataset(3);
    let report = drain_latest(&mut rx, &mut held, CHANNEL_CAPACITY);
    assert_eq!(held, dataset(3));
    assert_eq!(report.taken, 0);
    assert_eq!(report.end, DrainEnd::Empty);
}

#[test]
fn two_drains_without_a_publish_hold_the_same() {
    let (tx, mut rx) = open_channel::<Dataset>(CHANNEL_CAPACITY).unwrap();
    tx.try_send(dataset(1)).unwrap();
    let mut held = dataset(0);
    drain_latest(&mut rx, &mut held, CHANNEL_CAPACITY);
    let after_first = held.clone();
    let report = drain_latest(&mut rx, &mut held, CHANNEL_CAPACITY);
    assert_eq!(held, after_first);
    assert_eq!(report.taken, 0);
}

#[test]
fn drain_stops_at_the_limit_and_goes_on_next_time() {
    let (tx, mut rx) = open_channel::<u32>(CHANNEL_CAPACITY).unwrap();
    for n in 1..=5 {
        tx.try_send(n).unwrap();
    }
    let mut held = 0;
    let report = drain_latest(&mut rx, &mut held, 3);
    assert_eq!(held, 3);
    assert_eq!(report.taken, 3);
    assert_eq!(report.end, DrainEnd::Limit);
    let report = drain_latest(&mut rx, &mut held, 3);
    assert_eq!(held, 5);
    assert_eq!(report.taken, 2);
    assert_eq!(report.end, DrainEnd::Empty);
}

#[test]
fn drain_with_a_limit_of_zero_takes_nothing() {
    let (tx, mut rx) = open_channel::<u32>(CHANNEL_CAPACITY).unwrap();
    tx.try_send(1).unwrap();
    let mut held = 0;
    let report = drain_latest(&mut rx, &mut held, 0);
    assert_eq!(held, 0);
    assert_eq!(report.taken, 0);
    assert_eq!(report.end, DrainEnd::Limit);
    assert_eq!(rx.try_recv(), Ok(1));
}

#[test]
fn drain_tells_a_closed_channel_from_an_empty_one() {
    let (tx, mut rx) = open_channel::<u32>(CHANNEL_CAPACITY).unwrap();
    tx.try_send(1).unwrap();
    tx.try_send(2).unwrap();
    drop(tx);
    let mut held = 0;
    let report = drain_latest(&mut rx, &mut held, CHANNEL_CAPACITY);
    assert_eq!(held, 2);
    assert_eq!(report.taken, 2);
    assert_eq!(report.end, DrainEnd::Closed);
}

#[test]
fn snapshots_are_observed_in_the_order_published() {
    let (tx, mut rx) = open_channel::<u32>(CHANNEL_CAPACITY).unwrap();
    let mut held = 0;
    let mut observed = Vec::new();
    tx.try_send(1).unwrap();
    tx.try_send(2).unwrap();
    drain_latest(&mut rx, &mut held, CHANNEL_CAPACITY);
    observed.push(held);
    drain_latest(&mut rx, &mut held, CHANNEL_CAPACITY);
    observed.push(held);
    tx.try_send(3).unwrap();
    drain_latest(&mut rx, &mut held, CHANNEL_CAPACITY);
    observed.push(held);
    tx.try_send(4).unwrap();
    tx.try_send(5).unwrap();
    tx.try_send(6).unwrap();
    drain_latest(&mut rx, &mut held, CHANNEL_CAPACITY);
    observed.push(held);
    assert_eq!(observed, vec![2, 2, 3, 6]);
}

#[test]
fn open_channel_refuses_a_capacity_of_zero() {
    assert!(open_channel::<u32>(0).is_none());
}

#[test]
fn open_channel_refuses_a_capacity_beyond_the_bound() {
    assert!(open_channel::<u32>(usize::MAX / 8 + 1).is_none());
    assert!(open_channel::<u32>(usize::MAX).is_none());
    assert!(open_channel::<u32>(1).is_some());
}

#[test]
fn take_in_replaces_the_held_dataset_whole() {
    let mut held = dataset(1);
    let end = take_in(&mut held, Received::Snapshot(dataset(2)));
    assert_eq!(end, None);
    assert_eq!(held, dataset(2));
}

#[test]
fn take_in_leaves_the_held_dataset_on_empty_and_closed() {
    let mut held = dataset(1);
    assert_eq!(take_in(&mut held, Received::Empty), Some(DrainEnd::Empty));
    assert_eq!(held, dataset(1));
    assert_eq!(take_in(&mut held, Received::Closed), Some(DrainEnd::Closed));
    assert_eq!(held, dataset(1));
}
