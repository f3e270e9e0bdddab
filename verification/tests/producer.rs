use iv_dashboard::channel::{drain_latest, open_channel, CHANNEL_CAPACITY};
use iv_dashboard::fetch::FetchError;
use iv_dashboard::producer::{
    on_computed, producer_action, producer_advance, ProducerAction, ProducerEvent, ProducerPhase,
    PRODUCER_PERIOD_SECS,
};

#[test]
fn producer_period_is_two_seconds() {
    assert_eq!(PRODUCER_PERIOD_SECS, 2);
    assert_eq!(producer_action(ProducerPhase::Sleeping), ProducerAction::Sleep(2));
}

#[test]
fn a_cycle_computes_publishes_and_sleeps() {
    let mut phase = ProducerPhase::Computing;
    assert_eq!(producer_action(phase), ProducerAction::Compute);
    phase = producer_advance(phase, ProducerEvent::Computed);
    assert_eq!(producer_action(phase), ProducerAction::Publish);
    phase = producer_advance(phase, ProducerEvent::Published);
    assert_eq!(producer_action(phase), ProducerAction::Sleep(PRODUCER_PERIOD_SECS));
    phase = producer_advance(phase, ProducerEvent::Woke);
    assert_eq!(producer_action(phase), ProducerAction::Compute);
}

#[test]
fn a_failed_computation_is_skipped_until_the_next_cycle() {
    for error in [
        FetchError::SessionBootstrap,
        FetchError::TokenExtraction,
        FetchError::HttpStatus(503),
        FetchError::Deserialization,
    ] {
        let (phase, publication) = on_computed::<Vec<(f64, f64)>>(ProducerPhase::Computing, Err(error));
        assert_eq!(phase, ProducerPhase::Sleeping);
        assert_eq!(publication, None);
        assert_eq!(
            producer_advance(ProducerPhase::Computing, ProducerEvent::ComputeFailed(error)),
            ProducerPhase::Sleeping
        );
    }
}

#[test]
fn a_computed_dataset_is_handed_on_to_be_published() {
    let (phase, publication) = on_computed(ProducerPhase::Computing, Ok(vec![(800.0, 0.37)]));
    assert_eq!(phase, ProducerPhase::Publishing);
    assert_eq!(publication, Some(vec![(800.0, 0.37)]));
}

#[test]
fn an_outcome_out_of_turn_is_dropped() {
    for phase in [ProducerPhase::Publishing, ProducerPhase::Sleeping, ProducerPhase::Stopped] {
        let (next, publication) = on_computed(phase, Ok(1u32));
        assert_eq!(next, phase);
        assert_eq!(publication, None);
        let (next, publication) = on_computed::<u32>(phase, Err(FetchError::Deserialization));
        assert_eq!(next, phase);
        assert_eq!(publication, None);
    }
}

#[test]
fn cancelling_stops_the_producer_in_every_phase() {
    for phase in [
        ProducerPhase::Computing,
        ProducerPhase::Publishing,
        ProducerPhase::Sleeping,
        ProducerPhase::Stopped,
    ] {
        assert_eq!(producer_advance(phase, ProducerEvent::Cancelled), ProducerPhase::Stopped);
    }
    assert_eq!(producer_action(ProducerPhase::Stopped), ProducerAction::Stop);
}

#[test]
fn a_producer_without_a_receiver_stops() {
    assert_eq!(
        producer_advance(ProducerPhase::Publishing, ProducerEvent::ReceiverGone),
        ProducerPhase::Stopped
    );
}

#[test]
fn a_stopped_producer_stays_stopped() {
    for event in [
        ProducerEvent::Computed,
        ProducerEvent::ComputeFailed(FetchError::TokenExtraction),
        ProducerEvent::Published,
        ProducerEvent::ReceiverGone,
        ProducerEvent::Woke,
        ProducerEvent::Cancelled,
    ] {
        assert_eq!(producer_advance(ProducerPhase::Stopped, event), ProducerPhase::Stopped);
    }
}

#[test]
fn a_producer_event_out_of_turn_changes_nothing() {
    assert_eq!(
        producer_advance(ProducerPhase::Computing, ProducerEvent::Woke),
        ProducerPhase::Computing
    );
    assert_eq!(
        producer_advance(ProducerPhase::Computing, ProducerEvent::Published),
        ProducerPhase::Computing
    );
    assert_eq!(
        producer_advance(ProducerPhase::Sleeping, ProducerEvent::Computed),
        ProducerPhase::Sleeping
    );
    assert_eq!(
        producer_advance(ProducerPhase::Publishing, ProducerEvent::Woke),
        ProducerPhase::Publishing
    );
}

/// One cycle of a producer on a real channel, with `outcome` as what the
/// computation gave.
fn cycle(
    tx: &tokio::sync::mpsc::Sender<u32>,
    outcome: Result<u32, FetchError>,
) -> ProducerPhase {
    let (mut phase, publication) = on_computed(ProducerPhase::Computing, outcome);
    if producer_action(phase) == ProducerAction::Publish {
        let delivered = tx.try_send(publication.unwrap()).is_ok();
        phase = producer_advance(
            phase,
            if delivered { ProducerEvent::Published } else { ProducerEvent::ReceiverGone },
        );
    }
    phase
}

#[test]
fn a_failed_cycle_leaves_the_visible_dataset_as_it_was() {
    let (tx, mut rx) = open_channel::<u32>(CHANNEL_CAPACITY).unwrap();
    let mut held = 0;
    assert_eq!(cycle(&tx, Ok(1)), ProducerPhase::Sleeping);
    drain_latest(&mut rx, &mut held, CHANNEL_CAPACITY);
    assert_eq!(held, 1);
    assert_eq!(cycle(&tx, Err(FetchError::HttpStatus(500))), ProducerPhase::Sleeping);
    let report = drain_latest(&mut rx, &mut held, CHANNEL_CAPACITY);
    assert_eq!(held, 1);
    assert_eq!(report.taken, 0);
    assert_eq!(cycle(&tx, Ok(3)), ProducerPhase::Sleeping);
    drain_latest(&mut rx, &mut held, CHANNEL_CAPACITY);
    assert_eq!(held, 3);
}

#[test]
fn a_failed_cycle_before_the_first_dataset_leaves_the_initial_one() {
    let (tx, mut rx) = open_channel::<Vec<(f64, f64)>>(CHANNEL_CAPACITY).unwrap();
    let (phase, publication) =
        on_computed::<Vec<(f64, f64)>>(ProducerPhase::Computing, Err(FetchError::TokenExtraction));
    assert_eq!(phase, ProducerPhase::Sleeping);
    assert!(publication.is_none());
    let mut held: Vec<(f64, f64)> = Vec::new();
    drain_latest(&mut rx, &mut held, CHANNEL_CAPACITY);
    assert!(held.is_empty());
    drop(tx);
}

#[test]
fn a_cycle_after_the_receiver_is_gone_stops_the_producer() {
    let (tx, rx) = open_channel::<u32>(CHANNEL_CAPACITY).unwrap();
    drop(rx);
    assert_eq!(cycle(&tx, Ok(1)), ProducerPhase::Stopped);
}
