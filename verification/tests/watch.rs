use bridge_events::document::{Field, Value};
use bridge_events::encode::encode_event;
use bridge_events::error::{DecodeError, Fault};
use bridge_events::legacy::OmniEventOld;
use bridge_events::schema::{
    OmniEvent, OmniEventData, OmniMetaEvent, OmniMetaEventDetails,
    OmniTransactionOrigin, SolanaTransactionOrigin, TokenMetadata,
};
use bridge_events::watcher::{run, step, Emission, FeedEvent, WatchState};

fn event(transaction_id: &str) -> OmniEvent {
    OmniEvent {
        id: Some([3; 12]),
        transaction_id: transaction_id.to_string(),
        origin: OmniTransactionOrigin::SolanaTransaction(SolanaTransactionOrigin {
            slot: 1,
            block_time: 2,
            instruction_index: 3,
        }),
        event: OmniEventData::Meta(OmniMetaEvent {
            details: OmniMetaEventDetails::NearLogMetadataEvent(TokenMetadata {
                token: "t.near".to_string(),
                name: "T".to_string(),
                symbol: "T".to_string(),
                decimals: 24,
            }),
        }),
    }
}

fn change(transaction_id: &str) -> FeedEvent {
    FeedEvent::Change(Some(encode_event(&event(transaction_id)).unwrap()))
}

fn malformed() -> FeedEvent {
    FeedEvent::Change(Some(Value::Document(vec![Field {
        key: "transaction_id".to_string(),
        value: Value::Int32(1),
    }])))
}

fn malformed_error() -> DecodeError {
    DecodeError { fault: Fault::WrongType, at: "transaction_id" }
}

#[test]
fn one_malformed_document_then_two_well_formed() {
    let feed = vec![malformed(), change("a"), change("b")];
    let (state, emissions) = run::<OmniEvent>(WatchState::Streaming, feed);
    assert_eq!(state, WatchState::Streaming);
    assert_eq!(
        emissions,
        vec![
            Emission::Undecoded(malformed_error()),
            Emission::Decoded(event("a")),
            Emission::Decoded(event("b")),
        ]
    );
}

#[test]
fn watch_from_connecting_to_the_end_of_the_feed() {
    let feed = vec![
        FeedEvent::Opened,
        malformed(),
        change("a"),
        FeedEvent::Change(None),
        change("b"),
        FeedEvent::Ended,
        change("after the end"),
    ];
    let (state, emissions) = run::<OmniEvent>(WatchState::Connecting, feed);
    assert_eq!(state, WatchState::Closed);
    assert_eq!(
        emissions,
        vec![
            Emission::Undecoded(malformed_error()),
            Emission::Decoded(event("a")),
            Emission::Decoded(event("b")),
            Emission::Exhausted,
        ]
    );
}

#[test]
fn decode_failure_does_not_close_the_watcher() {
    let (state, emission) = step::<OmniEvent>(WatchState::Streaming, malformed());
    assert_eq!(state, WatchState::Streaming);
    assert_eq!(emission, Some(Emission::Undecoded(malformed_error())));
    let (state, emission) = step::<OmniEvent>(state, change("next"));
    assert_eq!(state, WatchState::Streaming);
    assert_eq!(emission, Some(Emission::Decoded(event("next"))));
}

#[test]
fn change_without_a_document_is_passed_over() {
    let (state, emission) = step::<OmniEvent>(WatchState::Streaming, FeedEvent::Change(None));
    assert_eq!(state, WatchState::Streaming);
    assert_eq!(emission, None);
}

#[test]
fn transport_failure_closes_the_watcher_and_is_reported() {
    let (state, emission) =
        step::<OmniEvent>(WatchState::Streaming, FeedEvent::Failed("connection reset".to_string()));
    assert_eq!(state, WatchState::Closed);
    assert_eq!(emission, Some(Emission::TransportFailed("connection reset".to_string())));
    let (state, emission) = step::<OmniEvent>(
        WatchState::Connecting, FeedEvent::Failed("refused".to_string()),
    );
    assert_eq!(state, WatchState::Closed);
    assert_eq!(emission, Some(Emission::TransportFailed("refused".to_string())));
}

#[test]
fn end_of_the_feed_closes_the_watcher() {
    let (state, emission) = step::<OmniEvent>(WatchState::Streaming, FeedEvent::Ended);
    assert_eq!(state, WatchState::Closed);
    assert_eq!(emission, Some(Emission::Exhausted));
}

#[test]
fn closed_watcher_stays_closed() {
    for event in [
        FeedEvent::Opened,
        change("a"),
        FeedEvent::Change(None),
        FeedEvent::Failed("x".to_string()),
        FeedEvent::Ended,
    ] {
        let (state, emission) = step::<OmniEvent>(WatchState::Closed, event);
        assert_eq!(state, WatchState::Closed);
        assert_eq!(emission, None);
    }
}

#[test]
fn connecting_watcher_waits_for_the_feed_to_open() {
    let (state, emission) = step::<OmniEvent>(WatchState::Connecting, change("early"));
    assert_eq!(state, WatchState::Connecting);
    assert_eq!(emission, None);
    let (state, emission) = step::<OmniEvent>(WatchState::Connecting, FeedEvent::Opened);
    assert_eq!(state, WatchState::Streaming);
    assert_eq!(emission, None);
    let (state, emission) = step::<OmniEvent>(state, FeedEvent::Opened);
    assert_eq!(state, WatchState::Streaming);
    assert_eq!(emission, None);
}

#[test]
fn two_watchers_do_not_share_state() {
    let (closed, _) = step::<OmniEvent>(
        WatchState::Streaming, FeedEvent::Failed("down".to_string()),
    );
    let (open, emission) = step::<OmniEvent>(WatchState::Streaming, change("a"));
    assert_eq!(closed, WatchState::Closed);
    assert_eq!(open, WatchState::Streaming);
    assert_eq!(emission, Some(Emission::Decoded(event("a"))));
}

#[test]
fn watcher_reads_the_type_it_is_given() {
    let current = encode_event(&event("a")).unwrap();
    let (state, emission) = step::<OmniEventOld>(
        WatchState::Streaming, FeedEvent::Change(Some(current)),
    );
    assert_eq!(state, WatchState::Streaming);
    assert_eq!(
        emission,
        Some(Emission::Undecoded(DecodeError { fault: Fault::MissingField, at: "event" })),
    );
    assert_eq!(
        run::<OmniEvent>(WatchState::Streaming, Vec::new()), (WatchState::Streaming, Vec::new()),
    );
}
