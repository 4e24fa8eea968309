//! Watching the change feed of one collection.
//!
//! The watcher decides; its caller does the waiting. The caller hands over
//! what the feed brought, one event at a time, and gets back the new state
//! and what is to be passed on to the observer. A document that cannot be
//! read is reported and does not end the watch: only a failure of the feed
//! itself or its end closes the watcher, and a closed watcher stays closed.

use crate::document::{Value, ValueView};
use crate::error::DecodeError;
use crate::record::Record;
use vstd::prelude::*;

verus! {

/// Where a watcher stands.
#[derive(Clone, Copy, Debug, PartialEq, Eq)]
pub enum WatchState {
    /// The feed has been asked for and is not open yet.
    Connecting,
    /// The feed is open.
    Streaming,
    /// The feed is over; nothing more is read from it.
    Closed,
}

/// What the feed brought.
#[derive(Debug, PartialEq, Eq)]
pub enum FeedEvent {
    /// The feed is open.
    Opened,
    /// A change of the collection, with the document as it is after the
    /// change where the notification carries it.
    Change(Option<Value>),
    /// The connection failed, with the transport's description of it.
    Failed(String),
    /// The feed has no more notifications.
    Ended,
}

/// The mathematical form of [`FeedEvent`].
pub ghost enum FeedEventView {
    Opened,
    Change(Option<ValueView>),
    Failed(Seq<char>),
    Ended,
}

impl View for FeedEvent {
    type V = FeedEventView;

    open spec fn view(&self) -> FeedEventView {
        match self {
            FeedEvent::Opened => FeedEventView::Opened,
            FeedEvent::Change(Some(document)) => FeedEventView::Change(Some(document@)),
            FeedEvent::Change(None) => FeedEventView::Change(None),
            FeedEvent::Failed(description) => FeedEventView::Failed(description@),
            FeedEvent::Ended => FeedEventView::Ended,
        }
    }
}

/// What a watcher passes on to its observer.
#[derive(Debug, PartialEq, Eq)]
pub enum Emission<T> {
    /// A document was read.
    Decoded(T),
    /// A document could not be read.
    Undecoded(DecodeError),
    /// The connection failed and the watch is over.
    TransportFailed(String),
    /// The feed ended and the watch is over.
    Exhausted,
}

/// The mathematical form of [`Emission`].
pub ghost enum EmissionView<V> {
    Decoded(V),
    Undecoded(DecodeError),
    TransportFailed(Seq<char>),
    Exhausted,
}

impl<T: View> View for Emission<T> {
    type V = EmissionView<T::V>;

    open spec fn view(&self) -> EmissionView<T::V> {
        match self {
            Emission::Decoded(record) => EmissionView::Decoded(record@),
            Emission::Undecoded(error) => EmissionView::Undecoded(*error),
            Emission::TransportFailed(description) => EmissionView::TransportFailed(description@),
            Emission::Exhausted => EmissionView::Exhausted,
        }
    }
}

/// The mathematical form of an optional emission.
pub open spec fn emission_view<T: View>(emission: Option<Emission<T>>) -> Option<
    EmissionView<T::V>,
> {
    match emission {
        Some(e) => Some(e@),
        None => None,
    }
}

/// The state after `event`. A watcher that connects waits for the feed to
/// open; an open feed stays open through every change, read or not; a
/// failure or the end of the feed closes the watcher for good.
pub open spec fn next_state(state: WatchState, event: FeedEventView) -> WatchState {
    match state {
        WatchState::Connecting => match event {
            FeedEventView::Opened => WatchState::Streaming,
            FeedEventView::Change(_) => WatchState::Connecting,
            FeedEventView::Failed(_) => WatchState::Closed,
            FeedEventView::Ended => WatchState::Closed,
        },
        WatchState::Streaming => match event {
            FeedEventView::Opened => WatchState::Streaming,
            FeedEventView::Change(_) => WatchState::Streaming,
            FeedEventView::Failed(_) => WatchState::Closed,
            FeedEventView::Ended => WatchState::Closed,
        },
        WatchState::Closed => WatchState::Closed,
    }
}

/// What `event` makes a watcher in `state` pass on: for a change that
/// carries a document while the feed is open, the record read or the failure
/// to read it; for a change without a document, nothing; for the failure or
/// the end of a feed that was not closed yet, the report of it; and nothing
/// in every other case.
pub open spec fn emitted<T: Record>(state: WatchState, event: FeedEventView) -> Option<
    EmissionView<T::V>,
> {
    match state {
        WatchState::Closed => None,
        _ => match event {
            FeedEventView::Opened => None,
            FeedEventView::Change(Some(document)) => if state is Streaming {
                match T::parse(document) {
                    Ok(record) => Some(EmissionView::Decoded(record)),
                    Err(error) => Some(EmissionView::Undecoded(error)),
                }
            } else {
                None
            },
            FeedEventView::Change(None) => None,
            FeedEventView::Failed(description) => Some(EmissionView::TransportFailed(description)),
            FeedEventView::Ended => Some(EmissionView::Exhausted),
        },
    }
}

/// Takes one event of the feed: gives the state after it and what is to be
/// passed on to the observer, if anything.
pub fn step<T: Record>(state: WatchState, event: FeedEvent) -> (r: (
    WatchState,
    Option<Emission<T>>,
))
    ensures
        r.0 == next_state(state, event@),
        emission_view(r.1) == emitted::<T>(state, event@),
{
    match state {
        WatchState::Closed => (WatchState::Closed, None),
        WatchState::Connecting => match event {
            FeedEvent::Opened => (WatchState::Streaming, None),
            FeedEvent::Change(_) => (WatchState::Connecting, None),
            FeedEvent::Failed(description) => (
                WatchState::Closed,
                Some(Emission::TransportFailed(description)),
            ),
            FeedEvent::Ended => (WatchState::Closed, Some(Emission::Exhausted)),
        },
        WatchState::Streaming => match event {
            FeedEvent::Opened => (WatchState::Streaming, None),
            FeedEvent::Change(Some(document)) => match T::decode(&document) {
                Ok(record) => (WatchState::Streaming, Some(Emission::Decoded(record))),
                Err(error) => (WatchState::Streaming, Some(Emission::Undecoded(error))),
            },
            FeedEvent::Change(None) => (WatchState::Streaming, None),
            FeedEvent::Failed(description) => (
                WatchState::Closed,
                Some(Emission::TransportFailed(description)),
            ),
            FeedEvent::Ended => (WatchState::Closed, Some(Emission::Exhausted)),
        },
    }
}

/// The state after a run of events.
pub open spec fn state_after(state: WatchState, events: Seq<FeedEventView>) -> WatchState
    decreases events.len(),
{
    if events.len() == 0 {
        state
    } else {
        next_state(state_after(state, events.drop_last()), events.last())
    }
}

/// What a run of events makes a watcher pass on, in order.
pub open spec fn emitted_by<T: Record>(state: WatchState, events: Seq<FeedEventView>) -> Seq<
    EmissionView<T::V>,
>
    decreases events.len(),
{
    if events.len() == 0 {
        Seq::empty()
    } else {
        let before = emitted_by::<T>(state, events.drop_last());
        match emitted::<T>(state_after(state, events.drop_last()), events.last()) {
            Some(emission) => before.push(emission),
            None => before,
        }
    }
}

/// The mathematical form of a run of events.
pub open spec fn events_view(events: Seq<FeedEvent>) -> Seq<FeedEventView> {
    Seq::new(events.len(), |i: int| events[i]@)
}

/// The mathematical form of a run of emissions.
pub open spec fn emissions_view<T: View>(emissions: Seq<Emission<T>>) -> Seq<EmissionView<T::V>> {
    Seq::new(emissions.len(), |i: int| emissions[i]@)
}

/// Takes a run of events, from `state` on: gives the state after them and
/// what was passed on, in order.
pub fn run<T: Record>(state: WatchState, events: Vec<FeedEvent>) -> (r: (
    WatchState,
    Vec<Emission<T>>,
))
    ensures
        r.0 == state_after(state, events_view(events@)),
        emissions_view(r.1@) == emitted_by::<T>(state, events_view(events@)),
{
    let mut current = state;
    let mut out: Vec<Emission<T>> = Vec::new();
    let ghost all = events_view(events@);
    assert(all.take(0) =~= Seq::empty());
    assert(emissions_view(out@) =~= Seq::empty());
    for event in it: events
        invariant
            all == events_view(it.seq()),
            current == state_after(state, all.take(it.index() as int)),
            emissions_view(out@) == emitted_by::<T>(state, all.take(it.index() as int)),
    {
        let ghost i = it.index() as int;
        let ghost seen = emissions_view(out@);
        assert(all.take(i + 1).drop_last() =~= all.take(i));
        assert(all.take(i + 1).last() == event@);
        let (after, emission) = step::<T>(current, event);
        current = after;
        match emission {
            Some(e) => {
                out.push(e);
                assert(emissions_view(out@) =~= seen.push(e@));
            },
            None => {},
        }
    }
    assert(all.take(all.len() as int) =~= all);
    (current, out)
}

/// A document that cannot be read does not end the watch: while the feed is
/// open, every change leaves it open, and a change that carries a document
/// passes on exactly one emission, the record read or the failure.
pub proof fn law_decode_failure_keeps_streaming<T: Record>(document: Option<ValueView>)
    ensures
        next_state(WatchState::Streaming, FeedEventView::Change(document)) == WatchState::Streaming,
        document matches Some(d) ==> emitted::<T>(
            WatchState::Streaming,
            FeedEventView::Change(document),
        ) == Some(
            match T::parse(d) {
                Ok(record) => EmissionView::<T::V>::Decoded(record),
                Err(error) => EmissionView::<T::V>::Undecoded(error),
            },
        ),
        document is None ==> emitted::<T>(WatchState::Streaming, FeedEventView::Change(document))
            is None,
{
}

/// A closed watcher stays closed and passes nothing on.
pub proof fn law_closed_is_final<T: Record>(event: FeedEventView)
    ensures
        next_state(WatchState::Closed, event) == WatchState::Closed,
        emitted::<T>(WatchState::Closed, event) is None,
{
}

} // verus!
