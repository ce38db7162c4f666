//! The outbox between a chat turn and the window that shows it. Events the
//! stream protocol has accepted wait here in order; a flush hands them to
//! the sink front first and removes each one only once the sink took it,
//! so a failing sink never loses an event.
use crate::chat_turn::StreamEvent;
use vstd::prelude::*;

verus! {

/// Why a sink could not take an event.
#[derive(Debug, Clone, Copy, PartialEq, Eq, Structural)]
pub enum StreamSinkError {
    Unavailable,
}

/// A sink's record of the events handed to it, in order: the channel, the
/// event, and whether the sink took it.
pub type SinkRecord = Seq<(Seq<char>, StreamEvent, bool)>;

/// Where flushed events go: a window, or anything else that shows them.
/// An implementation keeps, as its ghost record, every event it was handed:
/// on which channel, and whether it took it. The record exists only for
/// verification and is never called when the program runs.
pub trait StreamEventSink {
    /// The events handed to this sink so far.
    spec fn handed(&self) -> SinkRecord;

    /// Delivers one event on the named channel; `Ok` when the sink took it.
    fn emit(&mut self, event_name: &str, event: &StreamEvent) -> (r: Result<(), StreamSinkError>)
        ensures
            final(self).handed() == old(self).handed().push((event_name@, *event, r is Ok)),
    ;
}

/// Events as a sink records them when it took each one on a channel.
pub open spec fn taken_on(channel: Seq<char>, events: Seq<StreamEvent>) -> Seq<
    (Seq<char>, StreamEvent, bool),
> {
    events.map_values(|e: StreamEvent| (channel, e, true))
}

/// Why a flush stopped.
#[derive(Debug, Clone, Copy, PartialEq, Eq, Structural)]
pub enum StreamBridgeError {
    Sink(StreamSinkError),
}

/// Accepted events waiting for the sink, the channel they go out on, and
/// the sink itself.
pub struct StreamBridge<S> {
    event_name: String,
    queue: Vec<StreamEvent>,
    sink: S,
}

impl<S: StreamEventSink> StreamBridge<S> {
    /// The events still waiting, front first.
    pub closed spec fn pending(&self) -> Seq<StreamEvent> {
        self.queue@
    }

    /// The channel the events go out on.
    pub closed spec fn channel(&self) -> Seq<char> {
        self.event_name@
    }

    /// The sink the events go to.
    pub closed spec fn sink_of(&self) -> S {
        self.sink
    }

    /// An empty outbox for the named channel.
    pub fn new(event_name: String, sink: S) -> (r: Self)
        ensures
            r.pending() == Seq::<StreamEvent>::empty(),
            r.channel() == event_name@,
            r.sink_of() == sink,
    {
        StreamBridge { event_name, queue: Vec::new(), sink }
    }

    /// Queues an event the stream protocol has accepted, behind those
    /// already waiting.
    pub fn push_accepted(&mut self, event: StreamEvent)
        ensures
            final(self).pending() == old(self).pending().push(event),
            final(self).channel() == old(self).channel(),
            final(self).sink_of() == old(self).sink_of(),
    {
        self.queue.push(event);
    }

    /// Hands the waiting events to the sink on the bridge's channel, front
    /// first, and removes each only once the sink took it. When the sink
    /// takes every one, all were handed over in queue order, the queue is
    /// empty and the count is returned. When the sink refuses one, the
    /// flush stops there: the events before it were taken in order, the
    /// refused one was the next in the queue, and it stays at the front
    /// with everything behind it.
    pub fn flush(&mut self) -> (r: Result<usize, StreamBridgeError>)
        ensures
            final(self).channel() == old(self).channel(),
            match r {
                Ok(n) => {
                    &&& n == old(self).pending().len()
                    &&& final(self).pending() == Seq::<StreamEvent>::empty()
                    &&& final(self).sink_of().handed() == old(self).sink_of().handed() + taken_on(
                        old(self).channel(),
                        old(self).pending(),
                    )
                },
                Err(e) => {
                    &&& e == StreamBridgeError::Sink(StreamSinkError::Unavailable)
                    &&& exists|k: int|
                        0 <= k < old(self).pending().len() && final(self).pending()
                            == old(self).pending().skip(k) && final(self).sink_of().handed()
                            == (old(self).sink_of().handed() + taken_on(
                            old(self).channel(),
                            old(self).pending().take(k),
                        )).push((old(self).channel(), old(self).pending()[k], false))
                },
            },
    {
        let ghost start = self.queue@;
        let total = self.queue.len();
        let mut emitted: usize = 0;
        while self.queue.len() > 0
            invariant
                emitted <= start.len(),
                self.queue@ == start.skip(emitted as int),
                self.event_name@ == old(self).event_name@,
                start == old(self).queue@,
                start.len() == total,
                self.sink.handed() == old(self).sink.handed() + taken_on(
                    old(self).event_name@,
                    start.take(emitted as int),
                ),
            decreases self.queue.len(),
        {
            let delivered = self.sink.emit(self.event_name.as_str(), &self.queue[0]);
            assert(self.queue@[0] == start[emitted as int]);
            match delivered {
                Ok(()) => {},
                Err(e) => {
                    assert(old(self).pending().skip(emitted as int) == self.pending());
                    return Err(StreamBridgeError::Sink(e));
                },
            }
            self.queue.remove(0);
            emitted = emitted + 1;
            assert(self.queue@ =~= start.skip(emitted as int));
            assert(taken_on(old(self).event_name@, start.take(emitted as int)) =~= taken_on(
                old(self).event_name@,
                start.take(emitted - 1),
            ).push((old(self).event_name@, start[emitted - 1], true)));
        }
        assert(start.skip(emitted as int).len() == 0);
        assert(start.take(emitted as int) =~= start);
        Ok(emitted)
    }

    /// How many events are waiting.
    pub fn queued_len(&self) -> (r: usize)
        ensures
            r == self.pending().len(),
    {
        self.queue.len()
    }

    /// The sink, to change it between flushes.
    pub fn sink_mut(&mut self) -> (r: &mut S)
        ensures
            *r == old(self).sink_of(),
            final(self).sink_of() == *final(r),
            final(self).pending() == old(self).pending(),
            final(self).channel() == old(self).channel(),
    {
        &mut self.sink
    }

    /// The sink, once the outbox is done with.
    pub fn into_sink(self) -> (r: S)
        ensures
            r == self.sink_of(),
    {
        self.sink
    }
}

} // verus!
