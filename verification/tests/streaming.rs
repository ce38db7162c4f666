use agent_core::chat_turn::{StreamEvent, StreamPayload};
use agent_core::stream_bridge::{
    SinkRecord, StreamBridge, StreamBridgeError, StreamEventSink, StreamSinkError,
};

const CHANNEL: &str = "chat-stream";

#[derive(Default)]
struct FakeSink {
    events: Vec<StreamEvent>,
    fail: bool,
    capacity: Option<usize>,
}

impl StreamEventSink for FakeSink {
    // The record is ghost: a running program never asks for it.
    fn handed(&self) -> SinkRecord {
        unreachable!()
    }

    fn emit(&mut self, event_name: &str, event: &StreamEvent) -> Result<(), StreamSinkError> {
        assert_eq!(event_name, CHANNEL);
        if self.fail || self.capacity.is_some_and(|c| self.events.len() >= c) {
            return Err(StreamSinkError::Unavailable);
        }
        self.events.push(event.clone());
        Ok(())
    }
}

fn event(sequence: u64, payload: StreamPayload) -> StreamEvent {
    StreamEvent { sequence, payload }
}

#[test]
fn bridge_flushes_ordered_events_to_named_channel() {
    let mut bridge = StreamBridge::new(CHANNEL.to_string(), FakeSink::default());
    bridge.push_accepted(event(0, StreamPayload::Start));
    bridge.push_accepted(event(1, StreamPayload::Delta { text: "hello".into() }));
    bridge.push_accepted(event(2, StreamPayload::Finish));
    assert_eq!(bridge.flush().unwrap(), 3);
    assert_eq!(bridge.queued_len(), 0);
    let sink = bridge.into_sink();
    assert_eq!(sink.events.len(), 3);
    assert_eq!(sink.events[0].sequence, 0);
    assert!(matches!(sink.events[1].payload, StreamPayload::Delta { ref text } if text == "hello"));
    assert!(matches!(sink.events[2].payload, StreamPayload::Finish));
}

#[test]
fn sink_failure_does_not_drop_queued_event() {
    let sink = FakeSink { fail: true, ..FakeSink::default() };
    let mut bridge = StreamBridge::new(CHANNEL.to_string(), sink);
    bridge.push_accepted(event(0, StreamPayload::Start));
    assert_eq!(bridge.flush(), Err(StreamBridgeError::Sink(StreamSinkError::Unavailable)));
    assert_eq!(bridge.queued_len(), 1);
    bridge.sink_mut().fail = false;
    assert_eq!(bridge.flush().unwrap(), 1);
    assert_eq!(bridge.queued_len(), 0);
    assert_eq!(bridge.into_sink().events[0].sequence, 0);
}

#[test]
fn empty_outbox_flushes_nothing() {
    let mut bridge = StreamBridge::new(CHANNEL.to_string(), FakeSink::default());
    assert_eq!(bridge.flush().unwrap(), 0);
    assert!(bridge.into_sink().events.is_empty());
}

#[test]
fn flush_stops_at_the_refused_event_and_resumes_in_order() {
    let sink = FakeSink { capacity: Some(1), ..FakeSink::default() };
    let mut bridge = StreamBridge::new(CHANNEL.to_string(), sink);
    bridge.push_accepted(event(0, StreamPayload::Start));
    bridge.push_accepted(event(1, StreamPayload::Delta { text: "a".into() }));
    bridge.push_accepted(event(2, StreamPayload::Finish));
    assert_eq!(bridge.flush(), Err(StreamBridgeError::Sink(StreamSinkError::Unavailable)));
    assert_eq!(bridge.queued_len(), 2);
    bridge.sink_mut().capacity = None;
    assert_eq!(bridge.flush().unwrap(), 2);
    let sequences: Vec<u64> = bridge.into_sink().events.iter().map(|e| e.sequence).collect();
    assert_eq!(sequences, vec![0, 1, 2]);
}
