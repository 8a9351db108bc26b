//! The streaming pipeline: from notification events to sensor samples.
//!
//! Each event is handled on its own. An event from another characteristic
//! yields nothing; an event from the pipeline's source yields exactly one
//! item, a sample or the reason for which its payload was rejected. The
//! pipeline keeps no history, so a rejected event has no effect on the events
//! after it.

use crate::characteristic::CharacteristicId;
use crate::frame::{decode, parse_frame, FrameError};
use crate::sensor::{decode_sensor, parse_sensor, SensorDecodeError, SensorSample};
use vstd::prelude::*;
use vstd::slice::slice_to_vec;

verus! {

/// Whether notification payloads arrive wrapped in a frame.
#[derive(Clone, Copy, Debug, PartialEq, Eq, Structural)]
pub enum FramingMode {
    /// The payload is a frame; the sample lies in the frame's payload.
    Framed,
    /// The payload is the sample itself.
    Unframed,
}

/// One notification pushed by the transport.
#[derive(Debug, PartialEq, Eq)]
pub struct NotificationEvent {
    pub characteristic: CharacteristicId,
    pub payload: Vec<u8>,
}

impl Clone for NotificationEvent {
    fn clone(&self) -> (copy: NotificationEvent)
        ensures
            copy@ == self@,
    {
        NotificationEvent {
            characteristic: self.characteristic,
            payload: slice_to_vec(self.payload.as_slice()),
        }
    }
}

/// Mathematical model of a notification.
pub struct NotificationView {
    pub characteristic: CharacteristicId,
    pub payload: Seq<u8>,
}

impl View for NotificationEvent {
    type V = NotificationView;

    open spec fn view(&self) -> NotificationView {
        NotificationView { characteristic: self.characteristic, payload: self.payload@ }
    }
}

/// Why a notification from the source did not give a sample.
#[derive(Clone, Copy, Debug, PartialEq, Eq, Structural)]
pub enum DecodeError {
    /// The payload is not a valid frame.
    Frame(FrameError),
    /// The sample bytes could not be decoded.
    Sensor(SensorDecodeError),
}

/// The sample decoder's outcome as a pipeline item.
pub open spec fn sensor_item(
    outcome: Result<SensorSample, SensorDecodeError>,
) -> Result<SensorSample, DecodeError> {
    match outcome {
        Ok(sample) => Ok(sample),
        Err(error) => Err(DecodeError::Sensor(error)),
    }
}

/// The item that a payload from the source gives under `mode`.
pub open spec fn decode_payload(mode: FramingMode, payload: Seq<u8>) -> Result<
    SensorSample,
    DecodeError,
> {
    match mode {
        FramingMode::Unframed => sensor_item(parse_sensor(payload)),
        FramingMode::Framed => match parse_frame(payload) {
            Ok(frame) => sensor_item(parse_sensor(frame.payload)),
            Err(error) => Err(DecodeError::Frame(error)),
        },
    }
}

/// Turns notifications from one characteristic into samples.
#[derive(Clone, Copy, Debug, PartialEq, Eq, Structural)]
pub struct Pipeline {
    /// The characteristic whose notifications are decoded.
    pub source: CharacteristicId,
    /// How payloads are wrapped.
    pub mode: FramingMode,
}

impl Pipeline {
    /// What one event contributes to the output: nothing when it comes from
    /// another characteristic, else the outcome of decoding its payload.
    pub open spec fn item_of(self, event: NotificationView) -> Option<
        Result<SensorSample, DecodeError>,
    > {
        if event.characteristic == self.source {
            Some(decode_payload(self.mode, event.payload))
        } else {
            None
        }
    }

    /// The output for a sequence of events: the items of its events, in the
    /// order of the events.
    pub open spec fn items_of(self, events: Seq<NotificationView>) -> Seq<
        Result<SensorSample, DecodeError>,
    >
        decreases events.len(),
    {
        if events.len() == 0 {
            Seq::empty()
        } else {
            let before = self.items_of(events.drop_last());
            match self.item_of(events.last()) {
                Some(item) => before.push(item),
                None => before,
            }
        }
    }

    /// A pipeline that decodes the notifications of `source` under `mode`.
    pub fn new(source: CharacteristicId, mode: FramingMode) -> (pipeline: Pipeline)
        ensures
            pipeline.source == source,
            pipeline.mode == mode,
    {
        Pipeline { source, mode }
    }

    /// Decodes a payload that came from the source.
    pub fn decode_payload(&self, payload: &[u8]) -> (item: Result<SensorSample, DecodeError>)
        ensures
            item == decode_payload(self.mode, payload@),
    {
        let sample_bytes = match self.mode {
            FramingMode::Unframed => {
                return Self::lift(decode_sensor(payload));
            },
            FramingMode::Framed => match decode(payload) {
                Ok(frame) => frame.payload,
                Err(error) => {
                    return Err(DecodeError::Frame(error));
                },
            },
        };
        Self::lift(decode_sensor(sample_bytes.as_slice()))
    }

    fn lift(outcome: Result<SensorSample, SensorDecodeError>) -> (item: Result<
        SensorSample,
        DecodeError,
    >)
        ensures
            item == sensor_item(outcome),
    {
        match outcome {
            Ok(sample) => Ok(sample),
            Err(error) => Err(DecodeError::Sensor(error)),
        }
    }

    /// Handles one event. Returns `None` exactly when the event comes from a
    /// characteristic other than the source.
    pub fn process(&self, event: &NotificationEvent) -> (item: Option<
        Result<SensorSample, DecodeError>,
    >)
        ensures
            item == self.item_of(event@),
            item is None <==> event.characteristic != self.source,
    {
        if event.characteristic == self.source {
            Some(self.decode_payload(event.payload.as_slice()))
        } else {
            None
        }
    }

    /// Handles a run of events in order and collects the items.
    pub fn process_all(&self, events: &[NotificationEvent]) -> (items: Vec<
        Result<SensorSample, DecodeError>,
    >)
        ensures
            items@ == self.items_of(event_views(events@)),
    {
        let mut items: Vec<Result<SensorSample, DecodeError>> = Vec::new();
        let mut i: usize = 0;
        while i < events.len()
            invariant
                i <= events.len(),
                items@ == self.items_of(event_views(events@).take(i as int)),
            decreases events.len() - i,
        {
            proof {
                let next = event_views(events@).take(i + 1);
                assert(next.drop_last() =~= event_views(events@).take(i as int));
                assert(next.last() == events@[i as int]@);
            }
            match self.process(&events[i]) {
                Some(item) => {
                    items.push(item);
                },
                None => {},
            }
            i += 1;
        }
        proof {
            assert(event_views(events@).take(i as int) =~= event_views(events@));
        }
        items
    }
}

/// The models of a run of events.
pub open spec fn event_views(events: Seq<NotificationEvent>) -> Seq<NotificationView> {
    Seq::new(events.len(), |i: int| events[i]@)
}

/// The output for two runs of events, one after the other, is the output for
/// the first followed by the output for the second: items keep the order of
/// their events, and what came earlier never changes what comes later.
pub proof fn lemma_items_concat(
    pipeline: Pipeline,
    first: Seq<NotificationView>,
    second: Seq<NotificationView>,
)
    ensures
        pipeline.items_of(first + second) == pipeline.items_of(first) + pipeline.items_of(second),
    decreases second.len(),
{
    if second.len() == 0 {
        assert(first + second =~= first);
        assert(pipeline.items_of(first) + pipeline.items_of(second) =~= pipeline.items_of(first));
    } else {
        let whole = first + second;
        assert(whole.drop_last() =~= first + second.drop_last());
        assert(whole.last() == second.last());
        lemma_items_concat(pipeline, first, second.drop_last());
        let before = pipeline.items_of(first) + pipeline.items_of(second.drop_last());
        match pipeline.item_of(second.last()) {
            Some(item) => {
                assert(before.push(item) =~= pipeline.items_of(first) + pipeline.items_of(
                    second.drop_last(),
                ).push(item));
            },
            None => {},
        }
    }
}

/// Events that all come from characteristics other than the source produce
/// no item at all.
pub proof fn lemma_unrelated_events_yield_nothing(pipeline: Pipeline, events: Seq<NotificationView>)
    requires
        forall|i: int| 0 <= i < events.len() ==> events[i].characteristic != pipeline.source,
    ensures
        pipeline.items_of(events) == Seq::<Result<SensorSample, DecodeError>>::empty(),
    decreases events.len(),
{
    if events.len() > 0 {
        lemma_unrelated_events_yield_nothing(pipeline, events.drop_last());
    }
}

/// Every event from the source produces exactly one item, so the output is
/// as long as the number of such events.
pub proof fn lemma_one_item_per_source_event(pipeline: Pipeline, events: Seq<NotificationView>)
    ensures
        pipeline.items_of(events).len() == events.filter(
            |event: NotificationView| event.characteristic == pipeline.source,
        ).len(),
    decreases events.len(),
{
    reveal(Seq::filter);
    if events.len() > 0 {
        lemma_one_item_per_source_event(pipeline, events.drop_last());
    }
}

/// A rejected event does not end the stream: a malformed event followed by a
/// well-formed one, both from the source, gives one error item and then one
/// sample.
pub proof fn lemma_failure_does_not_end_stream(
    pipeline: Pipeline,
    malformed: NotificationView,
    well_formed: NotificationView,
)
    requires
        malformed.characteristic == pipeline.source,
        well_formed.characteristic == pipeline.source,
        decode_payload(pipeline.mode, malformed.payload) is Err,
        decode_payload(pipeline.mode, well_formed.payload) is Ok,
    ensures
        pipeline.items_of(seq![malformed, well_formed]) == seq![
            decode_payload(pipeline.mode, malformed.payload),
            decode_payload(pipeline.mode, well_formed.payload),
        ],
{
    let both = seq![malformed, well_formed];
    assert(both.drop_last() =~= seq![malformed]);
    assert(seq![malformed].drop_last() =~= Seq::<NotificationView>::empty());
    assert(pipeline.items_of(Seq::<NotificationView>::empty()).len() == 0);
    assert(pipeline.items_of(seq![malformed]) =~= seq![
        decode_payload(pipeline.mode, malformed.payload),
    ]);
    assert(pipeline.items_of(both) =~= seq![
        decode_payload(pipeline.mode, malformed.payload),
        decode_payload(pipeline.mode, well_formed.payload),
    ]);
}

} // verus!
