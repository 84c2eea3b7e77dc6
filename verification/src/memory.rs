//! Persistence for traceability: an in-memory trace store and the flush of a
//! recording tracer into it.

use vstd::prelude::*;

use crate::trace::{
    clone_events, events_for_id, select_events, RecordingTracer, TraceEvent, TraceEventView,
    TraceId,
};

verus! {

/// An in-memory store of trace events, in insertion order.
#[derive(Debug)]
pub struct InMemoryTraceStore {
    events: Vec<TraceEvent>,
}

impl View for InMemoryTraceStore {
    type V = Seq<TraceEventView>;

    closed spec fn view(&self) -> Seq<TraceEventView> {
        self.events.deep_view()
    }
}

impl InMemoryTraceStore {
    /// An empty store.
    pub fn new() -> (s: InMemoryTraceStore)
        ensures
            s@ == Seq::<TraceEventView>::empty(),
    {
        let s = InMemoryTraceStore { events: Vec::new() };
        assert(s@ =~= Seq::<TraceEventView>::empty());
        s
    }

    /// Number of stored events.
    pub fn len(&self) -> (n: usize)
        ensures
            n == self@.len(),
    {
        self.events.len()
    }

    /// Whether the store is empty.
    pub fn is_empty(&self) -> (b: bool)
        ensures
            b == (self@.len() == 0),
    {
        self.events.len() == 0
    }

    /// A copy of every stored event.
    pub fn snapshot(&self) -> (v: Vec<TraceEvent>)
        ensures
            v.deep_view() == self@,
    {
        clone_events(&self.events)
    }

    /// Append a single event.
    pub fn append(&mut self, event: TraceEvent)
        ensures
            final(self)@ == old(self)@.push(event@),
    {
        let ghost e = event@;
        self.events.push(event);
        assert(self@ =~= old(self)@.push(e));
    }

    /// Append many events, in order.
    pub fn append_batch(&mut self, batch: Vec<TraceEvent>)
        ensures
            final(self)@ == old(self)@ + batch.deep_view(),
    {
        let mut more = batch;
        let ghost added = more.deep_view();
        self.events.append(&mut more);
        assert(self@ =~= old(self)@ + added);
    }

    /// Every stored event of one correlation id, in insertion order.
    pub fn load(&self, trace_id: TraceId) -> (v: Vec<TraceEvent>)
        ensures
            v.deep_view() == events_for_id(self@, trace_id),
    {
        select_events(&self.events, trace_id)
    }

    /// Every stored event, in insertion order.
    pub fn all(&self) -> (v: Vec<TraceEvent>)
        ensures
            v.deep_view() == self@,
    {
        clone_events(&self.events)
    }
}

/// Flush everything a recorder has captured into a store, draining the recorder.
pub fn persist_recording(tracer: &mut RecordingTracer, store: &mut InMemoryTraceStore)
    ensures
        final(store)@ == old(store)@ + old(tracer)@,
        final(tracer)@ == Seq::<TraceEventView>::empty(),
{
    store.append_batch(tracer.drain());
}

/// After a flush, the events of any correlation id are those stored before,
/// followed by those that were recorded, in order.
pub proof fn law_persist_then_load(
    stored: Seq<TraceEventView>,
    recorded: Seq<TraceEventView>,
    trace_id: TraceId,
)
    ensures
        events_for_id(stored + recorded, trace_id) == events_for_id(stored, trace_id)
            + events_for_id(recorded, trace_id),
{
    Seq::filter_distributes_over_add(
        stored,
        recorded,
        |e: TraceEventView| crate::trace::event_trace_id(e) == trace_id,
    );
}

} // verus!
