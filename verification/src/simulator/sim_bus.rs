//! The simulated bus: the frames that devices put on it, kept in time
//! order, with overlapping frames merged into a framing error.
//!
//! Times are microseconds on the simulation clock.
use vstd::prelude::*;
use crate::driver::DaliBusEventType;
use crate::simulator::scheduler::{SimulatorMessageDest, SimulatorTaskId};

verus! {

/// Something a device put on the bus.
#[derive(Clone, Copy, Debug)]
pub struct DaliSimBusEvent {
    pub source_id: SimulatorTaskId,
    /// Time of first transition of frame.  Only for frames
    pub start: Option<u64>,
    /// Time of last transition of frame or time of other event
    pub timestamp: u64,
    pub event_type: DaliBusEventType,
}

/// The events on the bus that have not ended yet, in time order, and the
/// task that hands them out when they end.
pub struct DaliSimBus {
    pub events: Vec<DaliSimBusEvent>,
    pub task_id: SimulatorTaskId,
}

/// A frame, or a framing error: what takes time on the bus.
pub open spec fn is_frame_event(t: DaliBusEventType) -> bool {
    match t {
        DaliBusEventType::Frame8(_) | DaliBusEventType::Frame16(_) | DaliBusEventType::Frame24(
            _,
        ) | DaliBusEventType::Frame25(_) | DaliBusEventType::FramingError => true,
        _ => false,
    }
}

/// An event that starts no later than it ends.
pub open spec fn event_ok(e: DaliSimBusEvent) -> bool {
    e.start matches Some(s) ==> s <= e.timestamp
}

/// Events in time order (by end), each starting no later than it ends.
pub open spec fn events_ok(events: Seq<DaliSimBusEvent>) -> bool {
    &&& forall|i: int, j: int|
        0 <= i <= j < events.len() ==> events[i].timestamp <= events[j].timestamp
    &&& forall|i: int| 0 <= i < events.len() ==> event_ok(#[trigger] events[i])
}

/// Event `e` starts after time `t`.
pub open spec fn starts_after(e: DaliSimBusEvent, t: u64) -> bool {
    e.start matches Some(s) && s > t
}

/// The framing error that a frame `new`, from `start`, makes of the
/// events `first` and `last` to `new` overlaps: it starts with the earliest
/// of them, ends with the latest, and comes from the new frame's source.
pub open spec fn merged_event(
    new: DaliSimBusEvent,
    start: u64,
    first: DaliSimBusEvent,
    last: DaliSimBusEvent,
) -> DaliSimBusEvent {
    DaliSimBusEvent {
        source_id: new.source_id,
        start: Some(
            match first.start {
                Some(es) => if es < start {
                    es
                } else {
                    start
                },
                None => start,
            },
        ),
        timestamp: if last.timestamp > new.timestamp {
            last.timestamp
        } else {
            new.timestamp
        },
        event_type: DaliBusEventType::FramingError,
    }
}

/// The events after adding frame `new`, which starts at `start`. The events
/// from `first` (the first that ends at or after `start`) up to `last` (the
/// first after those that starts after `new` ends) overlap the new frame.
/// Without overlap the frame goes in at `first`; with overlap the
/// overlapping events and the frame become one framing error.
pub open spec fn spec_add_frame(
    events: Seq<DaliSimBusEvent>,
    new: DaliSimBusEvent,
    start: u64,
    first: int,
    last: int,
) -> Seq<DaliSimBusEvent> {
    if last > first {
        events.subrange(0, first).push(merged_event(new, start, events[first], events[last - 1]))
            + events.subrange(last, events.len() as int)
    } else {
        events.insert(first, new)
    }
}

/// `first` and `last` are the bounds of the events that a frame from
/// `start` to `end` overlaps.
pub open spec fn overlap_bounds(
    events: Seq<DaliSimBusEvent>,
    start: u64,
    end: u64,
    first: int,
    last: int,
) -> bool {
    &&& 0 <= first <= last <= events.len()
    &&& forall|j: int| 0 <= j < first ==> #[trigger] events[j].timestamp < start
    &&& first < events.len() ==> events[first].timestamp >= start
    &&& forall|j: int| first <= j < last ==> !starts_after(#[trigger] events[j], end)
    &&& last < events.len() ==> starts_after(events[last], end)
}

/// The events are frames that do not overlap: each has a start, and each
/// ends before any later one starts.
pub open spec fn frames_disjoint(events: Seq<DaliSimBusEvent>) -> bool {
    &&& forall|i: int| 0 <= i < events.len() ==> (#[trigger] events[i]).start is Some
    &&& forall|i: int, j: int|
        0 <= i < j < events.len() ==> #[trigger] events[i].timestamp < (
        #[trigger] events[j]).start->0
}

/// Adding a frame, merged with the frames it overlaps, keeps the frames
/// apart.
proof fn lemma_add_frame_disjoint(
    events: Seq<DaliSimBusEvent>,
    new: DaliSimBusEvent,
    start: u64,
    first: int,
    last: int,
)
    requires
        frames_disjoint(events),
        events_ok(events),
        new.start == Some(start),
        start <= new.timestamp,
        overlap_bounds(events, start, new.timestamp, first, last),
    ensures
        frames_disjoint(spec_add_frame(events, new, start, first, last)),
{
    let r = spec_add_frame(events, new, start, first, last);
    if last > first {
        let m = merged_event(new, start, events[first], events[last - 1]);
        assert(r.len() == events.len() - (last - first) + 1);
        assert(forall|i: int| 0 <= i < first ==> r[i] == events[i]);
        assert(r[first] == m);
        assert(forall|i: int| first < i < r.len() ==> r[i] == events[i + last - first - 1]);
        assert forall|i: int| 0 <= i < r.len() implies (#[trigger] r[i]).start is Some by {
            if first < i {
                assert(r[i] == events[i + last - first - 1]);
            }
        }
        assert forall|i: int, j: int| 0 <= i < j < r.len() implies #[trigger] r[i].timestamp < (
        #[trigger] r[j]).start->0 by {
            if j < first {
            } else if j == first {
                assert(events[i].timestamp < events[first].start->0);
            } else if i == first {
                let k = j + last - first - 1;
                assert(r[j] == events[k]);
                assert(last <= k);
                assert(starts_after(events[last], new.timestamp));
                if k > last {
                    assert(events[last].start->0 <= events[last].timestamp);
                    assert(event_ok(events[last]));
                    assert(events[last].timestamp <= events[k].timestamp);
                    assert(events[last - 1].timestamp < events[k].start->0);
                } else {
                    assert(events[last - 1].timestamp < events[last].start->0);
                }
            } else if i < first {
                let k = j + last - first - 1;
                assert(r[j] == events[k]);
            } else {
                assert(r[i] == events[i + last - first - 1]);
                assert(r[j] == events[j + last - first - 1]);
            }
        }
    } else {
        assert(r == events.insert(first, new));
        assert forall|i: int| 0 <= i < r.len() implies (#[trigger] r[i]).start is Some by {
            if i > first {
                assert(r[i] == events[i - 1]);
            }
        }
        assert forall|i: int, j: int| 0 <= i < j < r.len() implies #[trigger] r[i].timestamp < (
        #[trigger] r[j]).start->0 by {
            if j < first {
            } else if j == first {
            } else if i == first {
                assert(r[j] == events[j - 1]);
                assert(starts_after(events[first], new.timestamp));
                if j - 1 > first {
                    assert(events[first].timestamp < events[j - 1].start->0);
                    assert(event_ok(events[first]));
                }
            } else if i < first {
                assert(r[j] == events[j - 1]);
            } else {
                assert(r[i] == events[i - 1]);
                assert(r[j] == events[j - 1]);
            }
        }
    }
}

/// `after` is the bus's events once `new` is put on it, as `events`: a
/// frame or framing error takes its place, merged with the events it
/// overlaps (see `spec_add_frame`); any other event leaves them as they were.
pub open spec fn added_to_bus(
    events: Seq<DaliSimBusEvent>,
    new: DaliSimBusEvent,
    after: Seq<DaliSimBusEvent>,
) -> bool {
    if is_frame_event(new.event_type) {
        exists|first: int, last: int|
            overlap_bounds(events, new.start->0, new.timestamp, first, last) && after
                == #[trigger] spec_add_frame(events, new, new.start->0, first, last)
    } else {
        after == events
    }
}

impl DaliSimBus {
    /// An empty bus, whose events the task `task_id` hands out.
    pub fn new(task_id: SimulatorTaskId) -> (b: DaliSimBus)
        ensures
            b.events@.len() == 0,
            frames_disjoint(b.events@),
            b.task_id == task_id,
    {
        DaliSimBus { events: Vec::new(), task_id }
    }

    /// Puts `new_event` on the bus. Frames and framing errors take their
    /// place in time order, merged with the frames they overlap; other
    /// events leave the bus as it was. In every case the bus's own task is
    /// to be woken, so that it waits for the new last event: the result is
    /// where that wake-up message goes.
    pub fn add_event(&mut self, new_event: DaliSimBusEvent) -> (wake: SimulatorMessageDest)
        requires
            events_ok(old(self).events@),
            event_ok(new_event),
            is_frame_event(new_event.event_type) ==> new_event.start is Some,
        ensures
            events_ok(final(self).events@),
            added_to_bus(old(self).events@, new_event, final(self).events@),
            frames_disjoint(old(self).events@) ==> frames_disjoint(final(self).events@),
            final(self).task_id == old(self).task_id,
            wake == SimulatorMessageDest::Task(old(self).task_id),
    {
        let frame = match new_event.event_type {
            DaliBusEventType::Frame8(_) => true,
            DaliBusEventType::Frame16(_) => true,
            DaliBusEventType::Frame24(_) => true,
            DaliBusEventType::Frame25(_) => true,
            DaliBusEventType::FramingError => true,
            _ => false,
        };
        let wake = SimulatorMessageDest::Task(self.task_id);
        if !frame {
            return wake;
        }
        let start = match new_event.start {
            Some(s) => s,
            None => {
                return wake;
            },
        };
        let ghost events = self.events@;
        let mut first: usize = 0;
        while first < self.events.len() && self.events[first].timestamp < start
            invariant
                first <= self.events.len(),
                self.events@ == events,
                forall|j: int| 0 <= j < first ==> #[trigger] events[j].timestamp < start,
            decreases self.events.len() - first,
        {
            first = first + 1;
        }
        let mut last: usize = first;
        while last < self.events.len()
            invariant
                first <= last <= self.events.len(),
                self.events@ == events,
                forall|j: int| first <= j < last ==> !starts_after(#[trigger] events[j], new_event.timestamp),
            ensures
                first <= last <= self.events.len(),
                self.events@ == events,
                forall|j: int| first <= j < last ==> !starts_after(#[trigger] events[j], new_event.timestamp),
                last < self.events.len() ==> starts_after(events[last as int], new_event.timestamp),
            decreases self.events.len() - last,
        {
            if let Some(event_start) = self.events[last].start {
                if event_start > new_event.timestamp {
                    break;
                }
            }
            last = last + 1;
        }
        assert(overlap_bounds(events, start, new_event.timestamp, first as int, last as int));
        proof {
            if frames_disjoint(events) {
                lemma_add_frame_disjoint(events, new_event, start, first as int, last as int);
            }
        }
        if last > first {
            let mut merged = new_event;
            if let Some(event_start) = self.events[first].start {
                if event_start < start {
                    merged.start = Some(event_start);
                }
            }
            if self.events[last - 1].timestamp > new_event.timestamp {
                merged.timestamp = self.events[last - 1].timestamp;
            }
            merged.event_type = DaliBusEventType::FramingError;
            assert(merged == merged_event(new_event, start, events[first as int], events[last - 1]));
            let mut tail = self.events.split_off(last);
            self.events.truncate(first + 1);
            self.events.set(first, merged);
            self.events.append(&mut tail);
            assert(self.events@ =~= spec_add_frame(events, new_event, start, first as int, last as int));
        } else {
            self.events.insert(first, new_event);
            assert(self.events@ =~= spec_add_frame(events, new_event, start, first as int, last as int));
        }
        wake
    }

    /// When the bus next has to act: the end of its last event.
    pub fn next_deadline(&self) -> (r: Option<u64>)
        ensures
            self.events@.len() == 0 ==> r is None,
            self.events@.len() > 0 ==> r == Some(self.events@.last().timestamp),
    {
        if self.events.len() == 0 {
            None
        } else {
            Some(self.events[self.events.len() - 1].timestamp)
        }
    }

    /// Takes the events off the end of the bus while the last one has ended
    /// by `now`; the result lists them in the order taken, latest first.
    pub fn take_due(&mut self, now: u64) -> (due: Vec<DaliSimBusEvent>)
        requires
            events_ok(old(self).events@),
        ensures
            events_ok(final(self).events@),
            frames_disjoint(old(self).events@) ==> frames_disjoint(final(self).events@),
            exists|k: int|
                0 <= k <= old(self).events@.len() && final(self).events@ == old(self).events@.subrange(
                    0,
                    k,
                ) && due@ == old(self).events@.subrange(k, old(self).events@.len() as int).reverse()
                    && (k > 0 ==> #[trigger] old(self).events@[k - 1].timestamp > now),
            forall|i: int| 0 <= i < due@.len() ==> #[trigger] due@[i].timestamp <= now,
    {
        let ghost events = self.events@;
        let mut due: Vec<DaliSimBusEvent> = Vec::new();
        while self.events.len() > 0 && self.events[self.events.len() - 1].timestamp <= now
            invariant
                self.events@.len() <= events.len(),
                self.events@ == events.subrange(0, self.events@.len() as int),
                due@ == events.subrange(self.events@.len() as int, events.len() as int).reverse(),
                events_ok(events),
                forall|i: int| 0 <= i < due@.len() ==> #[trigger] due@[i].timestamp <= now,
            decreases self.events.len(),
        {
            let ghost k = self.events@.len() as int;
            let ev = self.events.pop().unwrap();
            due.push(ev);
            assert(due@ =~= events.subrange(k - 1, events.len() as int).reverse());
        }
        let ghost k = self.events@.len() as int;
        assert(k > 0 ==> events[k - 1].timestamp > now);
        assert(frames_disjoint(events) ==> frames_disjoint(self.events@)) by {
            if frames_disjoint(events) {
                assert forall|i: int| 0 <= i < self.events@.len() implies (
                #[trigger] self.events@[i]).start is Some by {
                    assert(self.events@[i] == events[i]);
                }
                assert forall|i: int, j: int| 0 <= i < j < self.events@.len() implies #[trigger] self.events@[i].timestamp
                    < (#[trigger] self.events@[j]).start->0 by {
                    assert(self.events@[i] == events[i]);
                    assert(self.events@[j] == events[j]);
                }
            }
        }
        due
    }
}

/// What a device task on the bus learns when it waits.
#[derive(Debug, Clone, Copy)]
pub enum DaliSimBusDeviceEvent {
    Timeout,
    Shutdown,
    Message(DaliSimBusEvent),
}

/// A device attached to the bus, known by the identifier of its task.
pub struct DaliSimBusDevice {
    pub task_id: SimulatorTaskId,
}

impl DaliSimBusDevice {
    pub fn new(task_id: SimulatorTaskId) -> (d: DaliSimBusDevice)
        ensures
            d.task_id == task_id,
    {
        DaliSimBusDevice { task_id }
    }

    /// The bus event for a frame or other event that this device makes.
    pub fn event(&self, event_type: DaliBusEventType, timestamp: u64, start: Option<u64>) -> (e:
        DaliSimBusEvent)
        ensures
            e == (DaliSimBusEvent { source_id: self.task_id, start, timestamp, event_type }),
    {
        DaliSimBusEvent { source_id: self.task_id, start, timestamp, event_type }
    }

    /// Puts an event of this device on `bus`: exactly what the bus does
    /// with the event that carries this device's task identifier, including
    /// the wake-up of the bus's task.
    pub fn add_event(
        &self,
        bus: &mut DaliSimBus,
        event_type: DaliBusEventType,
        timestamp: u64,
        start: Option<u64>,
    ) -> (wake: SimulatorMessageDest)
        requires
            events_ok(old(bus).events@),
            start matches Some(s) ==> s <= timestamp,
            is_frame_event(event_type) ==> start is Some,
        ensures
            events_ok(final(bus).events@),
            added_to_bus(
                old(bus).events@,
                DaliSimBusEvent { source_id: self.task_id, start, timestamp, event_type },
                final(bus).events@,
            ),
            frames_disjoint(old(bus).events@) ==> frames_disjoint(final(bus).events@),
            final(bus).task_id == old(bus).task_id,
            wake == SimulatorMessageDest::Task(old(bus).task_id),
    {
        let e = self.event(event_type, timestamp, start);
        bus.add_event(e)
    }

    /// A bus event is news to this device when another device made it.
    pub fn is_news(&self, e: &DaliSimBusEvent) -> (r: bool)
        ensures
            r == (e.source_id != self.task_id),
    {
        e.source_id != self.task_id
    }
}

} // verus!
