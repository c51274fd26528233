//! Events: the typed, directional links between one execution and one
//! artifact, read from the metadata store.

use vstd::prelude::*;

verus! {

/// The type tag of an event, as recorded by the metadata store.
#[derive(Debug, Clone, Copy, PartialEq, Eq, Structural, Hash)]
pub enum EventType {
    Unknown,
    DeclaredOutput,
    DeclaredInput,
    Input,
    Output,
    InternalInput,
    InternalOutput,
}

/// An event type that records an artifact being consumed by an execution.
pub open spec fn is_input_type(t: EventType) -> bool {
    t == EventType::Input || t == EventType::DeclaredInput || t == EventType::InternalInput
}

/// An event type that records an artifact being produced by an execution.
pub open spec fn is_output_type(t: EventType) -> bool {
    t == EventType::Output || t == EventType::DeclaredOutput || t == EventType::InternalOutput
}

impl EventType {
    /// Executable form of [`is_input_type`].
    pub fn is_input(self) -> (r: bool)
        ensures
            r == is_input_type(self),
    {
        match self {
            EventType::Input | EventType::DeclaredInput | EventType::InternalInput => true,
            _ => false,
        }
    }

    /// Executable form of [`is_output_type`].
    pub fn is_output(self) -> (r: bool)
        ensures
            r == is_output_type(self),
    {
        match self {
            EventType::Output | EventType::DeclaredOutput | EventType::InternalOutput => true,
            _ => false,
        }
    }
}

/// One step of the path addressing a position inside a composite artifact
/// value: either a list index or a map key.
#[derive(Debug)]
pub enum EventStep {
    Index(i32),
    Key(String),
}

/// The mathematical value of an [`EventStep`].
pub ghost enum EventStepV {
    Index(int),
    Key(Seq<char>),
}

impl View for EventStep {
    type V = EventStepV;

    open spec fn view(&self) -> EventStepV {
        match self {
            EventStep::Index(x) => EventStepV::Index(*x as int),
            EventStep::Key(s) => EventStepV::Key(s@),
        }
    }
}

impl Clone for EventStep {
    fn clone(&self) -> (r: Self)
        ensures
            r@ == self@,
    {
        match self {
            EventStep::Index(x) => EventStep::Index(*x),
            EventStep::Key(s) => EventStep::Key(s.clone()),
        }
    }
}

/// A typed link between one execution and one artifact.  `time` is the
/// event's creation time in milliseconds since the Unix epoch.
#[derive(Debug)]
pub struct Event {
    pub artifact_id: i32,
    pub execution_id: i32,
    pub ty: EventType,
    pub path: Vec<EventStep>,
    pub time: u64,
}

/// The mathematical value of an [`Event`].
pub ghost struct EventV {
    pub artifact_id: int,
    pub execution_id: int,
    pub ty: EventType,
    pub path: Seq<EventStepV>,
    pub time: int,
}

/// The sequence of step values addressed by a sequence of steps.
pub open spec fn path_view(p: Seq<EventStep>) -> Seq<EventStepV> {
    p.map_values(|s: EventStep| s@)
}

impl View for Event {
    type V = EventV;

    open spec fn view(&self) -> EventV {
        EventV {
            artifact_id: self.artifact_id as int,
            execution_id: self.execution_id as int,
            ty: self.ty,
            path: path_view(self.path@),
            time: self.time as int,
        }
    }
}

impl Clone for Event {
    fn clone(&self) -> (r: Self)
        ensures
            r@ == self@,
    {
        let r = Event {
            artifact_id: self.artifact_id,
            execution_id: self.execution_id,
            ty: self.ty,
            path: self.path.clone(),
            time: self.time,
        };
        proof {
            assert forall|i: int| 0 <= i < self.path@.len() implies r.path@[i]@ == self.path@[i]@ by {
                assert(cloned::<EventStep>(self.path@[i], r.path@[i]));
            }
            assert(path_view(r.path@) =~= path_view(self.path@));
        }
        r
    }
}

/// The sequence of event values held by a vector of events.
pub open spec fn events_view(evs: Seq<Event>) -> Seq<EventV> {
    evs.map_values(|e: Event| e@)
}

/// How many of the events are input-typed.
pub open spec fn count_input_events(evs: Seq<EventV>) -> nat
    decreases evs.len(),
{
    if evs.len() == 0 {
        0
    } else {
        count_input_events(evs.drop_last()) + if is_input_type(evs.last().ty) {
            1nat
        } else {
            0nat
        }
    }
}

/// How many of the events are output-typed.
pub open spec fn count_output_events(evs: Seq<EventV>) -> nat
    decreases evs.len(),
{
    if evs.len() == 0 {
        0
    } else {
        count_output_events(evs.drop_last()) + if is_output_type(evs.last().ty) {
            1nat
        } else {
            0nat
        }
    }
}

/// A count never exceeds the number of events counted.
pub proof fn lemma_counts_bounded(evs: Seq<EventV>)
    ensures
        count_input_events(evs) <= evs.len(),
        count_output_events(evs) <= evs.len(),
    decreases evs.len(),
{
    if evs.len() > 0 {
        lemma_counts_bounded(evs.drop_last());
    }
}

/// Counts the input-typed events of `events`.
pub fn count_inputs(events: &Vec<Event>) -> (n: usize)
    ensures
        n == count_input_events(events_view(events@)),
{
    let ghost evs = events_view(events@);
    let mut n: usize = 0;
    let mut i: usize = 0;
    while i < events.len()
        invariant
            i <= events.len(),
            evs == events_view(events@),
            evs.len() == events@.len(),
            n == count_input_events(evs.take(i as int)),
            n <= i,
        decreases events.len() - i,
    {
        proof {
            assert(evs.take(i + 1).drop_last() =~= evs.take(i as int));
            assert(evs.take(i + 1).last() == evs[i as int]);
            assert(evs[i as int] == events@[i as int]@);
        }
        if events[i].ty.is_input() {
            n = n + 1;
        }
        i = i + 1;
    }
    proof {
        assert(evs.take(events@.len() as int) =~= evs);
    }
    n
}

/// Counts the output-typed events of `events`.
pub fn count_outputs(events: &Vec<Event>) -> (n: usize)
    ensures
        n == count_output_events(events_view(events@)),
{
    let ghost evs = events_view(events@);
    let mut n: usize = 0;
    let mut i: usize = 0;
    while i < events.len()
        invariant
            i <= events.len(),
            evs == events_view(events@),
            evs.len() == events@.len(),
            n == count_output_events(evs.take(i as int)),
            n <= i,
        decreases events.len() - i,
    {
        proof {
            assert(evs.take(i + 1).drop_last() =~= evs.take(i as int));
            assert(evs.take(i + 1).last() == evs[i as int]);
            assert(evs[i as int] == events@[i as int]@);
        }
        if events[i].ty.is_output() {
            n = n + 1;
        }
        i = i + 1;
    }
    proof {
        assert(evs.take(events@.len() as int) =~= evs);
    }
    n
}

} // verus!
