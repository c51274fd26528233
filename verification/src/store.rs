//! An in-memory image of the metadata store's tables, with the lookup
//! operations the graph subsystem issues against the store collaborator.
//!
//! Id lookups return the first record with the given id (ids are expected to
//! be unique, but nothing here depends on that); absence is an empty result,
//! not an error.  The event query returns, in table order, every event whose
//! artifact (for an artifact node) or execution (for an execution node)
//! matches the given id.

use vstd::prelude::*;

use crate::artifact::{ArtifactRecord, ArtifactRecordV};
use crate::event::{events_view, Event, EventV};
use crate::execution::{ExecutionRecord, ExecutionRecordV};
use crate::graph::NodeId;
use crate::property::{TypeRecord, TypeRecordV};

verus! {

/// The tables of the metadata store that the graph subsystem reads.
#[derive(Debug)]
pub struct Store {
    pub artifacts: Vec<ArtifactRecord>,
    pub executions: Vec<ExecutionRecord>,
    pub artifact_types: Vec<TypeRecord>,
    pub execution_types: Vec<TypeRecord>,
    pub events: Vec<Event>,
}

/// The mathematical value of a [`Store`].
pub ghost struct StoreV {
    pub artifacts: Seq<ArtifactRecordV>,
    pub executions: Seq<ExecutionRecordV>,
    pub artifact_types: Seq<TypeRecordV>,
    pub execution_types: Seq<TypeRecordV>,
    pub events: Seq<EventV>,
}

impl View for Store {
    type V = StoreV;

    open spec fn view(&self) -> StoreV {
        StoreV {
            artifacts: self.artifacts@.map_values(|r: ArtifactRecord| r@),
            executions: self.executions@.map_values(|r: ExecutionRecord| r@),
            artifact_types: self.artifact_types@.map_values(|r: TypeRecord| r@),
            execution_types: self.execution_types@.map_values(|r: TypeRecord| r@),
            events: events_view(self.events@),
        }
    }
}

/// The first artifact record with the given id, if any.
pub open spec fn find_artifact(s: Seq<ArtifactRecordV>, id: int) -> Option<ArtifactRecordV>
    decreases s.len(),
{
    if s.len() == 0 {
        Option::None
    } else if s.first().id == id {
        Option::Some(s.first())
    } else {
        find_artifact(s.drop_first(), id)
    }
}

/// The first execution record with the given id, if any.
pub open spec fn find_execution(s: Seq<ExecutionRecordV>, id: int) -> Option<ExecutionRecordV>
    decreases s.len(),
{
    if s.len() == 0 {
        Option::None
    } else if s.first().id == id {
        Option::Some(s.first())
    } else {
        find_execution(s.drop_first(), id)
    }
}

/// The first type record with the given id, if any.
pub open spec fn find_type(s: Seq<TypeRecordV>, id: int) -> Option<TypeRecordV>
    decreases s.len(),
{
    if s.len() == 0 {
        Option::None
    } else if s.first().id == id {
        Option::Some(s.first())
    } else {
        find_type(s.drop_first(), id)
    }
}

/// Whether the event is about the given node: an artifact node's events are
/// those naming its artifact id, an execution node's those naming its
/// execution id.
pub open spec fn event_is_about(ev: EventV, id: NodeId) -> bool {
    match id {
        NodeId::Artifact(a) => ev.artifact_id == a as int,
        NodeId::Execution(e) => ev.execution_id == e as int,
    }
}

/// The events about the given node, in table order.
pub open spec fn events_about(evs: Seq<EventV>, id: NodeId) -> Seq<EventV>
    decreases evs.len(),
{
    if evs.len() == 0 {
        Seq::empty()
    } else if event_is_about(evs.last(), id) {
        events_about(evs.drop_last(), id).push(evs.last())
    } else {
        events_about(evs.drop_last(), id)
    }
}

/// A found artifact record carries the id it was looked up by.
pub proof fn lemma_find_artifact_id(s: Seq<ArtifactRecordV>, id: int)
    ensures
        find_artifact(s, id) matches Option::Some(rec) ==> rec.id == id,
    decreases s.len(),
{
    if s.len() > 0 {
        lemma_find_artifact_id(s.drop_first(), id);
    }
}

/// A found execution record carries the id it was looked up by.
pub proof fn lemma_find_execution_id(s: Seq<ExecutionRecordV>, id: int)
    ensures
        find_execution(s, id) matches Option::Some(rec) ==> rec.id == id,
    decreases s.len(),
{
    if s.len() > 0 {
        lemma_find_execution_id(s.drop_first(), id);
    }
}

impl Store {
    /// Looks up an artifact record by id.
    pub fn artifact_by_id(&self, id: i32) -> (r: Option<&ArtifactRecord>)
        ensures
            match r {
                Option::Some(rec) => find_artifact(self@.artifacts, id as int) == Option::Some(
                    rec@,
                ),
                Option::None => find_artifact(self@.artifacts, id as int) is None,
            },
    {
        let mut i: usize = 0;
        proof {
            assert(self@.artifacts.skip(0) =~= self@.artifacts);
        }
        while i < self.artifacts.len()
            invariant
                i <= self.artifacts@.len(),
                self@.artifacts.len() == self.artifacts@.len(),
                find_artifact(self@.artifacts, id as int) == find_artifact(
                    self@.artifacts.skip(i as int),
                    id as int,
                ),
            decreases self.artifacts@.len() - i,
        {
            proof {
                assert(self@.artifacts.skip(i as int).first() == self@.artifacts[i as int]);
                assert(self@.artifacts.skip(i as int).drop_first() =~= self@.artifacts.skip(i + 1));
            }
            if self.artifacts[i].id == id {
                return Option::Some(&self.artifacts[i]);
            }
            i = i + 1;
        }
        proof {
            assert(self@.artifacts.skip(self.artifacts@.len() as int) =~= Seq::<
                ArtifactRecordV,
            >::empty());
        }
        Option::None
    }

    /// Looks up an execution record by id.
    pub fn execution_by_id(&self, id: i32) -> (r: Option<&ExecutionRecord>)
        ensures
            match r {
                Option::Some(rec) => find_execution(self@.executions, id as int) == Option::Some(
                    rec@,
                ),
                Option::None => find_execution(self@.executions, id as int) is None,
            },
    {
        let mut i: usize = 0;
        proof {
            assert(self@.executions.skip(0) =~= self@.executions);
        }
        while i < self.executions.len()
            invariant
                i <= self.executions@.len(),
                self@.executions.len() == self.executions@.len(),
                find_execution(self@.executions, id as int) == find_execution(
                    self@.executions.skip(i as int),
                    id as int,
                ),
            decreases self.executions@.len() - i,
        {
            proof {
                assert(self@.executions.skip(i as int).first() == self@.executions[i as int]);
                assert(self@.executions.skip(i as int).drop_first() =~= self@.executions.skip(
                    i + 1,
                ));
            }
            if self.executions[i].id == id {
                return Option::Some(&self.executions[i]);
            }
            i = i + 1;
        }
        proof {
            assert(self@.executions.skip(self.executions@.len() as int) =~= Seq::<
                ExecutionRecordV,
            >::empty());
        }
        Option::None
    }

    /// Looks up an artifact type record by type id.
    pub fn artifact_type_by_id(&self, id: i32) -> (r: Option<&TypeRecord>)
        ensures
            match r {
                Option::Some(rec) => find_type(self@.artifact_types, id as int) == Option::Some(
                    rec@,
                ),
                Option::None => find_type(self@.artifact_types, id as int) is None,
            },
    {
        Self::type_by_id(&self.artifact_types, id)
    }

    /// Looks up an execution type record by type id.
    pub fn execution_type_by_id(&self, id: i32) -> (r: Option<&TypeRecord>)
        ensures
            match r {
                Option::Some(rec) => find_type(self@.execution_types, id as int) == Option::Some(
                    rec@,
                ),
                Option::None => find_type(self@.execution_types, id as int) is None,
            },
    {
        Self::type_by_id(&self.execution_types, id)
    }

    fn type_by_id(types: &Vec<TypeRecord>, id: i32) -> (r: Option<&TypeRecord>)
        ensures
            match r {
                Option::Some(rec) => find_type(
                    types@.map_values(|t: TypeRecord| t@),
                    id as int,
                ) == Option::Some(rec@),
                Option::None => find_type(types@.map_values(|t: TypeRecord| t@), id as int) is None,
            },
    {
        let ghost tv = types@.map_values(|t: TypeRecord| t@);
        let mut i: usize = 0;
        proof {
            assert(tv.skip(0) =~= tv);
        }
        while i < types.len()
            invariant
                i <= types@.len(),
                tv == types@.map_values(|t: TypeRecord| t@),
                tv.len() == types@.len(),
                find_type(tv, id as int) == find_type(tv.skip(i as int), id as int),
            decreases types@.len() - i,
        {
            proof {
                assert(tv.skip(i as int).first() == tv[i as int]);
                assert(tv.skip(i as int).drop_first() =~= tv.skip(i + 1));
            }
            if types[i].id == id {
                return Option::Some(&types[i]);
            }
            i = i + 1;
        }
        proof {
            assert(tv.skip(types@.len() as int) =~= Seq::<TypeRecordV>::empty());
        }
        Option::None
    }

    /// Returns the events about the given node, in table order.
    pub fn events_for(&self, id: NodeId) -> (r: Vec<Event>)
        ensures
            events_view(r@) == events_about(self@.events, id),
    {
        let ghost evs = self@.events;
        let mut r: Vec<Event> = Vec::new();
        let mut i: usize = 0;
        while i < self.events.len()
            invariant
                i <= self.events@.len(),
                evs == self@.events,
                evs.len() == self.events@.len(),
                events_view(r@) =~= events_about(evs.take(i as int), id),
            decreases self.events@.len() - i,
        {
            proof {
                assert(evs.take(i + 1).drop_last() =~= evs.take(i as int));
                assert(evs.take(i + 1).last() == evs[i as int]);
                assert(evs[i as int] == self.events@[i as int]@);
            }
            let matches_id = match id {
                NodeId::Artifact(a) => self.events[i].artifact_id == a,
                NodeId::Execution(e) => self.events[i].execution_id == e,
            };
            if matches_id {
                r.push(self.events[i].clone());
                proof {
                    assert(events_view(r@) =~= events_about(evs.take(i + 1), id));
                }
            }
            i = i + 1;
        }
        proof {
            assert(evs.take(self.events@.len() as int) =~= evs);
        }
        r
    }
}

} // verus!
