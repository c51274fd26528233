//! Executions: runs of computation steps recorded by the metadata store.

use vstd::prelude::*;

use crate::property::{
    clone_opt_string, clone_prop_types, clone_props, opt_string_view, prop_types_view, props_view,
    PropertyType, PropertyValue, PropertyValueV, TypeRecord, TypeRecordV,
};

verus! {

/// The last known state of an execution.
#[derive(Debug, Clone, Copy, PartialEq, Eq, Structural, Hash)]
pub enum ExecutionState {
    Unknown,
    New,
    Running,
    Complete,
    Failed,
    Cached,
    Canceled,
}

/// The field an execution listing can be ordered by.
#[derive(Debug, Clone, Copy, PartialEq, Eq, Structural)]
pub enum ExecutionOrderByField {
    Id,
    Name,
    CreateTime,
    UpdateTime,
}

impl Default for ExecutionOrderByField {
    /// The default ordering is by id.
    fn default() -> (r: Self)
        ensures
            r == ExecutionOrderByField::Id,
    {
        ExecutionOrderByField::Id
    }
}

/// The ordering field named by its command-line spelling, if any.
pub open spec fn parse_execution_order(s: Seq<char>) -> Option<ExecutionOrderByField> {
    if s == "id"@ {
        Option::Some(ExecutionOrderByField::Id)
    } else if s == "name"@ {
        Option::Some(ExecutionOrderByField::Name)
    } else if s == "ctime"@ {
        Option::Some(ExecutionOrderByField::CreateTime)
    } else if s == "mtime"@ {
        Option::Some(ExecutionOrderByField::UpdateTime)
    } else {
        Option::None
    }
}

impl ExecutionOrderByField {
    /// Parses the command-line spelling of an ordering field.
    pub fn from_text(s: &str) -> (r: Option<Self>)
        ensures
            r == parse_execution_order(s@),
    {
        if crate::text::str_eq(s, "id") {
            Option::Some(ExecutionOrderByField::Id)
        } else if crate::text::str_eq(s, "name") {
            Option::Some(ExecutionOrderByField::Name)
        } else if crate::text::str_eq(s, "ctime") {
            Option::Some(ExecutionOrderByField::CreateTime)
        } else if crate::text::str_eq(s, "mtime") {
            Option::Some(ExecutionOrderByField::UpdateTime)
        } else {
            Option::None
        }
    }
}

/// An execution type reduced to its id, name and property names.
#[derive(Debug)]
pub struct ExecutionTypeSummary {
    pub id: i32,
    pub name: String,
    pub properties: Vec<String>,
}

/// An execution type with its full property-type map.
#[derive(Debug)]
pub struct ExecutionTypeDetail {
    pub id: i32,
    pub name: String,
    pub properties: Vec<(String, PropertyType)>,
}

impl ExecutionTypeSummary {
    /// Reduces a type record to its summary.
    pub fn from_record(ty: &TypeRecord) -> (r: Self)
        ensures
            r.id == ty.id,
            r.name@ == ty@.name,
            r.properties@.map_values(|s: String| s@) == crate::artifact::prop_names(ty@.properties),
    {
        let s = crate::artifact::ArtifactTypeSummary::from_record(ty);
        ExecutionTypeSummary { id: s.id, name: s.name, properties: s.properties }
    }
}

impl ExecutionTypeDetail {
    /// Keeps the full property-type map of a type record.
    pub fn from_record(ty: &TypeRecord) -> (r: Self)
        ensures
            r.id == ty.id,
            r.name@ == ty@.name,
            prop_types_view(r.properties@) == ty@.properties,
    {
        ExecutionTypeDetail {
            id: ty.id,
            name: ty.name.clone(),
            properties: clone_prop_types(&ty.properties),
        }
    }
}

/// An execution as the metadata store records it, before its type is
/// resolved.  Times are milliseconds since the Unix epoch.
#[derive(Debug)]
pub struct ExecutionRecord {
    pub id: i32,
    pub type_id: i32,
    pub name: Option<String>,
    pub state: ExecutionState,
    pub ctime: u64,
    pub mtime: u64,
    pub properties: Vec<(String, PropertyValue)>,
    pub custom_properties: Vec<(String, PropertyValue)>,
}

/// The mathematical value of an [`ExecutionRecord`].
pub ghost struct ExecutionRecordV {
    pub id: int,
    pub type_id: int,
    pub name: Option<Seq<char>>,
    pub state: ExecutionState,
    pub ctime: int,
    pub mtime: int,
    pub properties: Seq<(Seq<char>, PropertyValueV)>,
    pub custom_properties: Seq<(Seq<char>, PropertyValueV)>,
}

impl View for ExecutionRecord {
    type V = ExecutionRecordV;

    open spec fn view(&self) -> ExecutionRecordV {
        ExecutionRecordV {
            id: self.id as int,
            type_id: self.type_id as int,
            name: opt_string_view(self.name),
            state: self.state,
            ctime: self.ctime as int,
            mtime: self.mtime as int,
            properties: props_view(self.properties@),
            custom_properties: props_view(self.custom_properties@),
        }
    }
}

/// A display-ready execution: the store record combined with its type name.
#[derive(Debug)]
pub struct Execution {
    pub id: i32,
    pub name: Option<String>,
    pub type_label: String,
    pub state: ExecutionState,
    pub ctime: u64,
    pub mtime: u64,
    pub properties: Vec<(String, PropertyValue)>,
    pub custom_properties: Vec<(String, PropertyValue)>,
    pub summary: Option<String>,
}

/// The mathematical value of an [`Execution`].
pub ghost struct ExecutionV {
    pub id: int,
    pub name: Option<Seq<char>>,
    pub type_label: Seq<char>,
    pub state: ExecutionState,
    pub ctime: int,
    pub mtime: int,
    pub properties: Seq<(Seq<char>, PropertyValueV)>,
    pub custom_properties: Seq<(Seq<char>, PropertyValueV)>,
    pub summary: Option<Seq<char>>,
}

impl View for Execution {
    type V = ExecutionV;

    open spec fn view(&self) -> ExecutionV {
        ExecutionV {
            id: self.id as int,
            name: opt_string_view(self.name),
            type_label: self.type_label@,
            state: self.state,
            ctime: self.ctime as int,
            mtime: self.mtime as int,
            properties: props_view(self.properties@),
            custom_properties: props_view(self.custom_properties@),
            summary: opt_string_view(self.summary),
        }
    }
}

/// The execution obtained by combining a store record with its resolved
/// type: the record's own fields, the type's name and no summary.
pub open spec fn execution_of(ty: TypeRecordV, rec: ExecutionRecordV) -> ExecutionV {
    ExecutionV {
        id: rec.id,
        name: rec.name,
        type_label: ty.name,
        state: rec.state,
        ctime: rec.ctime,
        mtime: rec.mtime,
        properties: rec.properties,
        custom_properties: rec.custom_properties,
        summary: Option::None,
    }
}

impl Execution {
    /// Combines a store record with its resolved type into the display-ready
    /// form; this is the final step of the entity fetcher.
    pub fn from_parts(ty: &TypeRecord, rec: &ExecutionRecord) -> (e: Execution)
        ensures
            e@ == execution_of(ty@, rec@),
    {
        let e = Execution {
            id: rec.id,
            name: clone_opt_string(&rec.name),
            type_label: ty.name.clone(),
            state: rec.state,
            ctime: rec.ctime,
            mtime: rec.mtime,
            properties: clone_props(&rec.properties),
            custom_properties: clone_props(&rec.custom_properties),
            summary: Option::None,
        };
        proof {
            assert(e@ =~= execution_of(ty@, rec@));
        }
        e
    }
}

} // verus!
