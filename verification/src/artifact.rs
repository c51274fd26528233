//! Artifacts: versioned data objects consumed or produced by executions.

use vstd::prelude::*;

use crate::property::{
    clone_opt_string, clone_prop_types, clone_props, opt_string_view, prop_types_view, props_view,
    PropertyType, PropertyValue, PropertyValueV, TypeRecord, TypeRecordV,
};

verus! {

/// The lifecycle state of an artifact.
#[derive(Debug, Clone, Copy, PartialEq, Eq, Structural, Hash)]
pub enum ArtifactState {
    Unknown,
    Pending,
    Live,
    MarkedForDeletion,
    Deleted,
}

/// The field an artifact listing can be ordered by.
#[derive(Debug, Clone, Copy, PartialEq, Eq, Structural)]
pub enum ArtifactOrderByField {
    Id,
    Name,
    CreateTime,
    UpdateTime,
}

impl Default for ArtifactOrderByField {
    /// The default ordering is by id.
    fn default() -> (r: Self)
        ensures
            r == ArtifactOrderByField::Id,
    {
        ArtifactOrderByField::Id
    }
}

/// The ordering field named by its command-line spelling, if any.
pub open spec fn parse_artifact_order(s: Seq<char>) -> Option<ArtifactOrderByField> {
    if s == "id"@ {
        Option::Some(ArtifactOrderByField::Id)
    } else if s == "name"@ {
        Option::Some(ArtifactOrderByField::Name)
    } else if s == "ctime"@ {
        Option::Some(ArtifactOrderByField::CreateTime)
    } else if s == "mtime"@ {
        Option::Some(ArtifactOrderByField::UpdateTime)
    } else {
        Option::None
    }
}

impl ArtifactOrderByField {
    /// Parses the command-line spelling of an ordering field.
    pub fn from_text(s: &str) -> (r: Option<Self>)
        ensures
            r == parse_artifact_order(s@),
    {
        if crate::text::str_eq(s, "id") {
            Option::Some(ArtifactOrderByField::Id)
        } else if crate::text::str_eq(s, "name") {
            Option::Some(ArtifactOrderByField::Name)
        } else if crate::text::str_eq(s, "ctime") {
            Option::Some(ArtifactOrderByField::CreateTime)
        } else if crate::text::str_eq(s, "mtime") {
            Option::Some(ArtifactOrderByField::UpdateTime)
        } else {
            Option::None
        }
    }
}

/// An artifact type reduced to its id, name and property names.
#[derive(Debug)]
pub struct ArtifactTypeSummary {
    pub id: i32,
    pub name: String,
    pub properties: Vec<String>,
}

/// An artifact type with its full property-type map.
#[derive(Debug)]
pub struct ArtifactTypeDetail {
    pub id: i32,
    pub name: String,
    pub properties: Vec<(String, PropertyType)>,
}

/// The property names of a property-type map, in declaration order.
pub open spec fn prop_names(ps: Seq<(Seq<char>, PropertyType)>) -> Seq<Seq<char>> {
    ps.map_values(|p: (Seq<char>, PropertyType)| p.0)
}

impl ArtifactTypeSummary {
    /// Reduces a type record to its summary.
    pub fn from_record(ty: &TypeRecord) -> (r: Self)
        ensures
            r.id == ty.id,
            r.name@ == ty@.name,
            r.properties@.map_values(|s: String| s@) == prop_names(ty@.properties),
    {
        let mut names: Vec<String> = Vec::new();
        let mut i: usize = 0;
        while i < ty.properties.len()
            invariant
                i <= ty.properties@.len(),
                names@.map_values(|s: String| s@) =~= prop_names(
                    prop_types_view(ty.properties@.take(i as int)),
                ),
            decreases ty.properties@.len() - i,
        {
            let (k, _) = &ty.properties[i];
            names.push(k.clone());
            proof {
                assert(prop_names(prop_types_view(ty.properties@.take(i + 1))) =~= prop_names(
                    prop_types_view(ty.properties@.take(i as int)),
                ).push(ty.properties@[i as int].0@));
                assert(names@.map_values(|s: String| s@) =~= prop_names(
                    prop_types_view(ty.properties@.take(i + 1)),
                ));
            }
            i = i + 1;
        }
        proof {
            assert(ty.properties@.take(ty.properties@.len() as int) =~= ty.properties@);
        }
        ArtifactTypeSummary { id: ty.id, name: ty.name.clone(), properties: names }
    }
}

impl ArtifactTypeDetail {
    /// Keeps the full property-type map of a type record.
    pub fn from_record(ty: &TypeRecord) -> (r: Self)
        ensures
            r.id == ty.id,
            r.name@ == ty@.name,
            prop_types_view(r.properties@) == ty@.properties,
    {
        ArtifactTypeDetail {
            id: ty.id,
            name: ty.name.clone(),
            properties: clone_prop_types(&ty.properties),
        }
    }
}

/// An artifact as the metadata store records it, before its type is resolved.
/// Times are milliseconds since the Unix epoch.
#[derive(Debug)]
pub struct ArtifactRecord {
    pub id: i32,
    pub type_id: i32,
    pub name: Option<String>,
    pub uri: Option<String>,
    pub state: ArtifactState,
    pub ctime: u64,
    pub mtime: u64,
    pub properties: Vec<(String, PropertyValue)>,
    pub custom_properties: Vec<(String, PropertyValue)>,
}

/// The mathematical value of an [`ArtifactRecord`].
pub ghost struct ArtifactRecordV {
    pub id: int,
    pub type_id: int,
    pub name: Option<Seq<char>>,
    pub uri: Option<Seq<char>>,
    pub state: ArtifactState,
    pub ctime: int,
    pub mtime: int,
    pub properties: Seq<(Seq<char>, PropertyValueV)>,
    pub custom_properties: Seq<(Seq<char>, PropertyValueV)>,
}

impl View for ArtifactRecord {
    type V = ArtifactRecordV;

    open spec fn view(&self) -> ArtifactRecordV {
        ArtifactRecordV {
            id: self.id as int,
            type_id: self.type_id as int,
            name: opt_string_view(self.name),
            uri: opt_string_view(self.uri),
            state: self.state,
            ctime: self.ctime as int,
            mtime: self.mtime as int,
            properties: props_view(self.properties@),
            custom_properties: props_view(self.custom_properties@),
        }
    }
}

/// A display-ready artifact: the store record combined with its type name.
#[derive(Debug)]
pub struct Artifact {
    pub id: i32,
    pub name: Option<String>,
    pub type_label: String,
    pub uri: Option<String>,
    pub state: ArtifactState,
    pub ctime: u64,
    pub mtime: u64,
    pub properties: Vec<(String, PropertyValue)>,
    pub custom_properties: Vec<(String, PropertyValue)>,
    pub extra_properties: Vec<(String, PropertyValue)>,
    pub summary: Option<String>,
}

/// The mathematical value of an [`Artifact`].
pub ghost struct ArtifactV {
    pub id: int,
    pub name: Option<Seq<char>>,
    pub type_label: Seq<char>,
    pub uri: Option<Seq<char>>,
    pub state: ArtifactState,
    pub ctime: int,
    pub mtime: int,
    pub properties: Seq<(Seq<char>, PropertyValueV)>,
    pub custom_properties: Seq<(Seq<char>, PropertyValueV)>,
    pub extra_properties: Seq<(Seq<char>, PropertyValueV)>,
    pub summary: Option<Seq<char>>,
}

impl View for Artifact {
    type V = ArtifactV;

    open spec fn view(&self) -> ArtifactV {
        ArtifactV {
            id: self.id as int,
            name: opt_string_view(self.name),
            type_label: self.type_label@,
            uri: opt_string_view(self.uri),
            state: self.state,
            ctime: self.ctime as int,
            mtime: self.mtime as int,
            properties: props_view(self.properties@),
            custom_properties: props_view(self.custom_properties@),
            extra_properties: props_view(self.extra_properties@),
            summary: opt_string_view(self.summary),
        }
    }
}

/// The artifact obtained by combining a store record with its resolved type:
/// the record's own fields, the type's name, no extra properties and no
/// summary.
pub open spec fn artifact_of(ty: TypeRecordV, rec: ArtifactRecordV) -> ArtifactV {
    ArtifactV {
        id: rec.id,
        name: rec.name,
        type_label: ty.name,
        uri: rec.uri,
        state: rec.state,
        ctime: rec.ctime,
        mtime: rec.mtime,
        properties: rec.properties,
        custom_properties: rec.custom_properties,
        extra_properties: Seq::empty(),
        summary: Option::None,
    }
}

impl Artifact {
    /// Combines a store record with its resolved type into the display-ready
    /// form; this is the final step of the entity fetcher.
    pub fn from_parts(ty: &TypeRecord, rec: &ArtifactRecord) -> (a: Artifact)
        ensures
            a@ == artifact_of(ty@, rec@),
    {
        let a = Artifact {
            id: rec.id,
            name: clone_opt_string(&rec.name),
            type_label: ty.name.clone(),
            uri: clone_opt_string(&rec.uri),
            state: rec.state,
            ctime: rec.ctime,
            mtime: rec.mtime,
            properties: clone_props(&rec.properties),
            custom_properties: clone_props(&rec.custom_properties),
            extra_properties: Vec::new(),
            summary: Option::None,
        };
        proof {
            assert(props_view(a.extra_properties@) =~= Seq::<(Seq<char>, PropertyValueV)>::empty());
            assert(a@ =~= artifact_of(ty@, rec@));
        }
        a
    }
}

} // verus!
