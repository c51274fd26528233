//! Contexts: groupings of artifacts and executions.

use vstd::prelude::*;

use crate::property::{
    clone_opt_string, clone_prop_types, clone_props, opt_string_view, prop_types_view, props_view,
    PropertyType, PropertyValue, PropertyValueV, TypeRecord,
};

verus! {

/// The field a context listing can be ordered by.
#[derive(Debug, Clone, Copy, PartialEq, Eq, Structural)]
pub enum ContextOrderByField {
    Id,
    Name,
    CreateTime,
    UpdateTime,
}

impl Default for ContextOrderByField {
    /// The default ordering is by id.
    fn default() -> (r: Self)
        ensures
            r == ContextOrderByField::Id,
    {
        ContextOrderByField::Id
    }
}

/// The ordering field named by its command-line spelling, if any.
pub open spec fn parse_context_order(s: Seq<char>) -> Option<ContextOrderByField> {
    if s == "id"@ {
        Option::Some(ContextOrderByField::Id)
    } else if s == "name"@ {
        Option::Some(ContextOrderByField::Name)
    } else if s == "ctime"@ {
        Option::Some(ContextOrderByField::CreateTime)
    } else if s == "mtime"@ {
        Option::Some(ContextOrderByField::UpdateTime)
    } else {
        Option::None
    }
}

impl ContextOrderByField {
    /// Parses the command-line spelling of an ordering field.
    pub fn from_text(s: &str) -> (r: Option<Self>)
        ensures
            r == parse_context_order(s@),
    {
        if crate::text::str_eq(s, "id") {
            Option::Some(ContextOrderByField::Id)
        } else if crate::text::str_eq(s, "name") {
            Option::Some(ContextOrderByField::Name)
        } else if crate::text::str_eq(s, "ctime") {
            Option::Some(ContextOrderByField::CreateTime)
        } else if crate::text::str_eq(s, "mtime") {
            Option::Some(ContextOrderByField::UpdateTime)
        } else {
            Option::None
        }
    }
}

/// A context type reduced to its id, name and property names.
#[derive(Debug)]
pub struct ContextTypeSummary {
    pub id: i32,
    pub name: String,
    pub properties: Vec<String>,
}

/// A context type with its full property-type map.
#[derive(Debug)]
pub struct ContextTypeDetail {
    pub id: i32,
    pub name: String,
    pub properties: Vec<(String, PropertyType)>,
}

impl ContextTypeSummary {
    /// Reduces a type record to its summary.
    pub fn from_record(ty: &TypeRecord) -> (r: Self)
        ensures
            r.id == ty.id,
            r.name@ == ty@.name,
            r.properties@.map_values(|s: String| s@) == crate::artifact::prop_names(ty@.properties),
    {
        let s = crate::artifact::ArtifactTypeSummary::from_record(ty);
        ContextTypeSummary { id: s.id, name: s.name, properties: s.properties }
    }
}

impl ContextTypeDetail {
    /// Keeps the full property-type map of a type record.
    pub fn from_record(ty: &TypeRecord) -> (r: Self)
        ensures
            r.id == ty.id,
            r.name@ == ty@.name,
            prop_types_view(r.properties@) == ty@.properties,
    {
        ContextTypeDetail {
            id: ty.id,
            name: ty.name.clone(),
            properties: clone_prop_types(&ty.properties),
        }
    }
}

/// A display-ready context: the store record combined with its type name.
/// Times are milliseconds since the Unix epoch.
#[derive(Debug)]
pub struct Context {
    pub id: i32,
    pub name: String,
    pub type_label: String,
    pub ctime: u64,
    pub mtime: u64,
    pub properties: Vec<(String, PropertyValue)>,
    pub custom_properties: Vec<(String, PropertyValue)>,
    pub summary: Option<String>,
}

/// The mathematical value of a [`Context`].
pub ghost struct ContextV {
    pub id: int,
    pub name: Seq<char>,
    pub type_label: Seq<char>,
    pub ctime: int,
    pub mtime: int,
    pub properties: Seq<(Seq<char>, PropertyValueV)>,
    pub custom_properties: Seq<(Seq<char>, PropertyValueV)>,
    pub summary: Option<Seq<char>>,
}

impl View for Context {
    type V = ContextV;

    open spec fn view(&self) -> ContextV {
        ContextV {
            id: self.id as int,
            name: self.name@,
            type_label: self.type_label@,
            ctime: self.ctime as int,
            mtime: self.mtime as int,
            properties: props_view(self.properties@),
            custom_properties: props_view(self.custom_properties@),
            summary: opt_string_view(self.summary),
        }
    }
}

/// A context named on the command line: either a bare numeric id, or a
/// context name qualified by its type name.
#[derive(Debug)]
pub enum ContextIdOrName {
    Id(i32),
    Name { context_name: String, type_label: String },
}

impl Clone for ContextIdOrName {
    fn clone(&self) -> (r: Self)
        ensures
            match (self, &r) {
                (ContextIdOrName::Id(a), ContextIdOrName::Id(b)) => a == b,
                (
                    ContextIdOrName::Name { context_name: an, type_label: at },
                    ContextIdOrName::Name { context_name: bn, type_label: bt },
                ) => an@ == bn@ && at@ == bt@,
                _ => false,
            },
    {
        match self {
            ContextIdOrName::Id(x) => ContextIdOrName::Id(*x),
            ContextIdOrName::Name { context_name, type_label } => ContextIdOrName::Name {
                context_name: context_name.clone(),
                type_label: type_label.clone(),
            },
        }
    }
}

} // verus!
