//! Property maps attached to artifacts, executions and contexts, and the
//! small helpers shared by the entity models.

use vstd::prelude::*;

verus! {

/// The declared type of a property in an artifact/execution/context type.
#[derive(Debug, Clone, Copy, PartialEq, Eq, Structural, Hash)]
pub enum PropertyType {
    Int,
    Double,
    String,
}

/// A property value read from the metadata store.
///
/// The store's floating-point values are carried opaquely as their IEEE-754
/// bit pattern; the library never interprets them, it only moves them along.
#[derive(Debug)]
pub enum PropertyValue {
    Int(i32),
    Double(u64),
    String(String),
}

/// The mathematical value of a [`PropertyValue`].
pub ghost enum PropertyValueV {
    Int(int),
    Double(int),
    String(Seq<char>),
}

impl View for PropertyValue {
    type V = PropertyValueV;

    open spec fn view(&self) -> PropertyValueV {
        match self {
            PropertyValue::Int(x) => PropertyValueV::Int(*x as int),
            PropertyValue::Double(bits) => PropertyValueV::Double(*bits as int),
            PropertyValue::String(s) => PropertyValueV::String(s@),
        }
    }
}

impl Clone for PropertyValue {
    fn clone(&self) -> (r: Self)
        ensures
            r@ == self@,
    {
        match self {
            PropertyValue::Int(x) => PropertyValue::Int(*x),
            PropertyValue::Double(bits) => PropertyValue::Double(*bits),
            PropertyValue::String(s) => PropertyValue::String(s.clone()),
        }
    }
}

/// The mathematical value of a name-to-value property map.
pub open spec fn props_view(ps: Seq<(String, PropertyValue)>) -> Seq<(Seq<char>, PropertyValueV)> {
    ps.map_values(|p: (String, PropertyValue)| (p.0@, p.1@))
}

/// The mathematical value of a name-to-type property map.
pub open spec fn prop_types_view(ps: Seq<(String, PropertyType)>) -> Seq<(Seq<char>, PropertyType)> {
    ps.map_values(|p: (String, PropertyType)| (p.0@, p.1))
}

/// Copies a property map, preserving its value.
pub fn clone_props(ps: &Vec<(String, PropertyValue)>) -> (r: Vec<(String, PropertyValue)>)
    ensures
        props_view(r@) == props_view(ps@),
{
    let mut r: Vec<(String, PropertyValue)> = Vec::new();
    let mut i: usize = 0;
    while i < ps.len()
        invariant
            i <= ps@.len(),
            props_view(r@) =~= props_view(ps@.take(i as int)),
        decreases ps@.len() - i,
    {
        let (k, v) = &ps[i];
        r.push((k.clone(), v.clone()));
        proof {
            assert(props_view(ps@.take(i + 1)) =~= props_view(ps@.take(i as int)).push(
                (ps@[i as int].0@, ps@[i as int].1@),
            ));
            assert(props_view(r@) =~= props_view(ps@.take(i + 1)));
        }
        i = i + 1;
    }
    proof {
        assert(ps@.take(ps@.len() as int) =~= ps@);
    }
    r
}

/// Copies a property-type map, preserving its value.
pub fn clone_prop_types(ps: &Vec<(String, PropertyType)>) -> (r: Vec<(String, PropertyType)>)
    ensures
        prop_types_view(r@) == prop_types_view(ps@),
{
    let mut r: Vec<(String, PropertyType)> = Vec::new();
    let mut i: usize = 0;
    while i < ps.len()
        invariant
            i <= ps@.len(),
            prop_types_view(r@) =~= prop_types_view(ps@.take(i as int)),
        decreases ps@.len() - i,
    {
        let (k, v) = &ps[i];
        r.push((k.clone(), *v));
        proof {
            assert(prop_types_view(ps@.take(i + 1)) =~= prop_types_view(ps@.take(i as int)).push(
                (ps@[i as int].0@, ps@[i as int].1),
            ));
            assert(prop_types_view(r@) =~= prop_types_view(ps@.take(i + 1)));
        }
        i = i + 1;
    }
    proof {
        assert(ps@.take(ps@.len() as int) =~= ps@);
    }
    r
}

/// An artifact, execution or context type as the metadata store records it:
/// an id, a name, and the declared property types.
#[derive(Debug)]
pub struct TypeRecord {
    pub id: i32,
    pub name: String,
    pub properties: Vec<(String, PropertyType)>,
}

/// The mathematical value of a [`TypeRecord`].
pub ghost struct TypeRecordV {
    pub id: int,
    pub name: Seq<char>,
    pub properties: Seq<(Seq<char>, PropertyType)>,
}

impl View for TypeRecord {
    type V = TypeRecordV;

    open spec fn view(&self) -> TypeRecordV {
        TypeRecordV {
            id: self.id as int,
            name: self.name@,
            properties: prop_types_view(self.properties@),
        }
    }
}

/// The mathematical value of an optional string.
pub open spec fn opt_string_view(o: Option<String>) -> Option<Seq<char>> {
    match o {
        Option::None => Option::None,
        Option::Some(s) => Option::Some(s@),
    }
}

/// Copies an optional string, preserving its value.
pub fn clone_opt_string(o: &Option<String>) -> (r: Option<String>)
    ensures
        opt_string_view(r) == opt_string_view(*o),
{
    match o {
        Option::None => Option::None,
        Option::Some(s) => Option::Some(s.clone()),
    }
}

} // verus!
