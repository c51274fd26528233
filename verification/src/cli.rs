//! The command-line surface: the option records the front-end fills in.
//! Parsing the command line and talking to the store happen outside the
//! library; these records carry the parsed values.

use vstd::prelude::*;

use crate::artifact::ArtifactOrderByField;
use crate::context::ContextIdOrName;

verus! {

/// Where the metadata store lives.
#[derive(Debug)]
pub struct MetadataStoreOpt {
    pub database: String,
}

/// The `get` subcommands.
#[derive(Debug)]
pub enum GetOpt {
    ArtifactTypes(GetArtifactTypesOpt),
    Artifacts(GetArtifactsOpt),
}

/// Options of `get artifact-types`.
#[derive(Debug)]
pub struct GetArtifactTypesOpt {
    pub store: MetadataStoreOpt,
}

/// Options of `get artifacts`.
#[derive(Debug)]
pub struct GetArtifactsOpt {
    pub store: MetadataStoreOpt,
    pub type_label: Option<String>,
    pub context: Option<ContextIdOrName>,
    pub limit: usize,
    pub offset: Option<usize>,
    pub order_by: Option<ArtifactOrderByField>,
    pub desc: bool,
}

/// The `show` subcommands.
#[derive(Debug)]
pub enum ShowOpt {
    ArtifactType(ShowArtifactTypeOpt),
}

/// Options of `show artifact-type`.
#[derive(Debug)]
pub struct ShowArtifactTypeOpt {
    pub store: MetadataStoreOpt,
    pub type_label: String,
}

} // verus!
