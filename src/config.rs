use vstd::prelude::*;

use crate::migration::MigrationError;

verus! {

/// The configuration of one library, as the rest of the system sees it once
/// its document is at the current version.
#[derive(Clone, Debug)]
pub struct LibraryConfig {
    /// The display name, set by the user.
    pub name: String,
    /// A description, set by the user.
    pub description: Option<String>,
    /// The library's peer identity, as bytes.
    pub identity: Vec<u8>,
    /// The id of the current node.
    pub node_id: u128,
}

/// A library's configuration without its private identity.
#[derive(Clone, Debug)]
pub struct SanitisedLibraryConfig {
    pub name: String,
    pub description: Option<String>,
    pub node_id: u128,
}

/// A sanitised configuration together with the library's id.
#[derive(Clone, Debug)]
pub struct LibraryConfigWrapped {
    pub uuid: u128,
    pub config: SanitisedLibraryConfig,
}

impl LibraryConfig {
    /// A configuration for a new library, with no description and the given
    /// freshly generated identity.
    pub fn new(name: String, node_id: u128, identity: Vec<u8>) -> (r: LibraryConfig)
        ensures
            r.name@ == name@,
            r.description is None,
            r.identity@ == identity@,
            r.node_id == node_id,
    {
        LibraryConfig { name, description: None, identity, node_id }
    }

    /// A library's configuration cannot be made from nothing: asking for a
    /// default always reports the document at `path` as missing.
    pub fn default(path: String) -> (r: Result<LibraryConfig, MigrationError>)
        ensures
            r == Err::<LibraryConfig, MigrationError>(MigrationError::ConfigFileMissing(path)),
    {
        Err(MigrationError::ConfigFileMissing(path))
    }
}

impl From<LibraryConfig> for SanitisedLibraryConfig {
    fn from(config: LibraryConfig) -> (r: SanitisedLibraryConfig) {
        SanitisedLibraryConfig {
            name: config.name,
            description: config.description,
            node_id: config.node_id,
        }
    }
}

impl vstd::std_specs::convert::FromSpecImpl<LibraryConfig> for SanitisedLibraryConfig {
    open spec fn obeys_from_spec() -> bool {
        true
    }

    open spec fn from_spec(config: LibraryConfig) -> SanitisedLibraryConfig {
        SanitisedLibraryConfig {
            name: config.name,
            description: config.description,
            node_id: config.node_id,
        }
    }
}

} // verus!
