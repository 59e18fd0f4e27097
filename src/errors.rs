use vstd::prelude::*;

use crate::profile::MissingField;
use crate::settings::TestGroup;

verus! {

/// An override that names a test group that no source declared.
#[derive(Debug)]
pub struct UnknownTestGroupError {
    pub profile_name: String,
    pub name: TestGroup,
}

/// What went wrong in a configuration source.
#[derive(Debug)]
pub enum ConfigParseErrorKind {
    /// The workspace source declared tool-namespaced groups.
    InvalidTestGroupsDefined(Vec<String>),
    /// A tool source declared groups outside its own namespace.
    InvalidTestGroupsDefinedByTool(Vec<String>),
    /// Overrides gave platform predicates that cannot be read; each is listed.
    InvalidPlatformSpecs(Vec<String>),
    /// Overrides named groups that were not declared; every such override is listed.
    UnknownTestGroups { errors: Vec<UnknownTestGroupError>, known_groups: Vec<TestGroup> },
    /// No source gave the store directory.
    MissingStoreDir,
    /// No source gave the default profile.
    MissingDefaultProfile,
    /// The default profile lacks a mandatory field.
    IncompleteDefaultProfile(MissingField),
}

/// An error in one configuration source, with the file and the tool it came from.
#[derive(Debug)]
pub struct ConfigParseError {
    pub config_file: String,
    pub tool: Option<String>,
    pub kind: ConfigParseErrorKind,
}

impl ConfigParseError {
    /// Returns the file the error was found in.
    pub fn config_file(&self) -> (r: &str)
        ensures
            r@ == self.config_file@,
    {
        self.config_file.as_str()
    }

    /// Returns the tool that supplied the file, if any.
    pub fn tool(&self) -> (r: &Option<String>)
        ensures
            *r == self.tool,
    {
        &self.tool
    }

    /// Returns what went wrong.
    pub fn kind(&self) -> (r: &ConfigParseErrorKind)
        ensures
            *r == self.kind,
    {
        &self.kind
    }
}

/// A profile was asked for that no source defines.
#[derive(Debug)]
pub struct ProfileNotFound {
    pub profile: String,
    pub all_profiles: Vec<String>,
}

} // verus!
