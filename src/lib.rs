//! Layered test-runner configuration: profiles merged from the built-in defaults, tool sources
//! and the workspace source; test-group namespacing; the override cascade; per-test settings.

pub mod cascade;
pub mod config;
pub mod defaults;
pub mod errors;
pub mod group;
pub mod laws;
pub mod overrides;
pub mod profile;
pub mod settings;

pub use cascade::{
    unknown_reserved_profiles, ConfigSource, GroupDecl, SourceConfig, ToolSource, UnknownKeys,
};
pub use config::{NextestConfig, NextestJunitConfig, NextestProfile, SettingSource, SettingSources};
pub use defaults::{default_config_source, empty_source};
pub use errors::{ConfigParseError, ConfigParseErrorKind, ProfileNotFound, UnknownTestGroupError};
pub use overrides::{
    BuildPlatforms, CompiledOverride, DeserializedOverride, FinalConfig, PreBuildPlatform,
};
pub use profile::{CustomProfile, DefaultProfile, JunitSettings, MissingField, NamedProfile};
pub use settings::{
    num_cpus_or_one, BuildPlatform, FinalStatusLevel, OverrideData, RetryPolicy, SlowTimeout, StatusLevel,
    TestGroup, TestGroupConfig, TestOutputDisplay, TestSettings, TestThreads, ThreadsRequired,
};
