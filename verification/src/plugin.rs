//! Plugin manifests: metadata, entry points and requested permissions.

use vstd::prelude::*;

use crate::fmt::string_of;

verus! {

/// Where a plugin's workflows and scripts are.
#[derive(Debug, Clone, PartialEq, Eq)]
pub struct PluginEntrypoints {
    /// Path of the init script, relative to the plugin root.
    pub init: Option<String>,
    /// Directory of the workflow files.
    pub workflows_dir: String,
    /// Directory of the scripts.
    pub scripts_dir: String,
}

/// A permission that a plugin can request.
#[derive(Debug, Clone, PartialEq, Eq)]
pub enum Permission {
    /// Access to the given filesystem paths.
    FileSystem { paths: Vec<String> },
    /// Access to the given network hosts.
    Network { hosts: Vec<String> },
    /// Access to the clipboard.
    Clipboard,
    /// Access to system information.
    SystemInfo,
    /// A permission named by a string.
    Custom(String),
}

/// Metadata, capabilities and permissions of a plugin.
#[derive(Debug, Clone, PartialEq, Eq)]
pub struct PluginManifest {
    pub name: String,
    pub version: String,
    pub description: String,
    pub author: String,
    pub entrypoints: PluginEntrypoints,
    pub permissions: Vec<Permission>,
}

/// The workflows directory used when a manifest names none.
pub fn default_workflows_dir() -> (r: String)
    ensures
        r@ == "workflows/"@,
{
    string_of("workflows/")
}

/// The scripts directory used when a manifest names none.
pub fn default_scripts_dir() -> (r: String)
    ensures
        r@ == "scripts/"@,
{
    string_of("scripts/")
}

} // verus!
