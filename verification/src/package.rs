//! The description of a package as `brew info --json=v1` gives it.

use crate::version::Version;
use std::collections::HashMap;
use vstd::prelude::*;

verus! {

/// Represents a Homebrew package, which may or may not be installed.
#[derive(Clone, Debug)]
pub struct Package {
    pub name: String,
    pub full_name: String,
    pub aliases: Vec<String>,
    pub oldname: Option<String>,
    pub desc: Option<String>,
    pub homepage: Option<String>,
    pub versions: Versions,
    pub urls: HashMap<String, Url>,
    pub revision: usize,
    pub version_scheme: usize,
    pub bottle: HashMap<String, Bottle>,
    pub keg_only: bool,
    pub bottle_disabled: bool,
    pub options: Vec<BrewOption>,
    pub build_dependencies: Vec<String>,
    pub dependencies: Vec<String>,
    pub recommended_dependencies: Vec<String>,
    pub optional_dependencies: Vec<String>,
    pub uses_from_macos: Vec<MapOrString>,
    pub requirements: Vec<Requirment>,
    pub conflicts_with: Vec<String>,
    pub caveats: Option<String>,
    pub installed: Vec<Installed>,
    pub linked_keg: Option<String>,
    pub pinned: bool,
    pub outdated: bool,
    pub analytics: Option<Analytics>,
}

#[derive(Clone, Debug)]
pub enum MapOrString {
    MapStringString(HashMap<String, String>),
    String(String),
    MapStringVecString(HashMap<String, Vec<String>>),
}

#[derive(Clone, Debug)]
pub enum NumOrString {
    Num(u32),
    String(String),
}

#[derive(Clone, Debug)]
pub struct Requirment {
    pub name: String,
    pub cask: Option<String>,
    pub download: Option<String>,
    pub version: Option<Version>,
    pub contexts: Vec<String>,
}

#[derive(Clone, Debug)]
pub struct BrewOption {
    pub option: String,
    pub description: String,
}

#[derive(Clone, Debug)]
pub struct Analytics {
    pub install: Analytic,
    pub install_on_request: Analytic,
    pub build_error: Analytic,
}

#[derive(Clone, Debug)]
pub struct Analytic {
    pub d30: Option<HashMap<String, usize>>,
    pub d90: Option<HashMap<String, usize>>,
    pub d365: Option<HashMap<String, usize>>,
}

#[derive(Clone, Debug)]
pub struct Versions {
    pub stable: Version,
    pub devel: Option<Version>,
    pub head: Option<String>,
    pub bottle: bool,
}

#[derive(Clone, Debug)]
pub struct Bottle {
    pub rebuild: usize,
    pub cellar: Option<String>,
    pub prefix: Option<String>,
    pub root_url: String,
    pub files: HashMap<String, File>,
}

#[derive(Clone, Debug)]
pub struct File {
    pub url: String,
    pub sha256: String,
}

#[derive(Clone, Debug)]
pub struct Url {
    pub url: String,
    pub tag: Option<String>,
    pub revision: Option<NumOrString>,
}

#[derive(Clone, Debug)]
pub struct Installed {
    pub version: Version,
    pub used_options: Vec<String>,
    pub built_as_bottle: bool,
    pub poured_from_bottle: bool,
    pub runtime_dependencies: Vec<Dependency>,
    pub installed_as_dependency: bool,
    pub installed_on_request: bool,
}

#[derive(Clone, Debug)]
pub struct Dependency {
    pub full_name: String,
    pub version: Version,
}

impl Package {
    /// Check if a package is installed.
    pub fn is_installed(&self) -> (installed: bool)
        ensures
            installed == (self.installed@.len() > 0),
    {
        self.installed.len() > 0
    }

    /// The package options that the package was installed with.
    pub fn install_options(&self) -> (used: Option<&[String]>)
        ensures
            used is Some == (self.installed@.len() > 0),
            used matches Some(flags) ==> flags@ == self.installed@[0].used_options@,
    {
        if self.installed.len() > 0 {
            Some(self.installed[0].used_options.as_slice())
        } else {
            None
        }
    }
}

} // verus!
