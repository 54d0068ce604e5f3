//! The records of the registry's answers. They carry data and no behaviour.

use std::collections::HashMap;
use vstd::prelude::*;

verus! {

/// A badge that a package declares, one variant per provider.
#[derive(Debug, Clone, PartialEq, Eq)]
pub enum Badge {
    Appveyor {
        id: Option<String>,
        service: Option<String>,
        repository: String,
        project_name: Option<String>,
        branch: Option<String>,
    },
    TravisCi { branch: Option<String>, repository: String },
}

/// A category that a package is filed under.
#[derive(Debug, Clone, PartialEq, Eq)]
pub struct Category {
    pub id: String,
    pub category: String,
    pub slug: String,
    pub description: String,
    pub created_at: String,
    pub crates_cnt: u64,
}

/// The registry's record of one package.
#[derive(Debug, Clone, PartialEq, Eq)]
pub struct Crate {
    pub id: String,
    pub name: String,
    pub updated_at: String,
    pub versions: Vec<u64>,
    pub keywords: Vec<String>,
    pub categories: Vec<String>,
    pub badges: Vec<Badge>,
    pub created_at: String,
    pub downloads: u64,
    pub recent_downloads: u64,
    pub max_version: String,
    pub description: String,
    pub homepage: Option<String>,
    pub documentation: String,
    pub repository: Option<String>,
    pub links: Links,
    pub exact_match: bool,
}

/// A keyword that a package is tagged with.
#[derive(Debug, Clone, PartialEq, Eq)]
pub struct Keyword {
    pub id: String,
    pub keyword: String,
    pub created_at: String,
    pub crates_cnt: u64,
}

/// Where more about a package can be fetched.
#[derive(Debug, Clone, PartialEq, Eq)]
pub struct Links {
    pub version_downloads: String,
    pub versions: Option<String>,
    pub owners: String,
    pub owner_team: String,
    pub owner_user: String,
    pub reverse_dependencies: String,
}

/// Where more about one version can be fetched.
#[derive(Debug, Clone, PartialEq, Eq)]
pub struct VersionLink {
    pub dependencies: String,
    pub version_downloads: String,
    pub authors: String,
}

/// A package together with its versions, keywords and categories: the
/// registry's whole answer for a package that exists.
#[derive(Debug, Clone, PartialEq, Eq)]
pub struct FullCrateDetails {
    pub crate_: Crate,
    pub versions: Vec<Version>,
    pub keywords: Vec<Keyword>,
    pub categories: Vec<Category>,
}

/// One published version of a package. `yanked` is set on a version that
/// was withdrawn; `features` maps a feature's name to what it switches on.
#[derive(Debug, Clone, PartialEq, Eq)]
pub struct Version {
    pub id: u64,
    pub crate_: String,
    pub num: String,
    pub dl_path: String,
    pub readme_path: String,
    pub updated_at: String,
    pub created_at: String,
    pub downloads: u64,
    pub features: HashMap<String, Vec<String>>,
    pub yanked: bool,
    pub license: String,
    pub links: VersionLink,
    pub crate_size: Option<u64>,
}

} // verus!
