//! A typed model of the crates.io package-metadata API: the records the
//! registry answers with, the rule that turns an answer into a three-way
//! outcome (found, absent, failed), and the choice of a package's latest
//! version that has not been yanked.

pub mod error;
pub mod resolver;
pub mod schema;
pub mod selector;

pub use error::{ErrorDetail, GetCrateError, GetCrateErrorResponse, TransportError};
pub use resolver::{crate_url, get_crate, resolve_envelope, GetCrateApiResponse};
pub use schema::{Badge, Category, Crate, FullCrateDetails, Keyword, Links, Version, VersionLink};
pub use selector::{first_unyanked_index, get_latest_version_of_crate, latest_version};
