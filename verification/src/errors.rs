//! The error taxonomy of plugin resolution.

use vstd::prelude::*;
use vstd::string::StringExecFns;

verus! {

/// Why a resolution operation failed.
#[derive(Debug, Clone)]
pub enum PluginError {
    /// The reference's locator yields no execution kind; never retried.
    UnresolvableKind {
        /// The locator that could not be classified.
        locator: String,
    },
    /// The cache could not produce an entry, even after one forget.
    CacheLookup {
        /// The locator of the reference whose lookup failed.
        locator: String,
    },
    /// A cached artifact stayed missing on disk after one forget.
    StaleArtifact {
        /// The path the artifact was expected at.
        path: String,
    },
    /// An artifact's text carries no valid metadata header.
    InvalidArtifact {
        /// The locator or path the artifact came from.
        origin: String,
    },
}

impl PluginError {
    /// A single actionable message naming the offending reference.
    pub fn message(&self) -> (r: String)
        ensures
            (self matches PluginError::UnresolvableKind { locator } ==> r@
                == "Could not resolve plugin type from url or file path: "@ + locator@),
            (self matches PluginError::CacheLookup { locator } ==> r@
                == "Could not get plugin from cache: "@ + locator@),
            (self matches PluginError::StaleArtifact { path } ==> r@
                == "Could not find plugin file: "@ + path@),
            (self matches PluginError::InvalidArtifact { origin } ==> r@
                == "Invalid plugin artifact: "@ + origin@),
    {
        match self {
            PluginError::UnresolvableKind { locator } => {
                let mut m = String::from_str("Could not resolve plugin type from url or file path: ");
                m.append(locator.as_str());
                m
            }
            PluginError::CacheLookup { locator } => {
                let mut m = String::from_str("Could not get plugin from cache: ");
                m.append(locator.as_str());
                m
            }
            PluginError::StaleArtifact { path } => {
                let mut m = String::from_str("Could not find plugin file: ");
                m.append(path.as_str());
                m
            }
            PluginError::InvalidArtifact { origin } => {
                let mut m = String::from_str("Invalid plugin artifact: ");
                m.append(origin.as_str());
                m
            }
        }
    }
}

} // verus!
