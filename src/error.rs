//! Errors in an application's settings, found when its fetcher or
//! installer is built.

use vstd::prelude::*;

verus! {

#[derive(Debug, Clone, PartialEq, Eq)]
pub enum ConfigError {
    /// The installer kind tag names no known installer.
    UnknownInstaller(String),
    /// The fetcher kind tag names no known fetcher.
    UnknownFetcher(String),
    /// A GitHub fetcher without a repository.
    MissingRepo,
    /// A repository not written as `owner/name`.
    MalformedRepo(String),
    /// An asset pattern that is not a valid glob.
    InvalidPattern(String),
}

impl ConfigError {
    /// A one-line description of the error.
    pub fn message(&self) -> (r: String)
        ensures
            match self {
                ConfigError::UnknownInstaller(k) => r@ == "Unknown installer type: "@ + k@,
                ConfigError::UnknownFetcher(k) => r@ == "Unknown fetcher type: "@ + k@,
                ConfigError::MissingRepo => r@ == "GitHub fetcher requires `repo` field"@,
                ConfigError::MalformedRepo(m) => r@ == "GitHub repo must be in form `owner/repo`: "@
                    + m@,
                ConfigError::InvalidPattern(p) => r@ == "Invalid glob pattern: "@ + p@,
            },
    {
        match self {
            ConfigError::UnknownInstaller(k) => {
                let mut m = String::from_str("Unknown installer type: ");
                m.append(k.as_str());
                m
            },
            ConfigError::UnknownFetcher(k) => {
                let mut m = String::from_str("Unknown fetcher type: ");
                m.append(k.as_str());
                m
            },
            ConfigError::MissingRepo => String::from_str("GitHub fetcher requires `repo` field"),
            ConfigError::MalformedRepo(r) => {
                let mut m = String::from_str("GitHub repo must be in form `owner/repo`: ");
                m.append(r.as_str());
                m
            },
            ConfigError::InvalidPattern(p) => {
                let mut m = String::from_str("Invalid glob pattern: ");
                m.append(p.as_str());
                m
            },
        }
    }
}

} // verus!
