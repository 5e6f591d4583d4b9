//! The declarative application list and its entries.

use vstd::prelude::*;

verus! {

/// Top-level configuration: the applications to keep up to date, in order.
#[derive(Debug, Clone)]
pub struct Config {
    pub applications: Vec<ApplicationConfig>,
}

/// One application entry.
#[derive(Debug, Clone)]
pub struct ApplicationConfig {
    /// Logical name of the application; the default package identity.
    pub name: String,
    /// Where releases come from.
    pub fetcher: FetcherConfig,
    /// How releases are applied.
    pub installer: InstallerConfig,
    /// Package name override; when unset the package is named like the application.
    pub package_name: Option<String>,
    /// A pinned application is never checked for updates.
    pub pinned: Option<bool>,
}

/// Fetcher selection and its settings.
#[derive(Debug, Clone)]
pub struct FetcherConfig {
    /// The fetcher kind tag, such as `github`.
    pub kind: String,
    /// Repository as `owner/name`, for the GitHub fetcher.
    pub repo: Option<String>,
    /// Glob pattern selecting the release asset; `*` when unset.
    pub file_pattern: Option<String>,
}

/// Installer selection.
#[derive(Debug, Clone)]
pub struct InstallerConfig {
    /// The installer kind tag, such as `deb`.
    pub kind: String,
}

/// The two shapes in which an installer may be written: a bare kind
/// (`installer: deb`) or an object (`installer: {type: deb}`).
#[derive(Debug, Clone)]
pub enum InstallerConfigShape {
    Shorthand(String),
    Full { kind: String },
}

/// The installer kind that a written shape names.
pub open spec fn shape_kind(shape: InstallerConfigShape) -> Seq<char> {
    match shape {
        InstallerConfigShape::Shorthand(s) => s@,
        InstallerConfigShape::Full { kind } => kind@,
    }
}

/// Brings either written shape to the one canonical installer setting.
pub fn normalize_installer_config(shape: InstallerConfigShape) -> (r: InstallerConfig)
    ensures
        r.kind@ == shape_kind(shape),
{
    match shape {
        InstallerConfigShape::Shorthand(s) => InstallerConfig { kind: s },
        InstallerConfigShape::Full { kind } => InstallerConfig { kind },
    }
}

/// A bare installer kind and the object form with the same kind give the
/// same installer setting.
pub proof fn lemma_installer_shapes_agree(kind: String)
    ensures
        shape_kind(InstallerConfigShape::Shorthand(kind)) == shape_kind(
            InstallerConfigShape::Full { kind },
        ),
{
}

/// The package identity of an application: its override, else its name.
pub open spec fn effective_package_name(app: ApplicationConfig) -> Seq<char> {
    match app.package_name {
        Some(p) => p@,
        None => app.name@,
    }
}

/// Whether an application is pinned (unset means not pinned).
pub open spec fn is_pinned(app: ApplicationConfig) -> bool {
    match app.pinned {
        Some(b) => b,
        None => false,
    }
}

} // verus!
