//! The Debian package installer: its settings, the reading of the package
//! database's status report, and the update-check decision.

use crate::config::{effective_package_name, is_pinned, ApplicationConfig, InstallerConfig};
use crate::error::ConfigError;
use crate::text::same_text;
use crate::types::UpdateCheck;
use vstd::prelude::*;

verus! {

/// Characters with the Unicode `White_Space` property, those for which
/// `char::is_whitespace` holds.
pub open spec fn white_space(c: char) -> bool {
    ('\u{9}' <= c && c <= '\u{d}') || c == ' ' || c == '\u{85}' || c == '\u{a0}' || c
        == '\u{1680}' || ('\u{2000}' <= c && c <= '\u{200a}') || c == '\u{2028}' || c
        == '\u{2029}' || c == '\u{202f}' || c == '\u{205f}' || c == '\u{3000}'
}

fn is_white_space(c: char) -> (r: bool)
    ensures
        r == white_space(c),
{
    ('\u{9}' <= c && c <= '\u{d}') || c == ' ' || c == '\u{85}' || c == '\u{a0}' || c
        == '\u{1680}' || ('\u{2000}' <= c && c <= '\u{200a}') || c == '\u{2028}' || c
        == '\u{2029}' || c == '\u{202f}' || c == '\u{205f}' || c == '\u{3000}'
}

/// Index of the first character at or after `i` that is not white space.
pub open spec fn skip_white(s: Seq<char>, i: int, end: int) -> int
    decreases end - i,
{
    if i < end && white_space(s[i]) {
        skip_white(s, i + 1, end)
    } else {
        i
    }
}

/// End of `s[start..j]` once trailing white space is removed.
pub open spec fn drop_white(s: Seq<char>, start: int, j: int) -> int
    decreases j - start,
{
    if start < j && white_space(s[j - 1]) {
        drop_white(s, start, j - 1)
    } else {
        j
    }
}

/// `s[from..to]` without leading and trailing white space.
pub open spec fn trimmed(s: Seq<char>, from: int, to: int) -> Seq<char> {
    let a = skip_white(s, from, to);
    s.subrange(a, drop_white(s, a, to))
}

/// Index of the first line feed at or after `i`, or the end of `s`.
pub open spec fn line_end(s: Seq<char>, i: int) -> int
    decreases s.len() - i,
{
    if i < 0 || i >= s.len() {
        s.len() as int
    } else if s[i] == '\n' {
        i
    } else {
        line_end(s, i + 1)
    }
}

pub open spec fn version_key() -> Seq<char> {
    seq!['V', 'e', 'r', 's', 'i', 'o', 'n', ':']
}

/// A line of `s` starts at `p` and begins with `Version:`.
pub open spec fn is_version_line(s: Seq<char>, p: int) -> bool {
    &&& 0 <= p
    &&& p == 0 || s[p - 1] == '\n'
    &&& p + 8 <= s.len()
    &&& s.subrange(p, p + 8) == version_key()
}

/// The installed version that a package status report gives: what follows
/// `Version:` on the first line that begins with it, trimmed.
pub open spec fn status_version(s: Seq<char>) -> Option<Seq<char>> {
    if exists|p: int| is_version_line(s, p) {
        let p = choose|p: int|
            is_version_line(s, p) && forall|q: int| 0 <= q < p ==> !is_version_line(s, q);
        Some(trimmed(s, p + 8, line_end(s, p + 8)))
    } else {
        None
    }
}

fn at_version_line(s: &str, n: usize, p: usize) -> (r: bool)
    requires
        n == s@.len(),
        p <= n,
    ensures
        r == is_version_line(s@, p as int),
{
    if n - p < 8 {
        return false;
    }
    if p > 0 && s.get_char(p - 1) != '\n' {
        return false;
    }
    let r = s.get_char(p) == 'V' && s.get_char(p + 1) == 'e' && s.get_char(p + 2) == 'r'
        && s.get_char(p + 3) == 's' && s.get_char(p + 4) == 'i' && s.get_char(p + 5) == 'o'
        && s.get_char(p + 6) == 'n' && s.get_char(p + 7) == ':';
    proof {
        let sub = s@.subrange(p as int, p + 8);
        if r {
            assert(sub =~= version_key());
        } else {
            assert(sub != version_key()) by {
                if sub == version_key() {
                    assert(sub[0] == 'V' && sub[1] == 'e' && sub[2] == 'r' && sub[3] == 's');
                    assert(sub[4] == 'i' && sub[5] == 'o' && sub[6] == 'n' && sub[7] == ':');
                }
            }
        }
    }
    r
}

fn find_line_end(s: &str, n: usize, i: usize) -> (r: usize)
    requires
        n == s@.len(),
        i <= n,
    ensures
        r as int == line_end(s@, i as int),
        i <= r <= n,
{
    let mut j: usize = i;
    while j < n
        invariant
            n == s@.len(),
            i <= j <= n,
            line_end(s@, j as int) == line_end(s@, i as int),
        decreases n - j,
    {
        if s.get_char(j) == '\n' {
            return j;
        }
        j = j + 1;
    }
    j
}

/// The bounds of `s[from..to]` without its leading and trailing white space.
fn trim_bounds(s: &str, from: usize, to: usize) -> (r: (usize, usize))
    requires
        from <= to <= s@.len(),
    ensures
        r.0 as int == skip_white(s@, from as int, to as int),
        r.1 as int == drop_white(s@, r.0 as int, to as int),
        from <= r.0 <= r.1 <= to,
{
    let mut a: usize = from;
    let mut stop = false;
    while a < to && !stop
        invariant
            from <= a <= to <= s@.len(),
            skip_white(s@, a as int, to as int) == skip_white(s@, from as int, to as int),
            stop ==> a < to && !white_space(s@[a as int]),
        decreases to - a + if stop { 0int } else { 1int },
    {
        if is_white_space(s.get_char(a)) {
            a = a + 1;
        } else {
            stop = true;
        }
    }
    let mut b: usize = to;
    stop = false;
    while a < b && !stop
        invariant
            from <= a <= b <= to <= s@.len(),
            a as int == skip_white(s@, from as int, to as int),
            drop_white(s@, a as int, b as int) == drop_white(s@, a as int, to as int),
            stop ==> a < b && !white_space(s@[b - 1]),
        decreases b - a + if stop { 0int } else { 1int },
    {
        if is_white_space(s.get_char(b - 1)) {
            b = b - 1;
        } else {
            stop = true;
        }
    }
    (a, b)
}

/// Reads the installed version out of a package status report: the rest of
/// the first line that begins with `Version:`, trimmed; `None` when no line
/// does.
pub fn parse_status_version(report: &str) -> (r: Option<String>)
    ensures
        match r {
            Some(v) => status_version(report@) == Some(v@),
            None => status_version(report@) is None,
        },
{
    let n = report.unicode_len();
    let mut p: usize = 0;
    while p < n
        invariant
            n == report@.len(),
            p <= n,
            forall|q: int| 0 <= q < p ==> !is_version_line(report@, q),
        decreases n - p,
    {
        if at_version_line(report, n, p) {
            let e = find_line_end(report, n, p + 8);
            let (a, b) = trim_bounds(report, p + 8, e);
            let v = String::from_str(report.substring_char(a, b));
            proof {
                let s = report@;
                assert(is_version_line(s, p as int) && forall|q: int|
                    0 <= q < p ==> !is_version_line(s, q));
                let c = choose|c: int|
                    is_version_line(s, c) && forall|q: int| 0 <= q < c ==> !is_version_line(s, q);
                if c < p {
                } else if c > p {
                    assert(!is_version_line(s, p as int));
                }
                assert(c == p);
            }
            return Some(v);
        }
        p = p + 1;
    }
    assert(forall|q: int| !is_version_line(report@, q)) by {
        assert forall|q: int| !is_version_line(report@, q) by {
            if 0 <= q < p {
            }
        }
    }
    None
}

/// The kind tag of the Debian package installer.
pub open spec fn deb_kind() -> Seq<char> {
    seq!['d', 'e', 'b']
}

/// The version assumed for a package that is not installed.
pub open spec fn not_installed_version() -> Seq<char> {
    seq!['0', '.', '0', '.', '0']
}

/// What the package database said when asked about a package.
#[derive(Debug, Clone)]
pub enum PackageQuery {
    /// The query tool is not on the search path.
    ToolMissing,
    /// The query failed: the package is not installed.
    Failed,
    /// The query succeeded with this status report.
    Report(String),
}

/// The installed version that a query outcome gives, if any.
pub open spec fn queried_version(q: PackageQuery) -> Option<Seq<char>> {
    match q {
        PackageQuery::Report(s) => status_version(s@),
        _ => None,
    }
}

/// Installer for Debian (`.deb`) packages.
#[derive(Debug, Clone)]
pub struct DebInstaller {
    /// The package whose installed version is queried.
    pub package_name: String,
    /// A pinned package is never checked for updates.
    pub pinned: bool,
}

impl DebInstaller {
    /// Builds the installer of an application: the package is the
    /// application's override or else its name; unset `pinned` means false.
    pub fn new(app: &ApplicationConfig) -> (r: Result<DebInstaller, ConfigError>)
        ensures
            r matches Ok(d) && d.package_name@ == effective_package_name(*app) && d.pinned
                == is_pinned(*app),
    {
        let package_name = match &app.package_name {
            Some(p) => p.clone(),
            None => app.name.clone(),
        };
        let pinned = match app.pinned {
            Some(b) => b,
            None => false,
        };
        Ok(DebInstaller { package_name, pinned })
    }

    /// The installed version that a package query gives: the `Version:`
    /// field of a report, or `None` when the tool is missing, the query
    /// failed or the report names no version.
    pub fn installed_version(query: &PackageQuery) -> (r: Option<String>)
        ensures
            match r {
                Some(v) => queried_version(*query) == Some(v@),
                None => queried_version(*query) is None,
            },
    {
        match query {
            PackageQuery::Report(s) => parse_status_version(s.as_str()),
            _ => None,
        }
    }

    /// The update-check decision: a pinned package is skipped; otherwise the
    /// check runs against the installed version, or `0.0.0` when none is
    /// known, so that any real release is newer.
    pub fn should_check_for_update(&self, installed: Option<String>) -> (r: UpdateCheck)
        ensures
            self.pinned ==> r is No,
            !self.pinned ==> (r matches UpdateCheck::Yes(v) && v@ == match installed {
                Some(i) => i@,
                None => not_installed_version(),
            }),
    {
        if self.pinned {
            return UpdateCheck::No;
        }
        match installed {
            Some(v) => UpdateCheck::Yes(v),
            None => {
                proof {
                    reveal_strlit("0.0.0");
                }
                let v = String::from_str("0.0.0");
                assert(v@ =~= not_installed_version());
                UpdateCheck::Yes(v)
            },
        }
    }
}

/// How the install command gets root privileges.
#[derive(Debug, Clone, Copy, PartialEq, Eq, Structural)]
pub enum Elevation {
    /// Already root: run the command as it is.
    Direct,
    /// Run the command through `sudo`.
    Sudo,
}

/// Why root privileges cannot be had.
#[derive(Debug, Clone, Copy, PartialEq, Eq, Structural)]
pub enum ElevationError {
    /// Not root, and `sudo` is not on the search path.
    NoSudo,
    /// Not root, and no terminal is attached for the password prompt.
    NoTerminal,
}

impl ElevationError {
    /// A one-line description of the error.
    pub fn message(&self) -> (r: String)
        ensures
            match self {
                ElevationError::NoSudo => r@
                    == "Not running as root and sudo is not available in PATH"@,
                ElevationError::NoTerminal => r@
                    == "Not running as root and no terminal available for sudo password prompt"@,
            },
    {
        match self {
            ElevationError::NoSudo => String::from_str(
                "Not running as root and sudo is not available in PATH",
            ),
            ElevationError::NoTerminal => String::from_str(
                "Not running as root and no terminal available for sudo password prompt",
            ),
        }
    }
}

/// The privilege policy: root runs the command directly; otherwise `sudo`
/// is used if it is on the search path and a terminal can show its prompt;
/// otherwise the install fails at once rather than wait on a prompt that
/// cannot be shown.
pub fn choose_elevation(is_root: bool, sudo_on_path: bool, terminal_attached: bool) -> (r: Result<
    Elevation,
    ElevationError,
>)
    ensures
        is_root ==> r == Ok::<Elevation, ElevationError>(Elevation::Direct),
        !is_root && !sudo_on_path ==> r == Err::<Elevation, ElevationError>(ElevationError::NoSudo),
        !is_root && sudo_on_path && !terminal_attached ==> r == Err::<Elevation, ElevationError>(
            ElevationError::NoTerminal,
        ),
        !is_root && sudo_on_path && terminal_attached ==> r == Ok::<Elevation, ElevationError>(
            Elevation::Sudo,
        ),
{
    if is_root {
        Ok(Elevation::Direct)
    } else if !sudo_on_path {
        Err(ElevationError::NoSudo)
    } else if !terminal_attached {
        Err(ElevationError::NoTerminal)
    } else {
        Ok(Elevation::Sudo)
    }
}

pub open spec fn dpkg_install_args(path: Seq<char>) -> Seq<Seq<char>> {
    seq![seq!['d', 'p', 'k', 'g'], seq!['-', 'i'], path]
}

/// The command line that installs the package file at `path`.
pub fn install_command(path: &str, how: Elevation) -> (r: Vec<String>)
    ensures
        how == Elevation::Direct ==> r@.map_values(|a: String| a@) == dpkg_install_args(path@),
        how == Elevation::Sudo ==> r@.map_values(|a: String| a@) == seq![
            seq!['s', 'u', 'd', 'o'],
        ] + dpkg_install_args(path@),
{
    proof {
        reveal_strlit("sudo");
        reveal_strlit("dpkg");
        reveal_strlit("-i");
    }
    let mut args: Vec<String> = Vec::new();
    if how == Elevation::Sudo {
        args.push(String::from_str("sudo"));
    }
    args.push(String::from_str("dpkg"));
    args.push(String::from_str("-i"));
    args.push(String::from_str(path));
    let ghost v = args@.map_values(|a: String| a@);
    if how == Elevation::Sudo {
        assert(v =~~= seq![seq!['s', 'u', 'd', 'o']] + dpkg_install_args(path@));
    } else {
        assert(v =~~= dpkg_install_args(path@));
    }
    args
}

/// The installers that a setting can name, told apart by the kind tag.
#[derive(Debug, Clone)]
pub enum Installer {
    Deb(DebInstaller),
}

impl Installer {
    /// Whether the application is excluded from update checks.
    pub open spec fn pinned(&self) -> bool {
        match self {
            Installer::Deb(d) => d.pinned,
        }
    }

    /// The package whose installed version is asked for.
    pub open spec fn package(&self) -> Seq<char> {
        match self {
            Installer::Deb(d) => d.package_name@,
        }
    }

    pub fn should_skip(&self) -> (r: bool)
        ensures
            r == self.pinned(),
    {
        match self {
            Installer::Deb(d) => d.pinned,
        }
    }

    pub fn package_name(&self) -> (r: String)
        ensures
            r@ == self.package(),
    {
        match self {
            Installer::Deb(d) => d.package_name.clone(),
        }
    }

    /// The installed version that a package query gives, if any.
    pub fn installed_version(&self, query: &PackageQuery) -> (r: Option<String>)
        ensures
            match r {
                Some(v) => queried_version(*query) == Some(v@),
                None => queried_version(*query) is None,
            },
    {
        match self {
            Installer::Deb(_) => DebInstaller::installed_version(query),
        }
    }

    /// The update-check decision; see `DebInstaller::should_check_for_update`.
    pub fn should_check_for_update(&self, installed: Option<String>) -> (r: UpdateCheck)
        ensures
            self.pinned() ==> r is No,
            !self.pinned() ==> (r matches UpdateCheck::Yes(v) && v@ == match installed {
                Some(i) => i@,
                None => not_installed_version(),
            }),
    {
        match self {
            Installer::Deb(d) => d.should_check_for_update(installed),
        }
    }
}

/// Builds the installer that an installer setting names; only `deb` is known.
pub fn create_installer(config: &InstallerConfig, app: &ApplicationConfig) -> (r: Result<
    Installer,
    ConfigError,
>)
    ensures
        config.kind@ == deb_kind() ==> (r matches Ok(i) && i is Deb && i.package()
            == effective_package_name(*app) && i.pinned() == is_pinned(*app)),
        config.kind@ != deb_kind() ==> (r matches Err(ConfigError::UnknownInstaller(k)) && k@
            == config.kind@),
{
    proof {
        reveal_strlit("deb");
    }
    assert("deb"@ =~= deb_kind());
    if same_text(config.kind.as_str(), "deb") {
        match DebInstaller::new(app) {
            Ok(d) => Ok(Installer::Deb(d)),
            Err(e) => Err(e),
        }
    } else {
        Err(ConfigError::UnknownInstaller(config.kind.clone()))
    }
}

} // verus!
