//! The GitHub releases fetcher: its settings, the release query address,
//! and the choice of what to download from a release.

use crate::config::{ApplicationConfig, FetcherConfig};
use crate::error::ConfigError;
use crate::text::{find_char, same_text};
use crate::version::{is_newer, newer, normalize_version, normalized};
use vstd::prelude::*;

verus! {

/// Whether `glob::Pattern::new` accepts a pattern.
pub uninterp spec fn glob_valid(pattern: Seq<char>) -> bool;

/// Whether a compiled glob pattern matches a name with glob's default
/// options (case sensitive, `*` and `?` also match `/` and a leading `.`).
pub uninterp spec fn glob_match(pattern: Seq<char>, name: Seq<char>) -> bool;

#[verifier::external_type_specification]
#[verifier::external_body]
pub struct ExPatternError(glob::PatternError);

/// Relies on `glob::Pattern::new`, whose outcome depends on the pattern text
/// alone; a lone `*` compiles.
#[verifier::external_body]
fn compile_glob(pattern: &str) -> (r: Result<(), glob::PatternError>)
    ensures
        r is Ok == glob_valid(pattern@),
        pattern@ == seq!['*'] ==> r is Ok,
{
    glob::Pattern::new(pattern).map(|_| ())
}

/// Relies on `glob::Pattern::new` and `glob::Pattern::matches`: a valid
/// pattern compiles, matching depends on the pattern and the name alone, and
/// with the default options a lone `*` matches every name.
#[verifier::external_body]
fn glob_matches(pattern: &str, name: &str) -> (r: bool)
    requires
        glob_valid(pattern@),
    ensures
        r == glob_match(pattern@, name@),
        pattern@ == seq!['*'] ==> r,
{
    match glob::Pattern::new(pattern) {
        Ok(p) => p.matches(name),
        Err(_) => false,
    }
}

/// The kind tag of the GitHub releases fetcher.
pub open spec fn github_kind() -> Seq<char> {
    seq!['g', 'i', 't', 'h', 'u', 'b']
}

/// The asset pattern of a fetcher setting; `*` when unset.
pub open spec fn pattern_of(config: FetcherConfig) -> Seq<char> {
    match config.file_pattern {
        Some(p) => p@,
        None => seq!['*'],
    }
}

pub open spec fn has_slash(s: Seq<char>) -> bool {
    exists|i: int| 0 <= i < s.len() && s[i] == '/'
}

/// A repository written as `owner/name`: exactly one `/`, with a non-empty
/// owner before it and a non-empty name after it.
pub open spec fn well_formed_repo(repo: Seq<char>) -> bool {
    exists|i: int|
        0 < i < repo.len() - 1 && repo[i] == '/' && forall|j: int|
            0 <= j < repo.len() && j != i ==> repo[j] != '/'
}

/// `owner` and `name` are the parts of `repo` before and after its first `/`.
pub open spec fn splits_repo(repo: Seq<char>, owner: Seq<char>, name: Seq<char>) -> bool {
    exists|i: int|
        0 <= i < repo.len() && repo[i] == '/' && (forall|j: int| 0 <= j < i ==> repo[j] != '/')
            && owner == repo.take(i) && name == repo.skip(i + 1)
}

/// One downloadable file of a release.
#[derive(Debug, Clone)]
pub struct ReleaseAsset {
    pub name: String,
    pub download_url: String,
}

/// The latest release of a repository, with its assets in upstream order.
#[derive(Debug, Clone)]
pub struct Release {
    pub tag_name: String,
    pub assets: Vec<ReleaseAsset>,
}

/// What to do with a release.
#[derive(Debug, Clone)]
pub enum FetchPlan {
    /// The release is not newer than the installed version.
    UpToDate,
    /// The release is newer, but no asset matches the pattern.
    NoMatchingAsset,
    /// Download `url` into the temporary directory as `file_name`.
    Download { url: String, file_name: String },
}

/// Fetcher of the latest release of a GitHub repository.
#[derive(Debug, Clone)]
pub struct GitHubFetcher {
    pub owner: String,
    pub repo: String,
    /// Glob pattern that selects the asset to download.
    pub file_pattern: String,
}

/// The releases-latest address of a repository.
pub open spec fn latest_release_url(owner: Seq<char>, repo: Seq<char>) -> Seq<char> {
    "https://api.github.com/repos/"@ + owner + "/"@ + repo + "/releases/latest"@
}

/// The name under which an asset is stored; it depends on the repository and
/// the asset alone, so a later download overwrites an earlier one.
pub open spec fn download_name(repo: Seq<char>, asset: Seq<char>) -> Seq<char> {
    "autopkg-"@ + repo + "-"@ + asset
}

/// Asset `i` is the first whose name matches `pattern`.
pub open spec fn is_first_match(pattern: Seq<char>, assets: Seq<ReleaseAsset>, i: int) -> bool {
    &&& 0 <= i < assets.len()
    &&& glob_match(pattern, assets[i].name@)
    &&& forall|j: int| 0 <= j < i ==> !glob_match(pattern, #[trigger] assets[j].name@)
}

pub open spec fn any_match(pattern: Seq<char>, assets: Seq<ReleaseAsset>) -> bool {
    exists|j: int| 0 <= j < assets.len() && glob_match(pattern, #[trigger] assets[j].name@)
}

impl GitHubFetcher {
    pub open spec fn wf(&self) -> bool {
        glob_valid(self.file_pattern@)
    }

    /// `plan` is what to do with `release` given the installed version
    /// `current`: nothing unless the normalized tag is newer than the
    /// normalized installed version; else download the first matching asset,
    /// if there is one.
    pub open spec fn plans(&self, current: Seq<char>, release: Release, plan: FetchPlan) -> bool {
        if !newer(normalized(current), normalized(release.tag_name@)) {
            plan is UpToDate
        } else if !any_match(self.file_pattern@, release.assets@) {
            plan is NoMatchingAsset
        } else {
            plan matches FetchPlan::Download { url, file_name } && exists|i: int|
                is_first_match(self.file_pattern@, release.assets@, i) && url@
                    == release.assets@[i].download_url@ && file_name@ == download_name(
                    self.repo@,
                    release.assets@[i].name@,
                )
        }
    }

    /// Builds the fetcher from its setting: the repository must be given as
    /// `owner/name` and the pattern (default `*`) must be a valid glob.
    pub fn new(config: &FetcherConfig, app: &ApplicationConfig) -> (r: Result<
        GitHubFetcher,
        ConfigError,
    >)
        ensures
            config.repo is None ==> (r matches Err(ConfigError::MissingRepo)),
            config.repo is Some && !well_formed_repo(config.repo->Some_0@) ==> (r matches Err(
                ConfigError::MalformedRepo(m),
            ) && m@ == config.repo->Some_0@),
            config.repo is Some && well_formed_repo(config.repo->Some_0@) && !glob_valid(
                pattern_of(*config),
            ) ==> (r matches Err(ConfigError::InvalidPattern(p)) && p@ == pattern_of(*config)),
            config.repo is Some && well_formed_repo(config.repo->Some_0@) && glob_valid(
                pattern_of(*config),
            ) ==> (
            r matches Ok(f) && f.wf() && splits_repo(config.repo->Some_0@, f.owner@, f.repo@) && f.file_pattern@
                == pattern_of(*config)),
    {
        let repo_str = match &config.repo {
            Some(s) => s,
            None => return Err(ConfigError::MissingRepo),
        };
        let slash = match find_char(repo_str.as_str(), '/') {
            Some(i) => i,
            None => return Err(ConfigError::MalformedRepo(repo_str.clone())),
        };
        let n = repo_str.unicode_len();
        let ghost r = repo_str@;
        if slash == 0 || slash + 1 == n {
            assert(!well_formed_repo(r)) by {
                if well_formed_repo(r) {
                    let k = choose|k: int|
                        0 < k < r.len() - 1 && r[k] == '/' && forall|j: int|
                            0 <= j < r.len() && j != k ==> r[j] != '/';
                    assert(r[slash as int] == '/');
                }
            }
            return Err(ConfigError::MalformedRepo(repo_str.clone()));
        }
        let rest = repo_str.as_str().substring_char(slash + 1, n);
        if let Some(m) = find_char(rest, '/') {
            assert(!well_formed_repo(r)) by {
                assert(r[slash + 1 + m] == '/');
                if well_formed_repo(r) {
                    let k = choose|k: int|
                        0 < k < r.len() - 1 && r[k] == '/' && forall|j: int|
                            0 <= j < r.len() && j != k ==> r[j] != '/';
                    assert(r[slash as int] == '/');
                }
            }
            return Err(ConfigError::MalformedRepo(repo_str.clone()));
        }
        assert(well_formed_repo(r)) by {
            assert forall|j: int| 0 <= j < r.len() && j != slash implies r[j] != '/' by {
                if j > slash {
                    assert(rest@[j - slash - 1] == r[j]);
                }
            }
        }
        let owner = String::from_str(repo_str.as_str().substring_char(0, slash));
        let repo = String::from_str(rest);
        let file_pattern = match &config.file_pattern {
            Some(p) => p.clone(),
            None => String::from_str("*"),
        };
        proof {
            reveal_strlit("*");
            assert(file_pattern@ =~= pattern_of(*config));
            assert(repo_str@.take(slash as int) =~= owner@);
            assert(repo_str@.skip(slash + 1) =~= repo@);
        }
        match compile_glob(file_pattern.as_str()) {
            Ok(()) => Ok(GitHubFetcher { owner, repo, file_pattern }),
            Err(_) => Err(ConfigError::InvalidPattern(file_pattern)),
        }
    }

    /// The address of the repository's latest release.
    pub fn release_url(&self) -> (r: String)
        ensures
            r@ == latest_release_url(self.owner@, self.repo@),
    {
        let mut u = String::from_str("https://api.github.com/repos/");
        u.append(self.owner.as_str());
        u.append("/");
        u.append(self.repo.as_str());
        u.append("/releases/latest");
        u
    }

    /// The file name under which an asset of this repository is stored.
    pub fn download_file_name(&self, asset_name: &str) -> (r: String)
        ensures
            r@ == download_name(self.repo@, asset_name@),
    {
        let mut f = String::from_str("autopkg-");
        f.append(self.repo.as_str());
        f.append("-");
        f.append(asset_name);
        f
    }

    /// The index of the first asset, in upstream order, whose name matches
    /// the pattern.
    pub fn select_asset(&self, assets: &Vec<ReleaseAsset>) -> (r: Option<usize>)
        requires
            self.wf(),
        ensures
            match r {
                Some(i) => is_first_match(self.file_pattern@, assets@, i as int),
                None => !any_match(self.file_pattern@, assets@),
            },
    {
        let mut i: usize = 0;
        while i < assets.len()
            invariant
                self.wf(),
                i <= assets@.len(),
                forall|j: int|
                    0 <= j < i ==> !glob_match(self.file_pattern@, #[trigger] assets@[j].name@),
            decreases assets.len() - i,
        {
            if glob_matches(self.file_pattern.as_str(), assets[i].name.as_str()) {
                return Some(i);
            }
            i = i + 1;
        }
        None
    }

    /// Decides what to do with the latest release, given the installed
    /// version: nothing unless its normalized tag is newer than the
    /// normalized installed version; else download the first matching asset,
    /// if there is one.
    pub fn plan_fetch(&self, current_version: &str, release: &Release) -> (r: FetchPlan)
        requires
            self.wf(),
        ensures
            self.plans(current_version@, *release, r),
    {
        let latest = normalize_version(release.tag_name.as_str());
        let current = normalize_version(current_version);
        if !is_newer(current.as_str(), latest.as_str()) {
            return FetchPlan::UpToDate;
        }
        match self.select_asset(&release.assets) {
            None => FetchPlan::NoMatchingAsset,
            Some(i) => {
                let asset = &release.assets[i];
                let file_name = self.download_file_name(asset.name.as_str());
                FetchPlan::Download { url: asset.download_url.clone(), file_name }
            },
        }
    }
}

/// A fetcher setting from which a fetcher can be built.
pub open spec fn fetcher_setting_ok(c: FetcherConfig) -> bool {
    &&& c.kind@ == github_kind()
    &&& c.repo is Some
    &&& well_formed_repo(c.repo->Some_0@)
    &&& glob_valid(pattern_of(c))
}

/// `e` is the error that a faulty fetcher setting gives: an unknown kind,
/// else a missing repository, else one not written `owner/name`, else a
/// bad pattern.
pub open spec fn fetcher_setting_error(c: FetcherConfig, e: ConfigError) -> bool {
    if c.kind@ != github_kind() {
        e matches ConfigError::UnknownFetcher(k) && k@ == c.kind@
    } else if c.repo is None {
        e is MissingRepo
    } else if !well_formed_repo(c.repo->Some_0@) {
        e matches ConfigError::MalformedRepo(m) && m@ == c.repo->Some_0@
    } else {
        e matches ConfigError::InvalidPattern(p) && p@ == pattern_of(c)
    }
}

/// The fetchers that a setting can name, told apart by the kind tag.
#[derive(Debug, Clone)]
pub enum Fetcher {
    GitHub(GitHubFetcher),
}

/// `f` is the fetcher that a valid setting describes.
pub open spec fn built_from(c: FetcherConfig, f: Fetcher) -> bool {
    match f {
        Fetcher::GitHub(g) => g.wf() && splits_repo(c.repo->Some_0@, g.owner@, g.repo@)
            && g.file_pattern@ == pattern_of(c),
    }
}

impl Fetcher {
    pub open spec fn wf(&self) -> bool {
        match self {
            Fetcher::GitHub(g) => g.wf(),
        }
    }

    /// The address that the latest release is fetched from.
    pub open spec fn release_address(&self) -> Seq<char> {
        match self {
            Fetcher::GitHub(g) => latest_release_url(g.owner@, g.repo@),
        }
    }

    /// `plan` is what to do with `release` given the installed version.
    pub open spec fn plans(&self, current: Seq<char>, release: Release, plan: FetchPlan) -> bool {
        match self {
            Fetcher::GitHub(g) => g.plans(current, release, plan),
        }
    }

    pub fn release_url(&self) -> (r: String)
        ensures
            r@ == self.release_address(),
    {
        match self {
            Fetcher::GitHub(g) => g.release_url(),
        }
    }

    pub fn plan_fetch(&self, current_version: &str, release: &Release) -> (r: FetchPlan)
        requires
            self.wf(),
        ensures
            self.plans(current_version@, *release, r),
    {
        match self {
            Fetcher::GitHub(g) => g.plan_fetch(current_version, release),
        }
    }
}

/// Builds the fetcher that a fetcher setting names; only `github` is known.
pub fn create_fetcher(config: &FetcherConfig, app: &ApplicationConfig) -> (r: Result<
    Fetcher,
    ConfigError,
>)
    ensures
        fetcher_setting_ok(*config) ==> (r matches Ok(f) && built_from(*config, f)),
        !fetcher_setting_ok(*config) ==> (r matches Err(e) && fetcher_setting_error(*config, e)),
{
    proof {
        reveal_strlit("github");
    }
    assert("github"@ =~= github_kind());
    if same_text(config.kind.as_str(), "github") {
        match GitHubFetcher::new(config, app) {
            Ok(g) => Ok(Fetcher::GitHub(g)),
            Err(e) => Err(e),
        }
    } else {
        Err(ConfigError::UnknownFetcher(config.kind.clone()))
    }
}

} // verus!
