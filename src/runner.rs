//! The per-application update protocol, as a state machine driven by the
//! outcomes of outside work, and the bookkeeping of a batch of applications.
//!
//! A driver performs each requested `Step` (a package query, an HTTP request,
//! a download, an install) and hands back what came of it as an `Event`.
//! Any failure of that outside work ends the application's run; the driver
//! then goes on with the next application.

use crate::config::{effective_package_name, is_pinned, ApplicationConfig};
use crate::error::ConfigError;
use crate::fetcher::{
    built_from, create_fetcher, fetcher_setting_error, fetcher_setting_ok, FetchPlan, Fetcher,
    Release,
};
use crate::installer::{
    create_installer, deb_kind, not_installed_version, queried_version, Installer, PackageQuery,
};
use crate::text::same_text;
use crate::types::UpdateCheck;
use crate::version::{
    digits_value, newer, normalized, numeric_parts, numeric_values, padded, segment_value, split_dots,
    unsigned_body, version_run_end, first_digit_from,
};
use vstd::prelude::*;

verus! {

/// How the run of one application ended.
#[derive(Debug, Clone)]
pub enum Outcome {
    /// The application is pinned: nothing was checked.
    Skipped,
    /// The latest release is not newer than the installed version.
    UpToDate,
    /// A newer release exists but none of its assets matches the pattern.
    NoMatchingAsset,
    /// Dry run: the newer release was downloaded to this path, not installed.
    Downloaded(String),
    /// The newer release was installed.
    Installed,
}

/// The outside work that the run asks for next, or its end.
#[derive(Debug, Clone)]
pub enum Step {
    /// Ask the package database about this package.
    QueryPackage(String),
    /// Fetch the latest release from this address.
    FetchRelease(String),
    /// Download `url` into the temporary directory as `file_name`.
    Download { url: String, file_name: String },
    /// Install the downloaded file at this path.
    Install(String),
    /// The run is over.
    Finished(Outcome),
}

/// What came of the outside work of the last step.
#[derive(Debug, Clone)]
pub enum Event {
    /// The package database answered.
    Package(PackageQuery),
    /// The latest release was fetched.
    Latest(Release),
    /// The asset was stored at this path.
    Downloaded(String),
    /// The install command succeeded.
    InstallDone,
}

/// Where a run stands: which answer it waits for.
#[derive(Debug, Clone, Copy, PartialEq, Eq)]
pub enum Phase {
    AwaitPackage,
    AwaitRelease,
    AwaitDownload,
    AwaitInstall,
    Done,
}

/// The run of one application.
#[derive(Debug, Clone)]
pub struct ApplicationRun {
    pub installer: Installer,
    pub fetcher: Fetcher,
    /// Check and download, but do not install.
    pub dry_run: bool,
    pub phase: Phase,
    /// The installed version that the release is compared with.
    pub current_version: String,
}

/// The event that a phase waits for.
pub open spec fn expects(phase: Phase, event: Event) -> bool {
    match phase {
        Phase::AwaitPackage => event is Package,
        Phase::AwaitRelease => event is Latest,
        Phase::AwaitDownload => event is Downloaded,
        Phase::AwaitInstall => event is InstallDone,
        Phase::Done => false,
    }
}

/// The version that a package query makes the current one.
pub open spec fn current_after_query(q: PackageQuery) -> Seq<char> {
    match queried_version(q) {
        Some(v) => v,
        None => not_installed_version(),
    }
}

/// `step` and `phase` carry out `plan`.
pub open spec fn follows_plan(plan: FetchPlan, step: Step, phase: Phase) -> bool {
    match plan {
        FetchPlan::UpToDate => step matches Step::Finished(Outcome::UpToDate) && phase is Done,
        FetchPlan::NoMatchingAsset => step matches Step::Finished(Outcome::NoMatchingAsset)
            && phase is Done,
        FetchPlan::Download { url, file_name } => step matches Step::Download {
            url: u,
            file_name: f,
        } && u@ == url@ && f@ == file_name@ && phase is AwaitDownload,
    }
}

/// Both settings of an application can be built.
pub open spec fn application_ok(app: ApplicationConfig) -> bool {
    app.installer.kind@ == deb_kind() && fetcher_setting_ok(app.fetcher)
}

impl ApplicationRun {
    pub open spec fn wf(&self) -> bool {
        &&& self.fetcher.wf()
        &&& self.phase is AwaitPackage ==> !self.installer.pinned()
        &&& self.dry_run ==> !(self.phase is AwaitInstall)
    }

    pub open spec fn unchanged_settings(&self, other: &ApplicationRun) -> bool {
        &&& self.installer == other.installer
        &&& self.fetcher == other.fetcher
        &&& self.dry_run == other.dry_run
    }

    /// Whether the run waits for this event.
    pub fn accepts(&self, event: &Event) -> (r: bool)
        ensures
            r == expects(self.phase, *event),
    {
        match (self.phase, event) {
            (Phase::AwaitPackage, Event::Package(_)) => true,
            (Phase::AwaitRelease, Event::Latest(_)) => true,
            (Phase::AwaitDownload, Event::Downloaded(_)) => true,
            (Phase::AwaitInstall, Event::InstallDone) => true,
            _ => false,
        }
    }

    /// Takes the answer to the last step and returns the next one.
    pub fn advance(&mut self, event: Event) -> (r: Step)
        requires
            old(self).wf(),
            expects(old(self).phase, event),
        ensures
            final(self).wf(),
            final(self).unchanged_settings(old(self)),
            old(self).dry_run ==> !(r is Install) && !(r matches Step::Finished(Outcome::Installed)),
            (r is Finished) == (final(self).phase is Done),
            match event {
                Event::Package(q) => (r matches Step::FetchRelease(u) && u@
                    == old(self).fetcher.release_address() && final(self).current_version@
                    == current_after_query(q) && final(self).phase is AwaitRelease),
                Event::Latest(rel) => final(self).current_version == old(self).current_version
                    && exists|p: FetchPlan|
                    old(self).fetcher.plans(old(self).current_version@, rel, p) && follows_plan(
                        p,
                        r,
                        final(self).phase,
                    ),
                Event::Downloaded(p) => if old(self).dry_run {
                    (r matches Step::Finished(Outcome::Downloaded(d)) && d@ == p@)
                } else {
                    (r matches Step::Install(d) && d@ == p@ && final(self).phase is AwaitInstall)
                },
                Event::InstallDone => (r matches Step::Finished(Outcome::Installed)),
            },
    {
        match event {
            Event::Package(q) => {
                let installed = self.installer.installed_version(&q);
                match self.installer.should_check_for_update(installed) {
                    UpdateCheck::No => {
                        self.phase = Phase::Done;
                        Step::Finished(Outcome::Skipped)
                    },
                    UpdateCheck::Yes(v) => {
                        self.current_version = v;
                        self.phase = Phase::AwaitRelease;
                        Step::FetchRelease(self.fetcher.release_url())
                    },
                }
            },
            Event::Latest(rel) => {
                let plan = self.fetcher.plan_fetch(self.current_version.as_str(), &rel);
                let ghost p = plan;
                let r = match plan {
                    FetchPlan::UpToDate => {
                        self.phase = Phase::Done;
                        Step::Finished(Outcome::UpToDate)
                    },
                    FetchPlan::NoMatchingAsset => {
                        self.phase = Phase::Done;
                        Step::Finished(Outcome::NoMatchingAsset)
                    },
                    FetchPlan::Download { url, file_name } => {
                        self.phase = Phase::AwaitDownload;
                        Step::Download { url, file_name }
                    },
                };
                assert(follows_plan(p, r, self.phase));
                r
            },
            Event::Downloaded(path) => {
                if self.dry_run {
                    self.phase = Phase::Done;
                    Step::Finished(Outcome::Downloaded(path))
                } else {
                    self.phase = Phase::AwaitInstall;
                    Step::Install(path)
                }
            },
            Event::InstallDone => {
                self.phase = Phase::Done;
                Step::Finished(Outcome::Installed)
            },
        }
    }
}

/// Starts the run of an application: builds its installer, then its
/// fetcher (an error in either ends the run), and asks for the installed
/// version unless the application is pinned, in which case nothing is
/// checked and nothing is fetched.
pub fn process_application(app: &ApplicationConfig, dry_run: bool) -> (r: Result<
    (ApplicationRun, Step),
    ConfigError,
>)
    ensures
        app.installer.kind@ != deb_kind() ==> (r matches Err(ConfigError::UnknownInstaller(k)) && k@
            == app.installer.kind@),
        app.installer.kind@ == deb_kind() && !fetcher_setting_ok(app.fetcher) ==> (r matches Err(e)
            && fetcher_setting_error(app.fetcher, e)),
        application_ok(*app) ==> (r matches Ok((run, step)) && run.wf() && run.dry_run == dry_run
            && run.installer.package() == effective_package_name(*app) && run.installer.pinned()
            == is_pinned(*app) && built_from(app.fetcher, run.fetcher) && (is_pinned(*app) ==> (step matches Step::Finished(Outcome::Skipped)
            && run.phase is Done)) && (!is_pinned(*app) ==> (step matches Step::QueryPackage(p)
            && p@ == effective_package_name(*app) && run.phase is AwaitPackage))),
{
    let installer = match create_installer(&app.installer, app) {
        Ok(i) => i,
        Err(e) => return Err(e),
    };
    let fetcher = match create_fetcher(&app.fetcher, app) {
        Ok(f) => f,
        Err(e) => return Err(e),
    };
    if installer.should_skip() {
        let run = ApplicationRun {
            installer,
            fetcher,
            dry_run,
            phase: Phase::Done,
            current_version: String::new(),
        };
        Ok((run, Step::Finished(Outcome::Skipped)))
    } else {
        let query = installer.package_name();
        let run = ApplicationRun {
            installer,
            fetcher,
            dry_run,
            phase: Phase::AwaitPackage,
            current_version: String::new(),
        };
        Ok((run, Step::QueryPackage(query)))
    }
}

/// After an install, a Debian-installed application without a package name
/// override gets its own name as the override, and the configuration is
/// marked for saving; any other outcome changes nothing.
pub fn record_outcome(app: &mut ApplicationConfig, outcome: &Outcome, config_updated: &mut bool)
    ensures
        outcome is Installed && old(app).installer.kind@ == deb_kind() && old(app).package_name is None
            ==> (final(app).package_name matches Some(p) && p@ == old(app).name@ && *final(
            config_updated)),
        !(outcome is Installed && old(app).installer.kind@ == deb_kind() && old(
            app,
        ).package_name is None) ==> final(app).package_name == old(app).package_name && *final(
            config_updated) == *old(config_updated),
        final(app).name == old(app).name,
        final(app).installer == old(app).installer,
        final(app).fetcher == old(app).fetcher,
        final(app).pinned == old(app).pinned,
        *old(config_updated) ==> *final(config_updated),
{
    proof {
        reveal_strlit("deb");
    }
    assert("deb"@ =~= deb_kind());
    let installed = match outcome {
        Outcome::Installed => true,
        _ => false,
    };
    if installed && app.package_name.is_none() && same_text(
        app.installer.kind.as_str(),
        "deb",
    ) {
        app.package_name = Some(app.name.clone());
        *config_updated = true;
    }
}

proof fn lemma_first_positive(r: Seq<nat>, k: int)
    requires
        0 <= k < r.len(),
        r[k] > 0,
    ensures
        exists|m: int| 0 <= m <= k && r[m] > 0 && forall|j: int| 0 <= j < m ==> r[j] == 0,
    decreases k,
{
    if exists|j: int| 0 <= j < k && r[j] > 0 {
        let j = choose|j: int| 0 <= j < k && r[j] > 0;
        lemma_first_positive(r, j);
    } else {
        assert(forall|j: int| 0 <= j < k ==> r[j] == 0);
    }
}

proof fn lemma_not_installed_parts()
    ensures
        normalized(not_installed_version()) == not_installed_version(),
        numeric_parts(not_installed_version()) =~= seq![0nat, 0nat, 0nat],
{
    let s = not_installed_version();
    assert(first_digit_from(s, 0) == 0);
    assert(version_run_end(s, 5) == 5);
    assert(version_run_end(s, 4) == 5);
    assert(version_run_end(s, 3) == 5);
    assert(version_run_end(s, 2) == 5);
    assert(version_run_end(s, 1) == 5);
    assert(version_run_end(s, 0) == 5);
    assert(s.subrange(0, 5) =~= s);
    let e = Seq::<char>::empty();
    let z = seq!['0'];
    let t1 = seq!['0'];
    let t2 = seq!['0', '.'];
    let t3 = seq!['0', '.', '0'];
    let t4 = seq!['0', '.', '0', '.'];
    assert(t1.drop_last() =~= e);
    assert(t2.drop_last() =~= t1);
    assert(t3.drop_last() =~= t2);
    assert(t4.drop_last() =~= t3);
    assert(s.drop_last() =~= t4);
    assert(split_dots(e) =~~= seq![e]);
    assert(e.push('0') =~= z);
    assert(split_dots(t1) =~~= seq![z]);
    assert(split_dots(t2) =~~= seq![z, e]);
    assert(split_dots(t3) =~~= seq![z, z]);
    assert(split_dots(t4) =~~= seq![z, z, e]);
    assert(split_dots(s) =~~= seq![z, z, z]);
    assert(unsigned_body(z) == z);
    assert(z.drop_last() =~= e);
    assert(z.last() == '0');
    assert(digits_value(e) == 0);
    assert(digits_value(z) == 0);
    assert(segment_value(z) == Some(0nat));
    let p = seq![z, z, z];
    assert(p.drop_last() =~~= seq![z, z]);
    assert(seq![z, z].drop_last() =~~= seq![z]);
    assert(seq![z].drop_last() =~~= Seq::<Seq<char>>::empty());
    assert(seq![z].last() == z);
    assert(seq![z, z].last() == z);
    assert(p.last() == z);
    assert(numeric_values(Seq::<Seq<char>>::empty()) =~= Seq::<nat>::empty());
    assert(numeric_values(seq![z]) =~= seq![0nat]);
    assert(numeric_values(seq![z, z]) =~= seq![0nat, 0nat]);
    assert(numeric_values(p) =~= seq![0nat, 0nat, 0nat]);
}

/// An application that is not installed is checked against `0.0.0`, so any
/// release whose version has a positive numeric component is newer.
pub proof fn lemma_release_newer_than_not_installed(tag: Seq<char>)
    requires
        exists|i: int|
            0 <= i < numeric_parts(normalized(tag)).len() && numeric_parts(normalized(tag))[i] > 0,
    ensures
        newer(normalized(not_installed_version()), normalized(tag)),
{
    lemma_not_installed_parts();
    let l = numeric_parts(normalized(not_installed_version()));
    let r = numeric_parts(normalized(tag));
    let k = choose|i: int| 0 <= i < r.len() && r[i] > 0;
    lemma_first_positive(r, k);
    let m = choose|m: int| 0 <= m <= k && r[m] > 0 && forall|j: int| 0 <= j < m ==> r[j] == 0;
    assert(forall|j: int| #![auto] padded(l, j) == 0);
    assert(padded(r, m) > padded(l, m));
    assert(forall|j: int| 0 <= j < m ==> padded(r, j) == padded(l, j));
}

} // verus!
