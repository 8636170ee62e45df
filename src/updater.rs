use crate::paths::{
    archive_name_spec, bin_dir_spec, build_info_path, build_info_spec, default_discord_path,
    default_install_spec, download_url, download_url_spec, home_bin_dir, home_bin_link, link_spec,
    archive_file_name,
};
use crate::version::{precedence, precedes, version_text, SemVer, Version};
use core::cmp::Ordering;
use vstd::prelude::*;

verus! {

/// Where a run of the updater stands.
#[derive(Debug, Clone, Copy, PartialEq, Eq, Structural)]
pub enum Phase {
    Locating,
    FetchingLatest,
    CheckingPath,
    ReadingInstalled,
    Downloading,
    Extracting,
    Linking,
    Done,
    Failed,
}

/// What the outside world reports back after an action.
#[derive(Debug)]
pub enum Event {
    /// The lookup of an existing installation: its directory, or `None` where
    /// none was found.
    Located(Option<String>),
    /// The latest published version, or why it could not be had.
    LatestVersion(Result<Version, String>),
    /// Whether the install path exists on disk.
    PathExists(Result<bool, String>),
    /// The installed version, read from its metadata file.
    InstalledVersion(Result<Version, String>),
    /// The release archive was downloaded into a scoped temporary directory.
    Downloaded(Result<(), String>),
    /// The archive was extracted into the install path.
    Extracted(Result<(), String>),
    /// The convenience link was created.
    Linked(Result<(), String>),
}

/// What the outside world is asked to do next.
#[derive(Debug)]
pub enum Action {
    /// Find an existing installation.
    Locate,
    /// Fetch the latest published version.
    FetchLatest,
    /// Tell whether `path` exists.
    CheckPath { path: String },
    /// Read the installed version from the metadata file at `metadata`.
    ReadInstalled { metadata: String },
    /// Download `url` into a file named `file_name` in a temporary directory.
    Download { url: String, file_name: String },
    /// Create `dest` and extract the downloaded archive into it, dropping the
    /// archive's top-level directory.
    Extract { dest: String },
    /// Create `bin_dir` and a symlink at `link` pointing to `target`.
    Link { bin_dir: String, link: String, target: String },
    /// The run succeeded.
    Finish,
    /// The run failed with `message`.
    Fail { message: String },
}

/// The state of one run: locate, resolve the versions, update if needed,
/// link a fresh install.
pub struct Updater {
    pub phase: Phase,
    pub home: String,
    pub install_path: String,
    pub latest: Version,
    pub current: Version,
    pub install_fresh: bool,
}

pub open spec fn zero_version() -> SemVer {
    SemVer { major: 0, minor: 0, patch: 0, pre: Seq::empty(), build: Seq::empty() }
}

/// The words put before an error of the phase in which it came.
pub open spec fn context_of(p: Phase) -> Seq<char> {
    match p {
        Phase::FetchingLatest => "failed to fetch the latest version: "@,
        Phase::CheckingPath => "failed to check the install path: "@,
        Phase::ReadingInstalled => "failed to read the installed version: "@,
        Phase::Downloading => "failed to download the release: "@,
        Phase::Extracting => "failed to extract the release: "@,
        Phase::Linking => "failed to create the link: "@,
        _ => "unexpected event: "@,
    }
}

/// The error that an event reports, if it reports one.
pub open spec fn event_error(e: Event) -> Option<Seq<char>> {
    match e {
        Event::LatestVersion(Err(m)) => Some(m@),
        Event::PathExists(Err(m)) => Some(m@),
        Event::InstalledVersion(Err(m)) => Some(m@),
        Event::Downloaded(Err(m)) => Some(m@),
        Event::Extracted(Err(m)) => Some(m@),
        Event::Linked(Err(m)) => Some(m@),
        _ => None,
    }
}

/// The event answers the action of phase `p`.
pub open spec fn answers(p: Phase, e: Event) -> bool {
    match e {
        Event::Located(_) => p == Phase::Locating,
        Event::LatestVersion(_) => p == Phase::FetchingLatest,
        Event::PathExists(_) => p == Phase::CheckingPath,
        Event::InstalledVersion(_) => p == Phase::ReadingInstalled,
        Event::Downloaded(_) => p == Phase::Downloading,
        Event::Extracted(_) => p == Phase::Extracting,
        Event::Linked(_) => p == Phase::Linking,
    }
}

/// The versions that an event carries are valid.
pub open spec fn event_valid(e: Event) -> bool {
    match e {
        Event::LatestVersion(Ok(v)) => v.valid(),
        Event::InstalledVersion(Ok(v)) => v.valid(),
        _ => true,
    }
}

/// Once both versions are known: update where the latest ranks above the
/// current one, else link a fresh install, else stop.
pub open spec fn phase_after_versions(latest: SemVer, current: SemVer, fresh: bool) -> Phase {
    if precedes(current, latest) {
        Phase::Downloading
    } else if fresh {
        Phase::Linking
    } else {
        Phase::Done
    }
}

/// The phase that follows `s` on event `e`.
pub open spec fn next_phase(s: Updater, e: Event) -> Phase {
    if s.phase == Phase::Done || s.phase == Phase::Failed || !answers(s.phase, e)
        || event_error(e) is Some {
        Phase::Failed
    } else {
        match e {
            Event::Located(_) => Phase::FetchingLatest,
            Event::LatestVersion(_) => Phase::CheckingPath,
            Event::PathExists(Ok(true)) => Phase::ReadingInstalled,
            Event::PathExists(_) => phase_after_versions(s.latest@, zero_version(), true),
            Event::InstalledVersion(Ok(v)) => phase_after_versions(s.latest@, v@, s.install_fresh),
            Event::Downloaded(_) => Phase::Extracting,
            Event::Extracted(_) => if s.install_fresh {
                Phase::Linking
            } else {
                Phase::Done
            },
            _ => Phase::Done,
        }
    }
}

/// The action asked for on entering phase `s.phase`.
pub open spec fn action_fits(s: Updater, a: Action) -> bool {
    match s.phase {
        Phase::Locating => a is Locate,
        Phase::FetchingLatest => a is FetchLatest,
        Phase::CheckingPath => a matches Action::CheckPath { path } && path@ == s.install_path@,
        Phase::ReadingInstalled => a matches Action::ReadInstalled { metadata } && metadata@
            == build_info_spec(s.install_path@),
        Phase::Downloading => a matches Action::Download { url, file_name } && url@
            == download_url_spec(version_text(s.latest@)) && file_name@ == archive_name_spec(
            version_text(s.latest@),
        ),
        Phase::Extracting => a matches Action::Extract { dest } && dest@ == s.install_path@,
        Phase::Linking => a matches Action::Link { bin_dir, link, target } && bin_dir@
            == bin_dir_spec(s.home@) && link@ == link_spec(s.home@) && target@
            == default_install_spec(s.home@),
        Phase::Done => a is Finish,
        Phase::Failed => a is Fail,
    }
}

/// A run that learns the install path is missing goes on as a fresh install
/// from version 0.0.0, whatever the lookup found.
pub proof fn lemma_missing_path_is_fresh(s: Updater, e: Event)
    requires
        s.phase == Phase::CheckingPath,
        e matches Event::PathExists(Ok(false)),
    ensures
        next_phase(s, e) == phase_after_versions(s.latest@, zero_version(), true),
        next_phase(s, e) != Phase::Failed,
{
}

/// Where the installed version equals the latest, nothing is downloaded or
/// extracted and the run does not fail.
pub proof fn lemma_equal_versions_no_update(s: Updater, e: Event)
    requires
        s.phase == Phase::ReadingInstalled,
        e matches Event::InstalledVersion(Ok(v)) && v@ == s.latest@,
    ensures
        next_phase(s, e) != Phase::Downloading,
        next_phase(s, e) != Phase::Failed,
{
}

/// Where the installed version ranks above the latest, the run is a no-op
/// (or links a fresh install), not an error.
pub proof fn lemma_newer_install_no_update(s: Updater, e: Event)
    requires
        s.phase == Phase::ReadingInstalled,
        e matches Event::InstalledVersion(Ok(v)) && precedence(v@, s.latest@) == Ordering::Greater,
    ensures
        next_phase(s, e) == (if s.install_fresh {
            Phase::Linking
        } else {
            Phase::Done
        }),
{
}

/// A failed download ends the run: nothing is extracted into the install path.
pub proof fn lemma_download_failure_stops(s: Updater, e: Event)
    requires
        s.phase == Phase::Downloading,
        e matches Event::Downloaded(Err(_)),
    ensures
        next_phase(s, e) == Phase::Failed,
{
}

/// A fresh install that extracted successfully goes on to link
/// `<home>/bin/discord` to the default install path.
pub proof fn lemma_fresh_install_links(s: Updater, e: Event, a: Action)
    requires
        s.phase == Phase::Extracting,
        s.install_fresh,
        e matches Event::Extracted(Ok(_)),
    ensures
        next_phase(s, e) == Phase::Linking,
        action_fits(Updater { phase: Phase::Linking, ..s }, a) ==> (a matches Action::Link {
            link,
            target,
            ..
        } && link@ == link_spec(s.home@) && target@ == default_install_spec(s.home@)),
{
}

impl Updater {
    pub open spec fn wf(&self) -> bool {
        self.latest.valid() && self.current.valid()
    }

    /// A run for the user whose home directory is `home`; its first action is
    /// `Action::Locate`.
    pub fn new(home: String) -> (r: Updater)
        ensures
            r.wf(),
            r.phase == Phase::Locating,
            r.home@ == home@,
            r.install_path@ == Seq::<char>::empty(),
            r.latest@ == zero_version(),
            r.current@ == zero_version(),
            !r.install_fresh,
    {
        Updater {
            phase: Phase::Locating,
            home,
            install_path: String::new(),
            latest: Version::zero(),
            current: Version::zero(),
            install_fresh: false,
        }
    }

    /// The first action of a run.
    pub fn first_action(&self) -> (r: Action)
        requires
            self.phase == Phase::Locating,
        ensures
            action_fits(*self, r),
    {
        Action::Locate
    }

    fn fail(&mut self, message: String) -> (r: Action)
        ensures
            final(self).phase == Phase::Failed,
            final(self).home == old(self).home,
            final(self).install_path == old(self).install_path,
            final(self).latest == old(self).latest,
            final(self).current == old(self).current,
            final(self).install_fresh == old(self).install_fresh,
            r matches Action::Fail { message: m } && m@ == message@,
    {
        self.phase = Phase::Failed;
        Action::Fail { message }
    }

    /// The action that the phase reached asks for.
    fn enter(&mut self, p: Phase) -> (r: Action)
        requires
            p != Phase::Failed,
            p != Phase::Locating,
        ensures
            final(self).phase == p,
            final(self).home == old(self).home,
            final(self).install_path == old(self).install_path,
            final(self).latest == old(self).latest,
            final(self).current == old(self).current,
            final(self).install_fresh == old(self).install_fresh,
            action_fits(*final(self), r),
    {
        self.phase = p;
        match p {
            Phase::FetchingLatest => Action::FetchLatest,
            Phase::CheckingPath => Action::CheckPath { path: self.install_path.clone() },
            Phase::ReadingInstalled => Action::ReadInstalled {
                metadata: build_info_path(self.install_path.as_str()),
            },
            Phase::Downloading => Action::Download {
                url: download_url(&self.latest),
                file_name: archive_file_name(&self.latest),
            },
            Phase::Extracting => Action::Extract { dest: self.install_path.clone() },
            Phase::Linking => Action::Link {
                bin_dir: home_bin_dir(self.home.as_str()),
                link: home_bin_link(self.home.as_str()),
                target: default_discord_path(self.home.as_str()),
            },
            _ => Action::Finish,
        }
    }

    /// Takes in the outcome of the last action and says what to do next.
    pub fn advance(&mut self, e: Event) -> (r: Action)
        requires
            old(self).wf(),
            event_valid(e),
        ensures
            final(self).wf(),
            final(self).phase == next_phase(*old(self), e),
            action_fits(*final(self), r),
            final(self).home == old(self).home,
            final(self).install_path@ == (match (old(self).phase, e) {
                (Phase::Locating, Event::Located(Some(p))) => p@,
                (Phase::Locating, Event::Located(None)) => default_install_spec(old(self).home@),
                _ => old(self).install_path@,
            }),
            final(self).latest@ == (match (old(self).phase, e) {
                (Phase::FetchingLatest, Event::LatestVersion(Ok(v))) => v@,
                _ => old(self).latest@,
            }),
            final(self).current@ == (match (old(self).phase, e) {
                (Phase::CheckingPath, Event::PathExists(Ok(false))) => zero_version(),
                (Phase::ReadingInstalled, Event::InstalledVersion(Ok(v))) => v@,
                _ => old(self).current@,
            }),
            final(self).install_fresh == (old(self).install_fresh || (old(self).phase
                == Phase::CheckingPath && e matches Event::PathExists(Ok(false)))),
            e matches Event::PathExists(Ok(false)) ==> (old(self).phase == Phase::CheckingPath
                ==> final(self).install_fresh && final(self).current@ == zero_version()),
            e matches Event::InstalledVersion(Ok(v)) ==> (old(self).phase == Phase::ReadingInstalled
                && v@ == old(self).latest@ ==> !(r is Download) && !(r is Fail)),
            e matches Event::InstalledVersion(Ok(v)) ==> (old(self).phase == Phase::ReadingInstalled
                && precedence(v@, old(self).latest@) == Ordering::Greater ==> !(r is Download)
                && !(r is Fail)),
            match (r, event_error(e)) {
                (Action::Fail { message }, Some(m)) => answers(old(self).phase, e)
                    && old(self).phase != Phase::Done && old(self).phase != Phase::Failed
                    ==> message@ == context_of(old(self).phase) + m,
                _ => true,
            },
    {
        if self.phase == Phase::Done || self.phase == Phase::Failed {
            return self.fail(String::from_str("unexpected event: the run is over"));
        }
        match e {
            Event::Located(found) => {
                if self.phase != Phase::Locating {
                    return self.fail(String::from_str("unexpected event: lookup"));
                }
                self.install_path = match found {
                    Some(p) => p,
                    None => default_discord_path(self.home.as_str()),
                };
                self.enter(Phase::FetchingLatest)
            },
            Event::LatestVersion(got) => {
                if self.phase != Phase::FetchingLatest {
                    return self.fail(String::from_str("unexpected event: latest version"));
                }
                match got {
                    Ok(v) => {
                        self.latest = v;
                        self.enter(Phase::CheckingPath)
                    },
                    Err(m) => self.fail(
                        String::from_str("failed to fetch the latest version: ").concat(
                            m.as_str(),
                        ),
                    ),
                }
            },
            Event::PathExists(got) => {
                if self.phase != Phase::CheckingPath {
                    return self.fail(String::from_str("unexpected event: path check"));
                }
                match got {
                    Ok(true) => self.enter(Phase::ReadingInstalled),
                    Ok(false) => {
                        self.install_fresh = true;
                        self.current = Version::zero();
                        self.after_versions()
                    },
                    Err(m) => self.fail(
                        String::from_str("failed to check the install path: ").concat(m.as_str()),
                    ),
                }
            },
            Event::InstalledVersion(got) => {
                if self.phase != Phase::ReadingInstalled {
                    return self.fail(String::from_str("unexpected event: installed version"));
                }
                match got {
                    Ok(v) => {
                        self.current = v;
                        self.after_versions()
                    },
                    Err(m) => self.fail(
                        String::from_str("failed to read the installed version: ").concat(
                            m.as_str(),
                        ),
                    ),
                }
            },
            Event::Downloaded(got) => {
                if self.phase != Phase::Downloading {
                    return self.fail(String::from_str("unexpected event: download"));
                }
                match got {
                    Ok(()) => self.enter(Phase::Extracting),
                    Err(m) => self.fail(
                        String::from_str("failed to download the release: ").concat(m.as_str()),
                    ),
                }
            },
            Event::Extracted(got) => {
                if self.phase != Phase::Extracting {
                    return self.fail(String::from_str("unexpected event: extraction"));
                }
                match got {
                    Ok(()) => if self.install_fresh {
                        self.enter(Phase::Linking)
                    } else {
                        self.enter(Phase::Done)
                    },
                    Err(m) => self.fail(
                        String::from_str("failed to extract the release: ").concat(m.as_str()),
                    ),
                }
            },
            Event::Linked(got) => {
                if self.phase != Phase::Linking {
                    return self.fail(String::from_str("unexpected event: link"));
                }
                match got {
                    Ok(()) => self.enter(Phase::Done),
                    Err(m) => self.fail(
                        String::from_str("failed to create the link: ").concat(m.as_str()),
                    ),
                }
            },
        }
    }

    fn after_versions(&mut self) -> (r: Action)
        requires
            old(self).wf(),
        ensures
            final(self).phase == phase_after_versions(
                old(self).latest@,
                old(self).current@,
                old(self).install_fresh,
            ),
            final(self).home == old(self).home,
            final(self).install_path == old(self).install_path,
            final(self).latest == old(self).latest,
            final(self).current == old(self).current,
            final(self).install_fresh == old(self).install_fresh,
            action_fits(*final(self), r),
    {
        if self.current.precedes(&self.latest) {
            self.enter(Phase::Downloading)
        } else if self.install_fresh {
            self.enter(Phase::Linking)
        } else {
            self.enter(Phase::Done)
        }
    }
}

} // verus!
