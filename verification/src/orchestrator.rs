use vstd::prelude::*;
use vstd::string::*;

use crate::desktop::{DesktopFile, DesktopFileView};
use crate::locator::{
    app_dir_v, desktop_file_path_v, join_path, join_path_v, nextcloud_app_dir,
    nextcloud_desktop_file, parent_dir, parent_dir_v,
};
use crate::strutil::{starts_with_v, str_starts_with};
use crate::versions::{download_file_name, download_url, download_url_v, file_name_v,
    strip_prefix_v, strip_version_prefix};

verus! {

/// The three operations the orchestrator drives.
#[derive(Clone, Copy)]
pub enum Op {
    Install,
    Update,
    Status,
}

/// How a finished operation ended.
pub enum Outcome {
    AlreadyInstalled,
    NotInstalled,
    EnvUnavailable,
    VersionUnknown,
    InstallDirExists { dir: String },
    CreateDirFailed { dir: String },
    DownloadFailed,
    WriteFailed,
    Installed { exec_path: String },
    Updated { version: String },
    Unreadable,
    Corrupted { exec_path: String },
    QueryFailed,
    Banner { line: Option<String> },
}

pub enum OutcomeV {
    AlreadyInstalled,
    NotInstalled,
    EnvUnavailable,
    VersionUnknown,
    InstallDirExists { dir: Seq<char> },
    CreateDirFailed { dir: Seq<char> },
    DownloadFailed,
    WriteFailed,
    Installed { exec_path: Seq<char> },
    Updated { version: Seq<char> },
    Unreadable,
    Corrupted { exec_path: Seq<char> },
    QueryFailed,
    Banner { line: Option<Seq<char>> },
}

impl View for Outcome {
    type V = OutcomeV;

    open spec fn view(&self) -> OutcomeV {
        match self {
            Outcome::AlreadyInstalled => OutcomeV::AlreadyInstalled,
            Outcome::NotInstalled => OutcomeV::NotInstalled,
            Outcome::EnvUnavailable => OutcomeV::EnvUnavailable,
            Outcome::VersionUnknown => OutcomeV::VersionUnknown,
            Outcome::InstallDirExists { dir } => OutcomeV::InstallDirExists { dir: dir@ },
            Outcome::CreateDirFailed { dir } => OutcomeV::CreateDirFailed { dir: dir@ },
            Outcome::DownloadFailed => OutcomeV::DownloadFailed,
            Outcome::WriteFailed => OutcomeV::WriteFailed,
            Outcome::Installed { exec_path } => OutcomeV::Installed { exec_path: exec_path@ },
            Outcome::Updated { version } => OutcomeV::Updated { version: version@ },
            Outcome::Unreadable => OutcomeV::Unreadable,
            Outcome::Corrupted { exec_path } => OutcomeV::Corrupted { exec_path: exec_path@ },
            Outcome::QueryFailed => OutcomeV::QueryFailed,
            Outcome::Banner { line } => OutcomeV::Banner { line: line.deep_view() },
        }
    }
}

impl Outcome {
    /// A field-for-field copy of the outcome.
    pub fn duplicate(&self) -> (r: Outcome)
        ensures
            r@ == self@,
    {
        match self {
            Outcome::AlreadyInstalled => Outcome::AlreadyInstalled,
            Outcome::NotInstalled => Outcome::NotInstalled,
            Outcome::EnvUnavailable => Outcome::EnvUnavailable,
            Outcome::VersionUnknown => Outcome::VersionUnknown,
            Outcome::InstallDirExists { dir } => Outcome::InstallDirExists { dir: dir.clone() },
            Outcome::CreateDirFailed { dir } => Outcome::CreateDirFailed { dir: dir.clone() },
            Outcome::DownloadFailed => Outcome::DownloadFailed,
            Outcome::WriteFailed => Outcome::WriteFailed,
            Outcome::Installed { exec_path } => Outcome::Installed {
                exec_path: exec_path.clone(),
            },
            Outcome::Updated { version } => Outcome::Updated { version: version.clone() },
            Outcome::Unreadable => Outcome::Unreadable,
            Outcome::Corrupted { exec_path } => Outcome::Corrupted {
                exec_path: exec_path.clone(),
            },
            Outcome::QueryFailed => Outcome::QueryFailed,
            Outcome::Banner { line } => Outcome::Banner {
                line: match line {
                    Some(l) => Some(l.clone()),
                    None => None,
                },
            },
        }
    }
}

/// One request the orchestrator makes of its surroundings.
pub enum Action {
    ProbeDescriptor { path: String },
    FetchLatest,
    ProbeInstallDir { path: String },
    CreateInstallDir { path: String },
    Download { url: String, target: String },
    ReadDescriptor { path: String },
    ProbeExec { path: String },
    QueryVersion { exec_path: String },
    WriteDescriptor { path: String, file: DesktopFile },
    Report { outcome: Outcome },
}

pub enum ActionV {
    ProbeDescriptor { path: Seq<char> },
    FetchLatest,
    ProbeInstallDir { path: Seq<char> },
    CreateInstallDir { path: Seq<char> },
    Download { url: Seq<char>, target: Seq<char> },
    ReadDescriptor { path: Seq<char> },
    ProbeExec { path: Seq<char> },
    QueryVersion { exec_path: Seq<char> },
    WriteDescriptor { path: Seq<char>, file: DesktopFileView },
    Report { outcome: OutcomeV },
}

impl View for Action {
    type V = ActionV;

    open spec fn view(&self) -> ActionV {
        match self {
            Action::ProbeDescriptor { path } => ActionV::ProbeDescriptor { path: path@ },
            Action::FetchLatest => ActionV::FetchLatest,
            Action::ProbeInstallDir { path } => ActionV::ProbeInstallDir { path: path@ },
            Action::CreateInstallDir { path } => ActionV::CreateInstallDir { path: path@ },
            Action::Download { url, target } => ActionV::Download { url: url@, target: target@ },
            Action::ReadDescriptor { path } => ActionV::ReadDescriptor { path: path@ },
            Action::ProbeExec { path } => ActionV::ProbeExec { path: path@ },
            Action::QueryVersion { exec_path } => ActionV::QueryVersion {
                exec_path: exec_path@,
            },
            Action::WriteDescriptor { path, file } => ActionV::WriteDescriptor {
                path: path@,
                file: file@,
            },
            Action::Report { outcome } => ActionV::Report { outcome: outcome@ },
        }
    }
}

impl DeepView for Action {
    type V = ActionV;

    open spec fn deep_view(&self) -> ActionV {
        self.view()
    }
}

/// One answer the surroundings hand back.
pub enum Event {
    Probed { exists: bool },
    Latest { version: Option<String> },
    Done { ok: bool },
    Parsed { file: Option<DesktopFile> },
    Output { lines: Option<Vec<String>> },
}

pub enum EventV {
    Probed { exists: bool },
    Latest { version: Option<Seq<char>> },
    Done { ok: bool },
    Parsed { file: Option<DesktopFileView> },
    Output { lines: Option<Seq<Seq<char>>> },
}

impl View for Event {
    type V = EventV;

    open spec fn view(&self) -> EventV {
        match self {
            Event::Probed { exists } => EventV::Probed { exists: *exists },
            Event::Latest { version } => EventV::Latest { version: version.deep_view() },
            Event::Done { ok } => EventV::Done { ok: *ok },
            Event::Parsed { file } => EventV::Parsed { file: file.deep_view() },
            Event::Output { lines } => EventV::Output { lines: lines.deep_view() },
        }
    }
}

/// Where the machine stands between two events.
pub enum Phase {
    Probing,
    Resolving,
    ProbingDir { version: String },
    CreatingDir { version: String },
    Reading { version: String },
    CheckingExec { version: String, file: DesktopFile },
    Downloading { version: String, file: DesktopFile },
    Writing { version: String, file: DesktopFile },
    Querying { exec_path: String },
    Finished { outcome: Outcome },
}

pub enum PhaseV {
    Probing,
    Resolving,
    ProbingDir { version: Seq<char> },
    CreatingDir { version: Seq<char> },
    Reading { version: Seq<char> },
    CheckingExec { version: Seq<char>, file: DesktopFileView },
    Downloading { version: Seq<char>, file: DesktopFileView },
    Writing { version: Seq<char>, file: DesktopFileView },
    Querying { exec_path: Seq<char> },
    Finished { outcome: OutcomeV },
}

impl View for Phase {
    type V = PhaseV;

    open spec fn view(&self) -> PhaseV {
        match self {
            Phase::Probing => PhaseV::Probing,
            Phase::Resolving => PhaseV::Resolving,
            Phase::ProbingDir { version } => PhaseV::ProbingDir { version: version@ },
            Phase::CreatingDir { version } => PhaseV::CreatingDir { version: version@ },
            Phase::Reading { version } => PhaseV::Reading { version: version@ },
            Phase::CheckingExec { version, file } => PhaseV::CheckingExec {
                version: version@,
                file: file@,
            },
            Phase::Downloading { version, file } => PhaseV::Downloading {
                version: version@,
                file: file@,
            },
            Phase::Writing { version, file } => PhaseV::Writing {
                version: version@,
                file: file@,
            },
            Phase::Querying { exec_path } => PhaseV::Querying { exec_path: exec_path@ },
            Phase::Finished { outcome } => PhaseV::Finished { outcome: outcome@ },
        }
    }
}

/// The install/update/status machine: what it still knows and where it stands.
pub struct Orchestrator {
    pub op: Op,
    pub home: Option<String>,
    pub arg: Option<String>,
    pub state: Phase,
}

pub struct OrchestratorV {
    pub op: Op,
    pub home: Option<Seq<char>>,
    pub arg: Option<Seq<char>>,
    pub state: PhaseV,
}

impl View for Orchestrator {
    type V = OrchestratorV;

    open spec fn view(&self) -> OrchestratorV {
        OrchestratorV {
            op: self.op,
            home: self.home.deep_view(),
            arg: self.arg.deep_view(),
            state: self.state@,
        }
    }
}

/// The descriptor a fresh install writes: fixed metadata around the new executable.
pub open spec fn fresh_desktop_v(exec_path: Seq<char>) -> DesktopFileView {
    DesktopFileView {
        name: "Nextcloud"@,
        exec_path,
        icon: "@APPLICATION_EXECUTABLE@"@,
        terminal: false,
        app_type: "Application"@,
        categories: "Utility"@,
    }
}

pub fn fresh_desktop_file(exec_path: String) -> (d: DesktopFile)
    ensures
        d@ == fresh_desktop_v(exec_path@),
{
    DesktopFile::new(
        String::from_str("Nextcloud"),
        exec_path,
        String::from_str("@APPLICATION_EXECUTABLE@"),
        false,
        String::from_str("Application"),
        String::from_str("Utility"),
    )
}

/// An update keeps every field of the old descriptor but the executable path.
pub open spec fn with_exec_v(d: DesktopFileView, exec_path: Seq<char>) -> DesktopFileView {
    DesktopFileView { exec_path, ..d }
}

pub fn with_exec_path(d: &DesktopFile, exec_path: String) -> (r: DesktopFile)
    ensures
        r@ == with_exec_v(d@, exec_path@),
{
    DesktopFile::new(
        d.name.clone(),
        exec_path,
        d.icon.clone(),
        d.terminal,
        d.app_type.clone(),
        d.categories.clone(),
    )
}

pub open spec fn finish_v(m: OrchestratorV, o: OutcomeV) -> (OrchestratorV, ActionV) {
    (
        OrchestratorV { state: PhaseV::Finished { outcome: o }, ..m },
        ActionV::Report { outcome: o },
    )
}

/// Version resolution: an explicit selector wins, with its `v` marker
/// stripped; otherwise the directory client is asked for the latest.
pub open spec fn resolve_v(m: OrchestratorV) -> (OrchestratorV, ActionV) {
    match m.arg {
        Some(v) => after_version_v(m, strip_prefix_v(v)),
        None => (OrchestratorV { state: PhaseV::Resolving, ..m }, ActionV::FetchLatest),
    }
}

/// What follows once the effective version is known.
pub open spec fn after_version_v(m: OrchestratorV, ver: Seq<char>) -> (OrchestratorV, ActionV) {
    match m.op {
        Op::Install => match m.home {
            Some(h) => (
                OrchestratorV { state: PhaseV::ProbingDir { version: ver }, ..m },
                ActionV::ProbeInstallDir { path: app_dir_v(h) },
            ),
            None => finish_v(m, OutcomeV::EnvUnavailable),
        },
        Op::Update => match m.home {
            Some(h) => (
                OrchestratorV { state: PhaseV::Reading { version: ver }, ..m },
                ActionV::ReadDescriptor { path: desktop_file_path_v(h) },
            ),
            None => finish_v(m, OutcomeV::EnvUnavailable),
        },
        Op::Status => finish_v(m, OutcomeV::EnvUnavailable),
    }
}

/// The machine's first step: probe the descriptor where a home directory is
/// known; without one, update and status report at once, install goes on to
/// version resolution like the probe had found nothing.
pub open spec fn start_v(op: Op, home: Option<Seq<char>>, arg: Option<Seq<char>>) -> (
    OrchestratorV,
    ActionV,
) {
    let m = OrchestratorV { op, home, arg, state: PhaseV::Probing };
    match home {
        Some(h) => (m, ActionV::ProbeDescriptor { path: desktop_file_path_v(h) }),
        None => match op {
            Op::Install => resolve_v(m),
            Op::Update => finish_v(m, OutcomeV::NotInstalled),
            Op::Status => finish_v(m, OutcomeV::NotInstalled),
        },
    }
}

pub open spec fn lift_v(r: (OrchestratorV, ActionV)) -> (OrchestratorV, Option<ActionV>) {
    (r.0, Some(r.1))
}

/// One transition: what the event means in the current phase, which phase
/// comes next, and what the surroundings are asked to do. An event that the
/// current phase does not wait for changes nothing.
pub open spec fn step_v(m: OrchestratorV, ev: EventV) -> (OrchestratorV, Option<ActionV>) {
    match m.state {
        PhaseV::Probing => match ev {
            EventV::Probed { exists } => match m.op {
                Op::Install => if exists {
                    lift_v(finish_v(m, OutcomeV::AlreadyInstalled))
                } else {
                    lift_v(resolve_v(m))
                },
                Op::Update => if !exists {
                    lift_v(finish_v(m, OutcomeV::NotInstalled))
                } else {
                    lift_v(resolve_v(m))
                },
                Op::Status => if !exists {
                    lift_v(finish_v(m, OutcomeV::NotInstalled))
                } else {
                    match m.home {
                        Some(h) => (
                            OrchestratorV {
                                state: PhaseV::Reading { version: Seq::empty() },
                                ..m
                            },
                            Some(ActionV::ReadDescriptor { path: desktop_file_path_v(h) }),
                        ),
                        None => lift_v(finish_v(m, OutcomeV::EnvUnavailable)),
                    }
                },
            },
            _ => (m, None),
        },
        PhaseV::Resolving => match ev {
            EventV::Latest { version } => match version {
                None => lift_v(finish_v(m, OutcomeV::VersionUnknown)),
                Some(v) => lift_v(after_version_v(m, strip_prefix_v(v))),
            },
            _ => (m, None),
        },
        PhaseV::ProbingDir { version } => match ev {
            EventV::Probed { exists } => match m.home {
                Some(h) => if exists {
                    lift_v(finish_v(m, OutcomeV::InstallDirExists { dir: app_dir_v(h) }))
                } else {
                    (
                        OrchestratorV { state: PhaseV::CreatingDir { version }, ..m },
                        Some(ActionV::CreateInstallDir { path: app_dir_v(h) }),
                    )
                },
                None => lift_v(finish_v(m, OutcomeV::EnvUnavailable)),
            },
            _ => (m, None),
        },
        PhaseV::CreatingDir { version } => match ev {
            EventV::Done { ok } => match m.home {
                Some(h) => if !ok {
                    lift_v(finish_v(m, OutcomeV::CreateDirFailed { dir: app_dir_v(h) }))
                } else {
                    let target = join_path_v(app_dir_v(h), file_name_v(version));
                    (
                        OrchestratorV {
                            state: PhaseV::Downloading {
                                version,
                                file: fresh_desktop_v(target),
                            },
                            ..m
                        },
                        Some(ActionV::Download { url: download_url_v(version), target }),
                    )
                },
                None => lift_v(finish_v(m, OutcomeV::EnvUnavailable)),
            },
            _ => (m, None),
        },
        PhaseV::Reading { version } => match ev {
            EventV::Parsed { file } => match file {
                None => lift_v(finish_v(m, OutcomeV::Unreadable)),
                Some(d) => (
                    OrchestratorV { state: PhaseV::CheckingExec { version, file: d }, ..m },
                    Some(ActionV::ProbeExec { path: d.exec_path }),
                ),
            },
            _ => (m, None),
        },
        PhaseV::CheckingExec { version, file } => match ev {
            EventV::Probed { exists } => if !exists {
                lift_v(finish_v(m, OutcomeV::Corrupted { exec_path: file.exec_path }))
            } else {
                match m.op {
                    Op::Status => (
                        OrchestratorV {
                            state: PhaseV::Querying { exec_path: file.exec_path },
                            ..m
                        },
                        Some(ActionV::QueryVersion { exec_path: file.exec_path }),
                    ),
                    Op::Update => {
                        let target = join_path_v(
                            parent_dir_v(file.exec_path),
                            file_name_v(version),
                        );
                        (
                            OrchestratorV {
                                state: PhaseV::Downloading {
                                    version,
                                    file: with_exec_v(file, target),
                                },
                                ..m
                            },
                            Some(ActionV::Download { url: download_url_v(version), target }),
                        )
                    },
                    Op::Install => (m, None),
                }
            },
            _ => (m, None),
        },
        PhaseV::Downloading { version, file } => match ev {
            EventV::Done { ok } => if !ok {
                lift_v(finish_v(m, OutcomeV::DownloadFailed))
            } else {
                match m.home {
                    Some(h) => (
                        OrchestratorV { state: PhaseV::Writing { version, file }, ..m },
                        Some(ActionV::WriteDescriptor { path: desktop_file_path_v(h), file }),
                    ),
                    None => lift_v(finish_v(m, OutcomeV::EnvUnavailable)),
                }
            },
            _ => (m, None),
        },
        PhaseV::Writing { version, file } => match ev {
            EventV::Done { ok } => if !ok {
                lift_v(finish_v(m, OutcomeV::WriteFailed))
            } else {
                match m.op {
                    Op::Install => lift_v(
                        finish_v(m, OutcomeV::Installed { exec_path: file.exec_path }),
                    ),
                    Op::Update => lift_v(finish_v(m, OutcomeV::Updated { version })),
                    Op::Status => (m, None),
                }
            },
            _ => (m, None),
        },
        PhaseV::Querying { exec_path } => match ev {
            EventV::Output { lines } => match lines {
                None => lift_v(finish_v(m, OutcomeV::QueryFailed)),
                Some(ls) => lift_v(
                    finish_v(m, OutcomeV::Banner { line: first_version_line_v(ls) }),
                ),
            },
            _ => (m, None),
        },
        PhaseV::Finished { .. } => (m, None),
    }
}

/// The line the installed client announces its version on.
pub open spec fn banner_prefix() -> Seq<char> {
    "Nextcloud version"@
}

/// The first output line that starts with the version banner, if any.
pub open spec fn first_version_line_v(ls: Seq<Seq<char>>) -> Option<Seq<char>>
    decreases ls.len(),
{
    if ls.len() == 0 {
        None
    } else if starts_with_v(ls[0], banner_prefix()) {
        Some(ls[0])
    } else {
        first_version_line_v(ls.drop_first())
    }
}

proof fn lemma_first_version_line_skip(ls: Seq<Seq<char>>, i: int)
    requires
        0 <= i <= ls.len(),
        forall|j: int| 0 <= j < i ==> !starts_with_v(ls[j], banner_prefix()),
    ensures
        first_version_line_v(ls.skip(i)) == first_version_line_v(ls),
    decreases i,
{
    if i > 0 {
        lemma_first_version_line_skip(ls, i - 1);
        let t = ls.skip(i - 1);
        assert(t[0] == ls[i - 1]);
        assert(!starts_with_v(t[0], banner_prefix()));
        assert(t.drop_first() =~= ls.skip(i));
    } else {
        assert(ls.skip(0) =~= ls);
    }
}

pub fn first_version_line(lines: &Vec<String>) -> (r: Option<String>)
    ensures
        r.deep_view() == first_version_line_v(lines.deep_view()),
{
    let mut i: usize = 0;
    while i < lines.len()
        invariant
            i <= lines.len(),
            forall|j: int| 0 <= j < i ==> !starts_with_v(
                lines.deep_view()[j],
                banner_prefix(),
            ),
        decreases lines.len() - i,
    {
        if str_starts_with(lines[i].as_str(), "Nextcloud version") {
            proof {
                let ls = lines.deep_view();
                lemma_first_version_line_skip(ls, i as int);
                assert(ls.skip(i as int)[0] == ls[i as int]);
            }
            return Some(lines[i].clone());
        }
        proof {
            assert(lines.deep_view()[i as int] == lines@[i as int]@);
        }
        i = i + 1;
    }
    proof {
        let ls = lines.deep_view();
        lemma_first_version_line_skip(ls, ls.len() as int);
        assert(ls.skip(ls.len() as int) =~= Seq::<Seq<char>>::empty());
    }
    None
}

fn finish(m: Orchestrator, o: Outcome) -> (r: (Orchestrator, Action))
    ensures
        r.0@ == finish_v(m@, o@).0,
        r.1@ == finish_v(m@, o@).1,
{
    let rep = o.duplicate();
    (
        Orchestrator { state: Phase::Finished { outcome: o }, ..m },
        Action::Report { outcome: rep },
    )
}

fn after_version(m: Orchestrator, ver: String) -> (r: (Orchestrator, Action))
    ensures
        r.0@ == after_version_v(m@, ver@).0,
        r.1@ == after_version_v(m@, ver@).1,
{
    match m.op {
        Op::Install => match &m.home {
            Some(h) => {
                let dir = nextcloud_app_dir(h.as_str());
                (
                    Orchestrator { state: Phase::ProbingDir { version: ver }, ..m },
                    Action::ProbeInstallDir { path: dir },
                )
            },
            None => finish(m, Outcome::EnvUnavailable),
        },
        Op::Update => match &m.home {
            Some(h) => {
                let path = nextcloud_desktop_file(h.as_str());
                (
                    Orchestrator { state: Phase::Reading { version: ver }, ..m },
                    Action::ReadDescriptor { path },
                )
            },
            None => finish(m, Outcome::EnvUnavailable),
        },
        Op::Status => finish(m, Outcome::EnvUnavailable),
    }
}

fn resolve(m: Orchestrator) -> (r: (Orchestrator, Action))
    ensures
        r.0@ == resolve_v(m@).0,
        r.1@ == resolve_v(m@).1,
{
    match &m.arg {
        Some(v) => {
            let ver = strip_version_prefix(v.as_str());
            after_version(m, ver)
        },
        None => (Orchestrator { state: Phase::Resolving, ..m }, Action::FetchLatest),
    }
}

impl Orchestrator {
    /// A machine at its first action, for one operation under one home
    /// directory and one optional version selector.
    pub fn start(op: Op, home: Option<String>, arg: Option<String>) -> (r: (Orchestrator, Action))
        ensures
            r.0@ == start_v(op, home.deep_view(), arg.deep_view()).0,
            r.1@ == start_v(op, home.deep_view(), arg.deep_view()).1,
    {
        let m = Orchestrator { op, home, arg, state: Phase::Probing };
        match &m.home {
            Some(h) => {
                let path = nextcloud_desktop_file(h.as_str());
                (m, Action::ProbeDescriptor { path })
            },
            None => match op {
                Op::Install => resolve(m),
                Op::Update => finish(m, Outcome::NotInstalled),
                Op::Status => finish(m, Outcome::NotInstalled),
            },
        }
    }

    /// One transition of the machine on the event the surroundings answered
    /// its last action with.
    pub fn step(self, ev: Event) -> (r: (Orchestrator, Option<Action>))
        ensures
            r.0@ == step_v(self@, ev@).0,
            r.1.deep_view() == step_v(self@, ev@).1,
    {
        let Orchestrator { op, home, arg, state } = self;
        match state {
            Phase::Probing => match ev {
                Event::Probed { exists } => {
                    let m = Orchestrator { op, home, arg, state: Phase::Probing };
                    match op {
                        Op::Install => if exists {
                            let (m2, a) = finish(m, Outcome::AlreadyInstalled);
                            (m2, Some(a))
                        } else {
                            let (m2, a) = resolve(m);
                            (m2, Some(a))
                        },
                        Op::Update => if !exists {
                            let (m2, a) = finish(m, Outcome::NotInstalled);
                            (m2, Some(a))
                        } else {
                            let (m2, a) = resolve(m);
                            (m2, Some(a))
                        },
                        Op::Status => if !exists {
                            let (m2, a) = finish(m, Outcome::NotInstalled);
                            (m2, Some(a))
                        } else {
                            match &m.home {
                                Some(h) => {
                                    let path = nextcloud_desktop_file(h.as_str());
                                    (
                                        Orchestrator {
                                            state: Phase::Reading { version: String::new() },
                                            ..m
                                        },
                                        Some(Action::ReadDescriptor { path }),
                                    )
                                },
                                None => {
                                    let (m2, a) = finish(m, Outcome::EnvUnavailable);
                                    (m2, Some(a))
                                },
                            }
                        },
                    }
                },
                _ => (Orchestrator { op, home, arg, state: Phase::Probing }, None),
            },
            Phase::Resolving => match ev {
                Event::Latest { version } => {
                    let m = Orchestrator { op, home, arg, state: Phase::Resolving };
                    match version {
                        None => {
                            let (m2, a) = finish(m, Outcome::VersionUnknown);
                            (m2, Some(a))
                        },
                        Some(v) => {
                            let ver = strip_version_prefix(v.as_str());
                            let (m2, a) = after_version(m, ver);
                            (m2, Some(a))
                        },
                    }
                },
                _ => (Orchestrator { op, home, arg, state: Phase::Resolving }, None),
            },
            Phase::ProbingDir { version } => match ev {
                Event::Probed { exists } => {
                    let m = Orchestrator {
                        op,
                        home,
                        arg,
                        state: Phase::ProbingDir { version: version.clone() },
                    };
                    match &m.home {
                        Some(h) => if exists {
                            let dir = nextcloud_app_dir(h.as_str());
                            let (m2, a) = finish(m, Outcome::InstallDirExists { dir });
                            (m2, Some(a))
                        } else {
                            let dir = nextcloud_app_dir(h.as_str());
                            (
                                Orchestrator { state: Phase::CreatingDir { version }, ..m },
                                Some(Action::CreateInstallDir { path: dir }),
                            )
                        },
                        None => {
                            let (m2, a) = finish(m, Outcome::EnvUnavailable);
                            (m2, Some(a))
                        },
                    }
                },
                _ => (
                    Orchestrator { op, home, arg, state: Phase::ProbingDir { version } },
                    None,
                ),
            },
            Phase::CreatingDir { version } => match ev {
                Event::Done { ok } => {
                    let m = Orchestrator {
                        op,
                        home,
                        arg,
                        state: Phase::CreatingDir { version: version.clone() },
                    };
                    match &m.home {
                        Some(h) => if !ok {
                            let dir = nextcloud_app_dir(h.as_str());
                            let (m2, a) = finish(m, Outcome::CreateDirFailed { dir });
                            (m2, Some(a))
                        } else {
                            let dir = nextcloud_app_dir(h.as_str());
                            let name = download_file_name(version.as_str());
                            let target = join_path(dir.as_str(), name.as_str());
                            let url = download_url(version.as_str());
                            let file = fresh_desktop_file(target.clone());
                            (
                                Orchestrator {
                                    state: Phase::Downloading { version, file },
                                    ..m
                                },
                                Some(Action::Download { url, target }),
                            )
                        },
                        None => {
                            let (m2, a) = finish(m, Outcome::EnvUnavailable);
                            (m2, Some(a))
                        },
                    }
                },
                _ => (
                    Orchestrator { op, home, arg, state: Phase::CreatingDir { version } },
                    None,
                ),
            },
            Phase::Reading { version } => match ev {
                Event::Parsed { file } => {
                    let m = Orchestrator {
                        op,
                        home,
                        arg,
                        state: Phase::Reading { version: version.clone() },
                    };
                    match file {
                        None => {
                            let (m2, a) = finish(m, Outcome::Unreadable);
                            (m2, Some(a))
                        },
                        Some(d) => {
                            let probe = d.exec_path.clone();
                            (
                                Orchestrator {
                                    state: Phase::CheckingExec { version, file: d },
                                    ..m
                                },
                                Some(Action::ProbeExec { path: probe }),
                            )
                        },
                    }
                },
                _ => (Orchestrator { op, home, arg, state: Phase::Reading { version } }, None),
            },
            Phase::CheckingExec { version, file } => match ev {
                Event::Probed { exists } => {
                    let m = Orchestrator {
                        op,
                        home,
                        arg,
                        state: Phase::CheckingExec {
                            version: version.clone(),
                            file: file.duplicate(),
                        },
                    };
                    if !exists {
                        let (m2, a) = finish(
                            m,
                            Outcome::Corrupted { exec_path: file.exec_path },
                        );
                        (m2, Some(a))
                    } else {
                        match op {
                            Op::Status => {
                                let q = file.exec_path.clone();
                                (
                                    Orchestrator {
                                        state: Phase::Querying { exec_path: file.exec_path },
                                        ..m
                                    },
                                    Some(Action::QueryVersion { exec_path: q }),
                                )
                            },
                            Op::Update => {
                                let parent = parent_dir(file.exec_path.as_str());
                                let name = download_file_name(version.as_str());
                                let target = join_path(parent.as_str(), name.as_str());
                                let url = download_url(version.as_str());
                                let new_file = with_exec_path(&file, target.clone());
                                (
                                    Orchestrator {
                                        state: Phase::Downloading { version, file: new_file },
                                        ..m
                                    },
                                    Some(Action::Download { url, target }),
                                )
                            },
                            Op::Install => (m, None),
                        }
                    }
                },
                _ => (
                    Orchestrator { op, home, arg, state: Phase::CheckingExec { version, file } },
                    None,
                ),
            },
            Phase::Downloading { version, file } => match ev {
                Event::Done { ok } => {
                    let m = Orchestrator {
                        op,
                        home,
                        arg,
                        state: Phase::Downloading {
                            version: version.clone(),
                            file: file.duplicate(),
                        },
                    };
                    if !ok {
                        let (m2, a) = finish(m, Outcome::DownloadFailed);
                        (m2, Some(a))
                    } else {
                        match &m.home {
                            Some(h) => {
                                let path = nextcloud_desktop_file(h.as_str());
                                let written = file.duplicate();
                                (
                                    Orchestrator {
                                        state: Phase::Writing { version, file },
                                        ..m
                                    },
                                    Some(Action::WriteDescriptor { path, file: written }),
                                )
                            },
                            None => {
                                let (m2, a) = finish(m, Outcome::EnvUnavailable);
                                (m2, Some(a))
                            },
                        }
                    }
                },
                _ => (
                    Orchestrator { op, home, arg, state: Phase::Downloading { version, file } },
                    None,
                ),
            },
            Phase::Writing { version, file } => match ev {
                Event::Done { ok } => {
                    let m = Orchestrator {
                        op,
                        home,
                        arg,
                        state: Phase::Writing {
                            version: version.clone(),
                            file: file.duplicate(),
                        },
                    };
                    if !ok {
                        let (m2, a) = finish(m, Outcome::WriteFailed);
                        (m2, Some(a))
                    } else {
                        match op {
                            Op::Install => {
                                let (m2, a) = finish(
                                    m,
                                    Outcome::Installed { exec_path: file.exec_path },
                                );
                                (m2, Some(a))
                            },
                            Op::Update => {
                                let (m2, a) = finish(m, Outcome::Updated { version });
                                (m2, Some(a))
                            },
                            Op::Status => (m, None),
                        }
                    }
                },
                _ => (
                    Orchestrator { op, home, arg, state: Phase::Writing { version, file } },
                    None,
                ),
            },
            Phase::Querying { exec_path } => match ev {
                Event::Output { lines } => {
                    let m = Orchestrator {
                        op,
                        home,
                        arg,
                        state: Phase::Querying { exec_path: exec_path.clone() },
                    };
                    match lines {
                        None => {
                            let (m2, a) = finish(m, Outcome::QueryFailed);
                            (m2, Some(a))
                        },
                        Some(ls) => {
                            let line = first_version_line(&ls);
                            let (m2, a) = finish(m, Outcome::Banner { line });
                            (m2, Some(a))
                        },
                    }
                },
                _ => (
                    Orchestrator { op, home, arg, state: Phase::Querying { exec_path } },
                    None,
                ),
            },
            Phase::Finished { outcome } => (
                Orchestrator { op, home, arg, state: Phase::Finished { outcome } },
                None,
            ),
        }
    }
}

pub open spec fn act_seq(a: Option<ActionV>) -> Seq<ActionV> {
    match a {
        Some(x) => seq![x],
        None => Seq::empty(),
    }
}

/// Every action a machine emits while consuming the given events, in order.
pub open spec fn run_v(m: OrchestratorV, evs: Seq<EventV>) -> Seq<ActionV>
    decreases evs.len(),
{
    if evs.len() == 0 {
        Seq::empty()
    } else {
        act_seq(step_v(m, evs[0]).1) + run_v(step_v(m, evs[0]).0, evs.drop_first())
    }
}

/// Every action of a whole session: the starting action, then everything the
/// events drive the machine to do.
pub open spec fn session_v(
    op: Op,
    home: Option<Seq<char>>,
    arg: Option<Seq<char>>,
    evs: Seq<EventV>,
) -> Seq<ActionV> {
    seq![start_v(op, home, arg).1] + run_v(start_v(op, home, arg).0, evs)
}

/// The actions that mutate the filesystem.
pub open spec fn writes_filesystem(a: ActionV) -> bool {
    ||| a is CreateInstallDir
    ||| a is Download
    ||| a is WriteDescriptor
}

/// The actions that go out to the network.
pub open spec fn uses_network(a: ActionV) -> bool {
    ||| a is FetchLatest
    ||| a is Download
}

/// A finished machine never acts again, whatever events still arrive.
pub proof fn lemma_finished_silent(m: OrchestratorV, evs: Seq<EventV>)
    requires
        m.state is Finished,
    ensures
        run_v(m, evs) =~= Seq::<ActionV>::empty(),
    decreases evs.len(),
{
    if evs.len() > 0 {
        assert(step_v(m, evs[0]) == (m, None::<ActionV>));
        lemma_finished_silent(m, evs.drop_first());
    }
}

/// Law: an install that finds a descriptor already present only probes and
/// reports; whatever else happens afterwards, the session performs no
/// filesystem write and no network call.
pub proof fn lemma_install_already_installed(
    home: Seq<char>,
    arg: Option<Seq<char>>,
    evs: Seq<EventV>,
)
    ensures
        ({
            let acts = session_v(
                Op::Install,
                Some(home),
                arg,
                seq![EventV::Probed { exists: true }] + evs,
            );
            &&& acts =~= seq![
                ActionV::ProbeDescriptor { path: desktop_file_path_v(home) },
                ActionV::Report { outcome: OutcomeV::AlreadyInstalled },
            ]
            &&& forall|i: int|
                0 <= i < acts.len() ==> !writes_filesystem(acts[i]) && !uses_network(acts[i])
        }),
{
    let e1 = EventV::Probed { exists: true };
    let t0 = seq![e1] + evs;
    let (m0, a0) = start_v(Op::Install, Some(home), arg);
    assert(t0[0] == e1);
    assert(t0.drop_first() =~= evs);
    let (m1, a1) = step_v(m0, e1);
    assert(m1.state is Finished);
    lemma_finished_silent(m1, evs);
    let acts = session_v(Op::Install, Some(home), arg, t0);
    assert(acts =~= seq![
        ActionV::ProbeDescriptor { path: desktop_file_path_v(home) },
        ActionV::Report { outcome: OutcomeV::AlreadyInstalled },
    ]);
}

/// Law: an install with an explicit version whose install directory already
/// exists aborts there: the session downloads nothing and never touches the
/// network, whatever else happens afterwards.
pub proof fn lemma_install_dir_exists(home: Seq<char>, ver: Seq<char>, evs: Seq<EventV>)
    ensures
        ({
            let acts = session_v(
                Op::Install,
                Some(home),
                Some(ver),
                seq![EventV::Probed { exists: false }, EventV::Probed { exists: true }] + evs,
            );
            &&& acts =~= seq![
                ActionV::ProbeDescriptor { path: desktop_file_path_v(home) },
                ActionV::ProbeInstallDir { path: app_dir_v(home) },
                ActionV::Report { outcome: OutcomeV::InstallDirExists { dir: app_dir_v(home) } },
            ]
            &&& forall|i: int|
                0 <= i < acts.len() ==> !writes_filesystem(acts[i]) && !uses_network(acts[i])
        }),
{
    let e1 = EventV::Probed { exists: false };
    let e2 = EventV::Probed { exists: true };
    let t0 = seq![e1, e2] + evs;
    let t1 = seq![e2] + evs;
    let (m0, a0) = start_v(Op::Install, Some(home), Some(ver));
    assert(t0[0] == e1);
    assert(t0.drop_first() =~= t1);
    let (m1, a1) = step_v(m0, e1);
    assert(t1[0] == e2);
    assert(t1.drop_first() =~= evs);
    let (m2, a2) = step_v(m1, e2);
    assert(m2.state is Finished);
    lemma_finished_silent(m2, evs);
    assert(run_v(m1, t1) == act_seq(a2) + run_v(m2, evs));
    assert(run_v(m0, t0) == act_seq(a1) + run_v(m1, t1));
    let acts = session_v(Op::Install, Some(home), Some(ver), t0);
    assert(acts =~= seq![
        ActionV::ProbeDescriptor { path: desktop_file_path_v(home) },
        ActionV::ProbeInstallDir { path: app_dir_v(home) },
        ActionV::Report { outcome: OutcomeV::InstallDirExists { dir: app_dir_v(home) } },
    ]);
}

/// Law: an update that finds no descriptor reports "not installed" and the
/// session performs no network call and no filesystem write.
pub proof fn lemma_update_not_installed(home: Seq<char>, arg: Option<Seq<char>>, evs: Seq<EventV>)
    ensures
        ({
            let acts = session_v(
                Op::Update,
                Some(home),
                arg,
                seq![EventV::Probed { exists: false }] + evs,
            );
            &&& acts =~= seq![
                ActionV::ProbeDescriptor { path: desktop_file_path_v(home) },
                ActionV::Report { outcome: OutcomeV::NotInstalled },
            ]
            &&& forall|i: int|
                0 <= i < acts.len() ==> !writes_filesystem(acts[i]) && !uses_network(acts[i])
        }),
{
    let e1 = EventV::Probed { exists: false };
    let t0 = seq![e1] + evs;
    let (m0, a0) = start_v(Op::Update, Some(home), arg);
    assert(t0[0] == e1);
    assert(t0.drop_first() =~= evs);
    let (m1, a1) = step_v(m0, e1);
    assert(m1.state is Finished);
    lemma_finished_silent(m1, evs);
    let acts = session_v(Op::Update, Some(home), arg, t0);
    assert(acts =~= seq![
        ActionV::ProbeDescriptor { path: desktop_file_path_v(home) },
        ActionV::Report { outcome: OutcomeV::NotInstalled },
    ]);
}

/// Law: an update with an explicit version whose descriptor points at a
/// missing executable reports corruption and the session downloads nothing
/// and writes nothing.
pub proof fn lemma_update_corrupted(
    home: Seq<char>,
    ver: Seq<char>,
    d: DesktopFileView,
    evs: Seq<EventV>,
)
    ensures
        ({
            let acts = session_v(
                Op::Update,
                Some(home),
                Some(ver),
                seq![
                    EventV::Probed { exists: true },
                    EventV::Parsed { file: Some(d) },
                    EventV::Probed { exists: false },
                ] + evs,
            );
            &&& acts =~= seq![
                ActionV::ProbeDescriptor { path: desktop_file_path_v(home) },
                ActionV::ReadDescriptor { path: desktop_file_path_v(home) },
                ActionV::ProbeExec { path: d.exec_path },
                ActionV::Report { outcome: OutcomeV::Corrupted { exec_path: d.exec_path } },
            ]
            &&& forall|i: int|
                0 <= i < acts.len() ==> !writes_filesystem(acts[i]) && !(acts[i] is Download)
        }),
{
    let e1 = EventV::Probed { exists: true };
    let e2 = EventV::Parsed { file: Some(d) };
    let e3 = EventV::Probed { exists: false };
    let t0 = seq![e1, e2, e3] + evs;
    let t1 = seq![e2, e3] + evs;
    let t2 = seq![e3] + evs;
    let (m0, a0) = start_v(Op::Update, Some(home), Some(ver));
    assert(t0[0] == e1);
    assert(t0.drop_first() =~= t1);
    let (m1, a1) = step_v(m0, e1);
    assert(t1[0] == e2);
    assert(t1.drop_first() =~= t2);
    let (m2, a2) = step_v(m1, e2);
    assert(t2[0] == e3);
    assert(t2.drop_first() =~= evs);
    let (m3, a3) = step_v(m2, e3);
    assert(m3.state is Finished);
    lemma_finished_silent(m3, evs);
    assert(run_v(m2, t2) == act_seq(a3) + run_v(m3, evs));
    assert(run_v(m1, t1) == act_seq(a2) + run_v(m2, t2));
    assert(run_v(m0, t0) == act_seq(a1) + run_v(m1, t1));
    let acts = session_v(Op::Update, Some(home), Some(ver), t0);
    assert(acts =~= seq![
        ActionV::ProbeDescriptor { path: desktop_file_path_v(home) },
        ActionV::ReadDescriptor { path: desktop_file_path_v(home) },
        ActionV::ProbeExec { path: d.exec_path },
        ActionV::Report { outcome: OutcomeV::Corrupted { exec_path: d.exec_path } },
    ]);
}

/// Law: an update without a version argument whose descriptor points at a
/// missing executable asks the directory client for the latest version but
/// reports corruption before any download, and the session writes nothing.
pub proof fn lemma_update_corrupted_latest(
    home: Seq<char>,
    latest: Seq<char>,
    d: DesktopFileView,
    evs: Seq<EventV>,
)
    ensures
        ({
            let acts = session_v(
                Op::Update,
                Some(home),
                None,
                seq![
                    EventV::Probed { exists: true },
                    EventV::Latest { version: Some(latest) },
                    EventV::Parsed { file: Some(d) },
                    EventV::Probed { exists: false },
                ] + evs,
            );
            &&& acts =~= seq![
                ActionV::ProbeDescriptor { path: desktop_file_path_v(home) },
                ActionV::FetchLatest,
                ActionV::ReadDescriptor { path: desktop_file_path_v(home) },
                ActionV::ProbeExec { path: d.exec_path },
                ActionV::Report { outcome: OutcomeV::Corrupted { exec_path: d.exec_path } },
            ]
            &&& forall|i: int|
                0 <= i < acts.len() ==> !writes_filesystem(acts[i]) && !(acts[i] is Download)
        }),
{
    let e1 = EventV::Probed { exists: true };
    let e2 = EventV::Latest { version: Some(latest) };
    let e3 = EventV::Parsed { file: Some(d) };
    let e4 = EventV::Probed { exists: false };
    let t0 = seq![e1, e2, e3, e4] + evs;
    let t1 = seq![e2, e3, e4] + evs;
    let t2 = seq![e3, e4] + evs;
    let t3 = seq![e4] + evs;
    let (m0, a0) = start_v(Op::Update, Some(home), None);
    assert(t0[0] == e1);
    assert(t0.drop_first() =~= t1);
    let (m1, a1) = step_v(m0, e1);
    assert(t1[0] == e2);
    assert(t1.drop_first() =~= t2);
    let (m2, a2) = step_v(m1, e2);
    assert(t2[0] == e3);
    assert(t2.drop_first() =~= t3);
    let (m3, a3) = step_v(m2, e3);
    assert(t3[0] == e4);
    assert(t3.drop_first() =~= evs);
    let (m4, a4) = step_v(m3, e4);
    assert(m4.state is Finished);
    lemma_finished_silent(m4, evs);
    assert(run_v(m3, t3) == act_seq(a4) + run_v(m4, evs));
    assert(run_v(m2, t2) == act_seq(a3) + run_v(m3, t3));
    assert(run_v(m1, t1) == act_seq(a2) + run_v(m2, t2));
    assert(run_v(m0, t0) == act_seq(a1) + run_v(m1, t1));
    let acts = session_v(Op::Update, Some(home), None, t0);
    assert(acts =~= seq![
        ActionV::ProbeDescriptor { path: desktop_file_path_v(home) },
        ActionV::FetchLatest,
        ActionV::ReadDescriptor { path: desktop_file_path_v(home) },
        ActionV::ProbeExec { path: d.exec_path },
        ActionV::Report { outcome: OutcomeV::Corrupted { exec_path: d.exec_path } },
    ]);
}

/// Law: a fresh install driven to success creates the install directory,
/// downloads exactly the artifact the effective version names, and writes a
/// descriptor with fixed metadata whose executable is that artifact.
pub proof fn lemma_install_success(home: Seq<char>, ver: Seq<char>, evs: Seq<EventV>)
    ensures
        ({
            let sv = strip_prefix_v(ver);
            let target = join_path_v(app_dir_v(home), file_name_v(sv));
            let acts = session_v(
                Op::Install,
                Some(home),
                Some(ver),
                seq![
                    EventV::Probed { exists: false },
                    EventV::Probed { exists: false },
                    EventV::Done { ok: true },
                    EventV::Done { ok: true },
                    EventV::Done { ok: true },
                ] + evs,
            );
            acts =~= seq![
                ActionV::ProbeDescriptor { path: desktop_file_path_v(home) },
                ActionV::ProbeInstallDir { path: app_dir_v(home) },
                ActionV::CreateInstallDir { path: app_dir_v(home) },
                ActionV::Download { url: download_url_v(sv), target },
                ActionV::WriteDescriptor {
                    path: desktop_file_path_v(home),
                    file: fresh_desktop_v(target),
                },
                ActionV::Report { outcome: OutcomeV::Installed { exec_path: target } },
            ]
        }),
{
    let sv = strip_prefix_v(ver);
    let target = join_path_v(app_dir_v(home), file_name_v(sv));
    let e1 = EventV::Probed { exists: false };
    let e2 = EventV::Probed { exists: false };
    let e3 = EventV::Done { ok: true };
    let e4 = EventV::Done { ok: true };
    let e5 = EventV::Done { ok: true };
    let t0 = seq![e1, e2, e3, e4, e5] + evs;
    let t1 = seq![e2, e3, e4, e5] + evs;
    let t2 = seq![e3, e4, e5] + evs;
    let t3 = seq![e4, e5] + evs;
    let t4 = seq![e5] + evs;
    let (m0, a0) = start_v(Op::Install, Some(home), Some(ver));
    assert(t0[0] == e1);
    assert(t0.drop_first() =~= t1);
    let (m1, a1) = step_v(m0, e1);
    assert(t1[0] == e2);
    assert(t1.drop_first() =~= t2);
    let (m2, a2) = step_v(m1, e2);
    assert(t2[0] == e3);
    assert(t2.drop_first() =~= t3);
    let (m3, a3) = step_v(m2, e3);
    assert(t3[0] == e4);
    assert(t3.drop_first() =~= t4);
    let (m4, a4) = step_v(m3, e4);
    assert(t4[0] == e5);
    assert(t4.drop_first() =~= evs);
    let (m5, a5) = step_v(m4, e5);
    assert(m5.state is Finished);
    lemma_finished_silent(m5, evs);
    assert(run_v(m4, t4) == act_seq(a5) + run_v(m5, evs));
    assert(run_v(m3, t3) == act_seq(a4) + run_v(m4, t4));
    assert(run_v(m2, t2) == act_seq(a3) + run_v(m3, t3));
    assert(run_v(m1, t1) == act_seq(a2) + run_v(m2, t2));
    assert(run_v(m0, t0) == act_seq(a1) + run_v(m1, t1));
    let acts = session_v(Op::Install, Some(home), Some(ver), t0);
    assert(acts =~= seq![
        ActionV::ProbeDescriptor { path: desktop_file_path_v(home) },
        ActionV::ProbeInstallDir { path: app_dir_v(home) },
        ActionV::CreateInstallDir { path: app_dir_v(home) },
        ActionV::Download { url: download_url_v(sv), target },
        ActionV::WriteDescriptor {
            path: desktop_file_path_v(home),
            file: fresh_desktop_v(target),
        },
        ActionV::Report { outcome: OutcomeV::Installed { exec_path: target } },
    ]);
}

/// Law: an update without a version argument, driven to success on the
/// latest version the directory client names, downloads into the directory
/// of the old executable and rewrites the descriptor with only the
/// executable path changed.
pub proof fn lemma_update_success(
    home: Seq<char>,
    latest: Seq<char>,
    d: DesktopFileView,
    evs: Seq<EventV>,
)
    ensures
        ({
            let sv = strip_prefix_v(latest);
            let target = join_path_v(parent_dir_v(d.exec_path), file_name_v(sv));
            let acts = session_v(
                Op::Update,
                Some(home),
                None,
                seq![
                    EventV::Probed { exists: true },
                    EventV::Latest { version: Some(latest) },
                    EventV::Parsed { file: Some(d) },
                    EventV::Probed { exists: true },
                    EventV::Done { ok: true },
                    EventV::Done { ok: true },
                ] + evs,
            );
            acts =~= seq![
                ActionV::ProbeDescriptor { path: desktop_file_path_v(home) },
                ActionV::FetchLatest,
                ActionV::ReadDescriptor { path: desktop_file_path_v(home) },
                ActionV::ProbeExec { path: d.exec_path },
                ActionV::Download { url: download_url_v(sv), target },
                ActionV::WriteDescriptor {
                    path: desktop_file_path_v(home),
                    file: with_exec_v(d, target),
                },
                ActionV::Report { outcome: OutcomeV::Updated { version: sv } },
            ]
        }),
{
    let sv = strip_prefix_v(latest);
    let target = join_path_v(parent_dir_v(d.exec_path), file_name_v(sv));
    let e1 = EventV::Probed { exists: true };
    let e2 = EventV::Latest { version: Some(latest) };
    let e3 = EventV::Parsed { file: Some(d) };
    let e4 = EventV::Probed { exists: true };
    let e5 = EventV::Done { ok: true };
    let e6 = EventV::Done { ok: true };
    let t0 = seq![e1, e2, e3, e4, e5, e6] + evs;
    let t1 = seq![e2, e3, e4, e5, e6] + evs;
    let t2 = seq![e3, e4, e5, e6] + evs;
    let t3 = seq![e4, e5, e6] + evs;
    let t4 = seq![e5, e6] + evs;
    let t5 = seq![e6] + evs;
    let (m0, a0) = start_v(Op::Update, Some(home), None);
    assert(t0[0] == e1);
    assert(t0.drop_first() =~= t1);
    let (m1, a1) = step_v(m0, e1);
    assert(t1[0] == e2);
    assert(t1.drop_first() =~= t2);
    let (m2, a2) = step_v(m1, e2);
    assert(t2[0] == e3);
    assert(t2.drop_first() =~= t3);
    let (m3, a3) = step_v(m2, e3);
    assert(t3[0] == e4);
    assert(t3.drop_first() =~= t4);
    let (m4, a4) = step_v(m3, e4);
    assert(t4[0] == e5);
    assert(t4.drop_first() =~= t5);
    let (m5, a5) = step_v(m4, e5);
    assert(t5[0] == e6);
    assert(t5.drop_first() =~= evs);
    let (m6, a6) = step_v(m5, e6);
    assert(m6.state is Finished);
    lemma_finished_silent(m6, evs);
    assert(run_v(m5, t5) == act_seq(a6) + run_v(m6, evs));
    assert(run_v(m4, t4) == act_seq(a5) + run_v(m5, t5));
    assert(run_v(m3, t3) == act_seq(a4) + run_v(m4, t4));
    assert(run_v(m2, t2) == act_seq(a3) + run_v(m3, t3));
    assert(run_v(m1, t1) == act_seq(a2) + run_v(m2, t2));
    assert(run_v(m0, t0) == act_seq(a1) + run_v(m1, t1));
    let acts = session_v(Op::Update, Some(home), None, t0);
    assert(acts =~= seq![
        ActionV::ProbeDescriptor { path: desktop_file_path_v(home) },
        ActionV::FetchLatest,
        ActionV::ReadDescriptor { path: desktop_file_path_v(home) },
        ActionV::ProbeExec { path: d.exec_path },
        ActionV::Download { url: download_url_v(sv), target },
        ActionV::WriteDescriptor {
            path: desktop_file_path_v(home),
            file: with_exec_v(d, target),
        },
        ActionV::Report { outcome: OutcomeV::Updated { version: sv } },
    ]);
}

} // verus!
