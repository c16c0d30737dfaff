//! Provisioning of the enhancement runtime: what has to be laid down for an
//! installation, step by step, and what a failed step means.

use crate::config::UpdateChannel;
use crate::game::env::{Env, EnvView};
use crate::game::ffnx_installation::{ffnx_from_directory, marker_name, version_url, FfnxInstallation, FfnxInstallationView};
use crate::github::LatestRelease;
use crate::game::input_config::{default_joystick, default_keyboard, input_config_text, InputConfig};
use crate::game::installation::{Edition, Installation, InstallationView, Platform, Publisher, Version};
use crate::paths::{join_path, joined_path};
use crate::pe_format::{IoErrorKind, PeError, VersionInfo};
use crate::ui::{TextLevel, MESSAGE_INSTALL_IN_PROGRESS};
use crate::provision::{download_spec, download_zip, Download, DownloadView, ProvisionError};
use vstd::prelude::*;

verus! {

/// Why the runtime could not be provisioned.
#[derive(Clone, Copy, Debug)]
pub enum InstallError {
    /// An archive could not be fetched or unpacked.
    ProvisionError(ProvisionError),
    /// A file could not be laid down, or what was installed is no runtime.
    IOError(IoErrorKind),
    /// An executable could not be read or patched.
    PeFormatError(PeError),
    /// The runtime's settings could not be read or written.
    TomlFileError,
}

/// What decides whether a step is due.
pub enum Guard {
    /// The step is always due.
    Always,
    /// The step is due where no file lies at the path.
    Missing(String),
    /// The step is due where no file lies at the path, and where the file
    /// that lies there names the given product in its version metadata.
    MissingOrProduct(String, String),
    /// The step is due where the step before it was carried out.
    AfterSuccess,
    /// The step is due where the step before it was tried and failed.
    AfterFailure,
}

/// Something that is reported and changes nothing.
#[derive(Clone, Copy, Debug, PartialEq, Eq, Structural)]
pub enum Notice {
    /// No upgrade patch is known for the executable of this installation.
    CannotDetectLanguage,
}

/// What a step does.
pub enum Task {
    /// Switches the runtime's overlays off in its settings file.
    ConfigureRuntime(String),
    /// Puts the program's launcher in the place of the game's.
    ReplaceLauncher,
    /// Copies the first file to the second path.
    CopyFile(String, String),
    /// Moves the first file to the second path.
    RenameFile(String, String),
    /// Creates a directory with its parents.
    CreateDir(String),
    /// Writes the given contents to the file at the path.
    WriteFile(String, String),
    /// Fetches and unpacks an archive.
    Fetch(Download),
    /// Makes the executable at the path large-address aware.
    Patch4gb(String),
    /// Reports something.
    Report(Notice),
}

/// What the failure of a step means.
#[derive(Clone, Copy, Debug, PartialEq, Eq, Structural)]
pub enum Policy {
    /// The provisioning ends with the error.
    Abort,
    /// The error is reported and the provisioning goes on.
    Continue,
}

/// One step of the provisioning.
pub struct Step {
    pub guard: Guard,
    pub task: Task,
    pub on_failure: Policy,
}

/// A guard with its texts as sequences of characters.
pub enum GuardView {
    Always,
    Missing(Seq<char>),
    MissingOrProduct(Seq<char>, Seq<char>),
    AfterSuccess,
    AfterFailure,
}

/// A task with its texts as sequences of characters.
pub enum TaskView {
    ConfigureRuntime(Seq<char>),
    ReplaceLauncher,
    CopyFile(Seq<char>, Seq<char>),
    RenameFile(Seq<char>, Seq<char>),
    CreateDir(Seq<char>),
    WriteFile(Seq<char>, Seq<char>),
    Fetch(DownloadView),
    Patch4gb(Seq<char>),
    Report(Notice),
}

/// A step with its texts as sequences of characters.
pub struct StepView {
    pub guard: GuardView,
    pub task: TaskView,
    pub on_failure: Policy,
}

impl View for Guard {
    type V = GuardView;

    open spec fn view(&self) -> GuardView {
        match self {
            Guard::Always => GuardView::Always,
            Guard::Missing(path) => GuardView::Missing(path@),
            Guard::MissingOrProduct(path, product) => GuardView::MissingOrProduct(path@, product@),
            Guard::AfterSuccess => GuardView::AfterSuccess,
            Guard::AfterFailure => GuardView::AfterFailure,
        }
    }
}

impl View for Task {
    type V = TaskView;

    open spec fn view(&self) -> TaskView {
        match self {
            Task::ConfigureRuntime(path) => TaskView::ConfigureRuntime(path@),
            Task::ReplaceLauncher => TaskView::ReplaceLauncher,
            Task::CopyFile(from, to) => TaskView::CopyFile(from@, to@),
            Task::RenameFile(from, to) => TaskView::RenameFile(from@, to@),
            Task::CreateDir(path) => TaskView::CreateDir(path@),
            Task::WriteFile(path, contents) => TaskView::WriteFile(path@, contents@),
            Task::Fetch(download) => TaskView::Fetch(download@),
            Task::Patch4gb(path) => TaskView::Patch4gb(path@),
            Task::Report(notice) => TaskView::Report(*notice),
        }
    }
}

impl View for Step {
    type V = StepView;

    open spec fn view(&self) -> StepView {
        StepView { guard: self.guard@, task: self.task@, on_failure: self.on_failure }
    }
}

/// The steps of a list, each by its view.
pub open spec fn step_views(steps: Seq<Step>) -> Seq<StepView> {
    Seq::new(steps.len(), |i: int| steps[i]@)
}

/// The directory that the runtime is installed in: where the store
/// editions run inside a compatibility prefix, a directory of the game's
/// own, which that prefix can reach; else the program's.
pub open spec fn ffnx_dir_spec(app_path: Seq<char>, env_ffnx_dir: Seq<char>, platform: Platform) -> Seq<
    char,
> {
    match platform {
        Platform::Unix => joined_path(app_path, "mumba"@),
        Platform::Windows { my_documents, saved_games } => env_ffnx_dir,
    }
}

/// The archive that upgrades the executable of a publisher from the first
/// version to the latest; none for an executable of another version, or of
/// none that is known.
pub open spec fn patch_name(version: Option<(Version, Publisher)>) -> Option<Seq<char>> {
    match version {
        Some((Version::V100, publisher)) => Some(
            match publisher {
                Publisher::EaJp => "FF8EasqPatch"@,
                Publisher::EaUs => "FF8SqeaPatch"@,
                Publisher::EidosUk => "FF8SqeaPatch"@,
                Publisher::EidosDe => "FF8EidosGerV12"@,
                Publisher::EidosFr => "FF8EidosFre"@,
                Publisher::EidosIt => "ff8ngita"@,
                Publisher::EidosSp => "ff8ngspa"@,
            },
        ),
        _ => None,
    }
}

/// Whether an executable is known to be of the latest version, by either
/// of its two builds.
pub open spec fn is_latest(version: Option<(Version, Publisher)>) -> bool {
    match version {
        Some((Version::V120, _)) => true,
        Some((Version::V120NV, _)) => true,
        _ => false,
    }
}

/// The address of an upgrade archive.
pub open spec fn patch_url(name: Seq<char>) -> Seq<char> {
    "https://www.ff8.fr/download/programs/"@ + name + ".zip"@
}

/// What the follow-up steps are made from.
pub struct Layout {
    pub edition: Edition,
    pub version: Option<(Version, Publisher)>,
    /// The directory of the game.
    pub app_path: Seq<char>,
    /// The game's executable in its own directory.
    pub game_exe: Seq<char>,
    /// The directory of the runtime.
    pub ffnx_path: Seq<char>,
    /// The game's executable inside the directory of the runtime.
    pub exe_path: Seq<char>,
    /// The settings file of the runtime.
    pub config_path: Seq<char>,
    /// The directory of the program.
    pub mumba_dir: Seq<char>,
    /// The directory for what can be fetched again.
    pub cache_dir: Seq<char>,
}

/// The step that switches the runtime's overlays off.
pub open spec fn configure_steps(layout: Layout) -> Seq<StepView> {
    seq![
        StepView {
            guard: GuardView::Always,
            task: TaskView::ConfigureRuntime(layout.config_path),
            on_failure: Policy::Abort,
        },
    ]
}

/// The step that replaces the launcher of the store edition.
pub open spec fn launcher_steps(layout: Layout) -> Seq<StepView> {
    if layout.edition == Edition::Steam {
        seq![
            StepView {
                guard: GuardView::Always,
                task: TaskView::ReplaceLauncher,
                on_failure: Policy::Abort,
            },
        ]
    } else {
        Seq::empty()
    }
}

/// The step that copies the game's executable into the runtime's directory.
pub open spec fn executable_steps(layout: Layout) -> Seq<StepView> {
    seq![
        StepView {
            guard: GuardView::Missing(layout.exe_path),
            task: TaskView::CopyFile(layout.game_exe, layout.exe_path),
            on_failure: Policy::Abort,
        },
    ]
}

/// The steps that lay the video library down. A retail executable of the
/// first version gets it from the upgrade archive of its publisher, whose
/// executable then takes the place of the one copied; one of the latest
/// version needs nothing; for one of no known version it is reported that no
/// archive can be chosen. The other editions get the library from the game's
/// directory.
pub open spec fn video_steps(layout: Layout) -> Seq<StepView> {
    let library = joined_path(layout.ffnx_path, "binkw32.dll"@);
    if layout.edition == Edition::Standard {
        match patch_name(layout.version) {
            Some(name) => seq![
                StepView {
                    guard: GuardView::Missing(library),
                    task: TaskView::Fetch(
                        download_spec(
                            patch_url(name),
                            "FF8Patch1.02.zip"@,
                            layout.ffnx_path,
                            layout.cache_dir,
                        ),
                    ),
                    on_failure: Policy::Continue,
                },
                StepView {
                    guard: GuardView::AfterSuccess,
                    task: TaskView::RenameFile(
                        joined_path(layout.ffnx_path, "FF8.exe"@),
                        layout.exe_path,
                    ),
                    on_failure: Policy::Abort,
                },
            ],
            None => if is_latest(layout.version) {
                Seq::empty()
            } else {
                seq![
                    StepView {
                        guard: GuardView::Missing(library),
                        task: TaskView::Report(Notice::CannotDetectLanguage),
                        on_failure: Policy::Continue,
                    },
                ]
            },
        }
    } else {
        seq![
            StepView {
                guard: GuardView::Missing(library),
                task: TaskView::CopyFile(joined_path(layout.app_path, "binkw32.dll"@), library),
                on_failure: Policy::Abort,
            },
        ]
    }
}

/// The step that lays the audio library down. The store edition needs it
/// under its own name, in place of the runtime's file of that name; the
/// other editions can do without.
pub open spec fn audio_steps(layout: Layout) -> Seq<StepView> {
    let source = joined_path(layout.mumba_dir, "eax.dll"@);
    if layout.edition == Edition::Steam {
        let library = joined_path(layout.ffnx_path, "eax.dll"@);
        seq![
            StepView {
                guard: GuardView::MissingOrProduct(library, "FFNx"@),
                task: TaskView::CopyFile(source, library),
                on_failure: Policy::Abort,
            },
        ]
    } else {
        let library = joined_path(layout.ffnx_path, "creative_eax.dll"@);
        seq![
            StepView {
                guard: GuardView::Missing(library),
                task: TaskView::CopyFile(source, library),
                on_failure: Policy::Continue,
            },
        ]
    }
}

/// The steps that give the retail edition its key bindings inside the
/// runtime's directory: those of the game where they can be copied, else
/// the ones the edition starts with.
pub open spec fn input_steps(layout: Layout) -> Seq<StepView> {
    if layout.edition == Edition::Standard {
        let directory = joined_path(layout.ffnx_path, "override"@);
        let bindings = joined_path(directory, "ff8input.cfg"@);
        seq![
            StepView {
                guard: GuardView::Missing(bindings),
                task: TaskView::CreateDir(directory),
                on_failure: Policy::Abort,
            },
            StepView {
                guard: GuardView::AfterSuccess,
                task: TaskView::CopyFile(joined_path(layout.app_path, "ff8input.cfg"@), bindings),
                on_failure: Policy::Continue,
            },
            StepView {
                guard: GuardView::AfterFailure,
                task: TaskView::WriteFile(
                    bindings,
                    input_config_text(default_keyboard(), default_joystick(layout.edition)),
                ),
                on_failure: Policy::Abort,
            },
        ]
    } else {
        Seq::empty()
    }
}

/// The step that makes the executable large-address aware.
pub open spec fn patch_steps(layout: Layout) -> Seq<StepView> {
    seq![
        StepView {
            guard: GuardView::Always,
            task: TaskView::Patch4gb(layout.exe_path),
            on_failure: Policy::Abort,
        },
    ]
}

/// The steps that follow the installation of the runtime, in order.
pub open spec fn follow_up(layout: Layout) -> Seq<StepView> {
    configure_steps(layout) + launcher_steps(layout) + executable_steps(layout) + video_steps(layout)
        + audio_steps(layout) + input_steps(layout) + patch_steps(layout)
}

/// What the follow-up steps of an installation and its runtime are made
/// from.
pub open spec fn layout_of(installation: InstallationView, ffnx: FfnxInstallationView, env: EnvView) -> Layout {
    Layout {
        edition: installation.edition,
        version: installation.version,
        app_path: installation.app_path,
        game_exe: joined_path(installation.app_path, installation.exe_name),
        ffnx_path: ffnx.path,
        exe_path: joined_path(ffnx.path, ffnx.exe_name),
        config_path: joined_path(ffnx.path, "FFNx.toml"@),
        mumba_dir: env.mumba_dir,
        cache_dir: env.cache_dir,
    }
}

/// The provisioning always ends with the large-address patch of the game's
/// executable inside the runtime's directory, and a failure of it ends the
/// provisioning.
pub proof fn lemma_patch_comes_last(layout: Layout)
    ensures
        follow_up(layout).len() >= 3,
        follow_up(layout).last() == (StepView {
            guard: GuardView::Always,
            task: TaskView::Patch4gb(layout.exe_path),
            on_failure: Policy::Abort,
        }),
{
}

/// Whether a step lays a file down only where none lies at its place.
pub open spec fn lays_down_once(step: StepView) -> bool {
    match step.task {
        TaskView::CopyFile(from, to) => match step.guard {
            GuardView::Missing(path) => path == to,
            GuardView::MissingOrProduct(path, product) => path == to,
            GuardView::AfterSuccess => true,
            _ => false,
        },
        _ => true,
    }
}

/// Every copy is guarded: a file is copied to a place only where none lies
/// there (or where the one that lies there belongs to the runtime), so that
/// a second provisioning copies nothing again.
pub proof fn lemma_copies_are_guarded(layout: Layout, i: int)
    requires
        0 <= i < follow_up(layout).len(),
    ensures
        lays_down_once(follow_up(layout)[i]),
{
    let steps = follow_up(layout);
    let a = configure_steps(layout);
    let b = launcher_steps(layout);
    let c = executable_steps(layout);
    let d = video_steps(layout);
    let e = audio_steps(layout);
    let f = input_steps(layout);
    let g = patch_steps(layout);
    assert(steps == a + b + c + d + e + f + g);
    if i < a.len() {
    } else if i < a.len() + b.len() {
        assert(steps[i] == b[i - a.len()]);
    } else if i < a.len() + b.len() + c.len() {
        assert(steps[i] == c[i - a.len() - b.len()]);
    } else if i < a.len() + b.len() + c.len() + d.len() {
        assert(steps[i] == d[i - a.len() - b.len() - c.len()]);
    } else if i < a.len() + b.len() + c.len() + d.len() + e.len() {
        assert(steps[i] == e[i - a.len() - b.len() - c.len() - d.len()]);
    } else if i < a.len() + b.len() + c.len() + d.len() + e.len() + f.len() {
        assert(steps[i] == f[i - a.len() - b.len() - c.len() - d.len() - e.len()]);
    } else {
        assert(steps[i] == g[i - a.len() - b.len() - c.len() - d.len() - e.len() - f.len()]);
    }
}


/// The directory that the runtime is installed in.
pub fn ffnx_dir(installation: &Installation, env: &Env, platform: &Platform) -> (dir: String)
    ensures
        dir@ == ffnx_dir_spec(installation.app_path@, env.ffnx_dir@, *platform),
{
    match platform {
        Platform::Unix => join_path(installation.app_path.as_str(), "mumba"),
        Platform::Windows { my_documents, saved_games } => env.ffnx_dir.clone(),
    }
}

/// The archive that upgrades an executable to the latest version.
pub fn patch_file_name(version: &Option<(Version, Publisher)>) -> (name: Option<&'static str>)
    ensures
        match name {
            Some(n) => patch_name(*version) == Some(n@),
            None => patch_name(*version) is None,
        },
{
    match version {
        Some((Version::V100, publisher)) => Some(
            match publisher {
                Publisher::EaJp => "FF8EasqPatch",
                Publisher::EaUs => "FF8SqeaPatch",
                Publisher::EidosUk => "FF8SqeaPatch",
                Publisher::EidosDe => "FF8EidosGerV12",
                Publisher::EidosFr => "FF8EidosFre",
                Publisher::EidosIt => "ff8ngita",
                Publisher::EidosSp => "ff8ngspa",
            },
        ),
        _ => None,
    }
}

/// Appends a step to a list of steps.
fn push_step(steps: &mut Vec<Step>, guard: Guard, task: Task, on_failure: Policy)
    ensures
        step_views(final(steps)@) == step_views(old(steps)@).push(
            StepView { guard: guard@, task: task@, on_failure },
        ),
{
    steps.push(Step { guard, task, on_failure });
    assert(step_views(steps@) =~= step_views(old(steps)@).push(
        StepView { guard: guard@, task: task@, on_failure },
    ));
}

/// The steps that follow the installation of the runtime, in order: the
/// runtime's overlays are switched off; the store edition gets the program's
/// launcher; the game's executable, the video and audio libraries and the
/// key bindings are laid down where they are missing; the executable is made
/// large-address aware.
pub fn follow_up_steps(installation: &Installation, ffnx: &FfnxInstallation, env: &Env) -> (steps: Vec<
    Step,
>)
    ensures
        step_views(steps@) == follow_up(layout_of(installation@, ffnx@, env@)),
{
    let ghost layout = layout_of(installation@, ffnx@, env@);
    let edition = installation.edition;
    let ffnx_path = ffnx.path.as_str();
    let app_path = installation.app_path.as_str();
    let mut steps: Vec<Step> = Vec::new();
    assert(step_views(steps@) =~= Seq::<StepView>::empty());

    push_step(&mut steps, Guard::Always, Task::ConfigureRuntime(ffnx.config_path()), Policy::Abort);
    assert(step_views(steps@) =~= configure_steps(layout));

    if edition == Edition::Steam {
        push_step(&mut steps, Guard::Always, Task::ReplaceLauncher, Policy::Abort);
    }
    assert(step_views(steps@) =~= configure_steps(layout) + launcher_steps(layout));

    push_step(
        &mut steps,
        Guard::Missing(ffnx.exe_path()),
        Task::CopyFile(installation.exe_path(), ffnx.exe_path()),
        Policy::Abort,
    );
    let ghost head = configure_steps(layout) + launcher_steps(layout) + executable_steps(layout);
    assert(step_views(steps@) =~= head);

    if edition == Edition::Standard {
        match patch_file_name(&installation.version) {
            Some(name) => {
                let mut url = "https://www.ff8.fr/download/programs/".to_string();
                url.append(name);
                url.append(".zip");
                push_step(
                    &mut steps,
                    Guard::Missing(join_path(ffnx_path, "binkw32.dll")),
                    Task::Fetch(download_zip(url.as_str(), "FF8Patch1.02.zip", ffnx_path, env)),
                    Policy::Continue,
                );
                push_step(
                    &mut steps,
                    Guard::AfterSuccess,
                    Task::RenameFile(join_path(ffnx_path, "FF8.exe"), ffnx.exe_path()),
                    Policy::Abort,
                );
            },
            None => {
                let latest = match &installation.version {
                    Some((Version::V120, _)) => true,
                    Some((Version::V120NV, _)) => true,
                    _ => false,
                };
                if !latest {
                    push_step(
                        &mut steps,
                        Guard::Missing(join_path(ffnx_path, "binkw32.dll")),
                        Task::Report(Notice::CannotDetectLanguage),
                        Policy::Continue,
                    );
                }
            },
        }
    } else {
        push_step(
            &mut steps,
            Guard::Missing(join_path(ffnx_path, "binkw32.dll")),
            Task::CopyFile(join_path(app_path, "binkw32.dll"), join_path(ffnx_path, "binkw32.dll")),
            Policy::Abort,
        );
    }
    let ghost head = head + video_steps(layout);
    assert(step_views(steps@) =~= head);

    if edition == Edition::Steam {
        push_step(
            &mut steps,
            Guard::MissingOrProduct(join_path(ffnx_path, "eax.dll"), "FFNx".to_string()),
            Task::CopyFile(join_path(env.mumba_dir.as_str(), "eax.dll"), join_path(ffnx_path, "eax.dll")),
            Policy::Abort,
        );
    } else {
        push_step(
            &mut steps,
            Guard::Missing(join_path(ffnx_path, "creative_eax.dll")),
            Task::CopyFile(
                join_path(env.mumba_dir.as_str(), "eax.dll"),
                join_path(ffnx_path, "creative_eax.dll"),
            ),
            Policy::Continue,
        );
    }
    let ghost head = head + audio_steps(layout);
    assert(step_views(steps@) =~= head);

    if edition == Edition::Standard {
        let directory = join_path(ffnx_path, "override");
        push_step(
            &mut steps,
            Guard::Missing(join_path(directory.as_str(), "ff8input.cfg")),
            Task::CreateDir(directory.clone()),
            Policy::Abort,
        );
        push_step(
            &mut steps,
            Guard::AfterSuccess,
            Task::CopyFile(
                join_path(app_path, "ff8input.cfg"),
                join_path(directory.as_str(), "ff8input.cfg"),
            ),
            Policy::Continue,
        );
        push_step(
            &mut steps,
            Guard::AfterFailure,
            Task::WriteFile(
                join_path(directory.as_str(), "ff8input.cfg"),
                InputConfig::new(&edition).to_string(),
            ),
            Policy::Abort,
        );
    }
    let ghost head = head + input_steps(layout);
    assert(step_views(steps@) =~= head);

    push_step(&mut steps, Guard::Always, Task::Patch4gb(ffnx.exe_path()), Policy::Abort);
    assert(step_views(steps@) =~= head + patch_steps(layout));
    steps
}


/// How the step before the current one ended.
#[derive(Clone, Copy, Debug, PartialEq, Eq, Structural)]
pub enum Outcome {
    /// It was not due.
    Skipped,
    /// It was carried out.
    Succeeded,
    /// It was tried and failed.
    Failed,
}

/// Where a provisioning stands.
#[derive(Clone, Copy, Debug)]
pub enum Stage {
    /// The runtime's directory has to be probed.
    Probing,
    /// No runtime was found: the user has to be told that one is installed.
    Announcing,
    /// The release index has to be asked.
    Querying,
    /// The runtime's archive has to be fetched.
    Downloading,
    /// The runtime's directory has to be probed again.
    Reprobing,
    /// The guard of a follow-up step has to be looked into.
    Examining(usize),
    /// A follow-up step has to be carried out.
    Running(usize),
    /// The runtime is installed and every step is done.
    Ready,
    /// The provisioning has failed.
    Failed(InstallError),
}

/// What was found at the place that a guard names.
pub enum Evidence {
    /// No file lies there.
    Absent,
    /// A file lies there.
    Present,
    /// A file lies there, and reading its version metadata gave this.
    PresentWith(Result<VersionInfo, PeError>),
}

/// What the machine has to be told.
pub enum Event {
    /// Reading the version metadata of the runtime's marker file gave this.
    Probed(Result<VersionInfo, PeError>),
    /// The user was told.
    Announced,
    /// The release index listed this, where it could be asked.
    Releases(Option<LatestRelease>),
    /// A task was carried out, or failed.
    Performed(Result<(), InstallError>),
    /// The place that a guard names was looked into.
    Examined(Evidence),
}

/// What the machine asks for.
pub enum Request<'a> {
    /// Read the version metadata of the file at this path; answer `Probed`.
    ProbeRuntime(&'a str),
    /// Show this status; answer `Announced`.
    Announce(TextLevel, &'static str),
    /// Ask the release index; answer `Releases`.
    QueryReleases,
    /// Look into the place that this guard names; answer `Examined`.
    Examine(&'a Guard),
    /// Carry it out; answer `Performed`.
    Perform(&'a Task),
    /// Nothing: the runtime is provisioned.
    Done(&'a FfnxInstallation),
    /// Nothing: the provisioning has failed.
    Failed(InstallError),
}

/// The product that a file names in its version metadata; empty where it
/// names none.
pub open spec fn product_of(infos: VersionInfo) -> Seq<char> {
    match infos.product_name {
        Some(name) => name@,
        None => Seq::empty(),
    }
}

/// Whether a step is due, given how the step before it ended and what was
/// found at the place its guard names. A file whose metadata cannot be read
/// ends the provisioning.
pub open spec fn is_due_spec(guard: GuardView, previous: Outcome, evidence: Evidence) -> Result<
    bool,
    PeError,
> {
    match guard {
        GuardView::Always => Ok(true),
        GuardView::AfterSuccess => Ok(previous == Outcome::Succeeded),
        GuardView::AfterFailure => Ok(previous == Outcome::Failed),
        GuardView::Missing(path) => Ok(evidence is Absent),
        GuardView::MissingOrProduct(path, product) => match evidence {
            Evidence::Absent => Ok(true),
            Evidence::Present => Ok(false),
            Evidence::PresentWith(Ok(infos)) => Ok(product_of(infos) == product),
            Evidence::PresentWith(Err(e)) => Err(e),
        },
    }
}

/// Whether a guard can be decided without looking at the file system.
pub open spec fn needs_no_evidence(guard: GuardView) -> bool {
    guard is Always || guard is AfterSuccess || guard is AfterFailure
}

/// Where the machine stands once it has reached step `from`, the step
/// before having ended as `previous`: steps that are not due are skipped
/// until one is due, or its guard needs evidence, or no step is left.
pub open spec fn entered(steps: Seq<StepView>, from: int, previous: Outcome) -> (Stage, Outcome)
    decreases steps.len() - from,
{
    if from < 0 || from >= steps.len() {
        (Stage::Ready, previous)
    } else if !needs_no_evidence(steps[from].guard) {
        (Stage::Examining(from as usize), previous)
    } else if is_due_spec(steps[from].guard, previous, Evidence::Absent) == Ok::<bool, PeError>(true) {
        (Stage::Running(from as usize), previous)
    } else {
        entered(steps, from + 1, Outcome::Skipped)
    }
}

impl Guard {
    /// Decides whether a step is due.
    pub fn is_due(&self, previous: Outcome, evidence: &Evidence) -> (due: Result<bool, PeError>)
        ensures
            due == is_due_spec(self@, previous, *evidence),
    {
        match self {
            Guard::Always => Ok(true),
            Guard::AfterSuccess => Ok(previous == Outcome::Succeeded),
            Guard::AfterFailure => Ok(previous == Outcome::Failed),
            Guard::Missing(_) => Ok(
                match evidence {
                    Evidence::Absent => true,
                    _ => false,
                },
            ),
            Guard::MissingOrProduct(_, product) => match evidence {
                Evidence::Absent => Ok(true),
                Evidence::Present => Ok(false),
                Evidence::PresentWith(Ok(infos)) => Ok(
                    match &infos.product_name {
                        Some(name) => *name == *product,
                        None => {
                            assert(product@.len() == 0 <==> product@ =~= Seq::<char>::empty());
                            product.as_str().unicode_len() == 0
                        },
                    },
                ),
                Evidence::PresentWith(Err(e)) => Err(*e),
            },
        }
    }
}


/// The provisioning of the runtime for one installation, as a machine that
/// asks for one thing at a time and is told how it went.
pub struct Installer {
    installation: Installation,
    update_channel: UpdateChannel,
    env: Env,
    ffnx_dir: String,
    marker_path: String,
    ffnx: Option<FfnxInstallation>,
    fetch: Option<Task>,
    steps: Vec<Step>,
    previous: Outcome,
    stage: Stage,
}

impl Installer {
    /// Where the provisioning stands.
    pub closed spec fn stage(&self) -> Stage {
        self.stage
    }

    /// How the step before the current one ended.
    pub closed spec fn previous(&self) -> Outcome {
        self.previous
    }

    /// The follow-up steps; empty until a runtime has been found.
    pub closed spec fn plan(&self) -> Seq<StepView> {
        step_views(self.steps@)
    }

    /// The runtime that was found, if any.
    pub closed spec fn runtime(&self) -> Option<FfnxInstallationView> {
        match self.ffnx {
            Some(ffnx) => Some(ffnx@),
            None => None,
        }
    }

    /// The download of the runtime's archive, once the release index has
    /// answered.
    pub closed spec fn archive(&self) -> Option<TaskView> {
        match self.fetch {
            Some(task) => Some(task@),
            None => None,
        }
    }

    /// The installation that is provisioned.
    pub closed spec fn game(&self) -> InstallationView {
        self.installation@
    }

    /// The update channel that the runtime is taken from.
    pub closed spec fn channel(&self) -> UpdateChannel {
        self.update_channel
    }

    /// The directories of the program.
    pub closed spec fn environment(&self) -> EnvView {
        self.env@
    }

    /// The directory that the runtime is installed in.
    pub closed spec fn target_dir(&self) -> Seq<char> {
        self.ffnx_dir@
    }

    /// What has to hold of the machine at every stage.
    pub closed spec fn wf(&self) -> bool {
        &&& self.marker_path@ == joined_path(self.ffnx_dir@, marker_name(self.installation.edition))
        &&& self.stage is Downloading ==> (self.fetch matches Some(task) && task is Fetch)
        &&& self.stage is Ready ==> self.ffnx is Some
        &&& self.stage matches Stage::Examining(i) ==> (i < self.steps.len() && !needs_no_evidence(
            self.steps[i as int].guard@,
        ))
        &&& self.stage matches Stage::Running(i) ==> i < self.steps.len()
        &&& (self.stage is Examining || self.stage is Running) ==> self.ffnx is Some
        &&& self.ffnx matches Some(ffnx) ==> (step_views(self.steps@) == follow_up(
            layout_of(self.installation@, ffnx@, self.env@),
        ))
    }

    /// A provisioning that has not begun.
    pub fn new(installation: Installation, update_channel: UpdateChannel, env: Env, platform: &Platform) -> (machine: Installer)
        ensures
            machine.wf(),
            machine.stage() is Probing,
            machine.game() == installation@,
            machine.channel() == update_channel,
            machine.environment() == env@,
            machine.target_dir() == ffnx_dir_spec(installation.app_path@, env.ffnx_dir@, *platform),
            machine.runtime() is None,
    {
        let ffnx_dir = ffnx_dir(&installation, &env, platform);
        let marker = FfnxInstallation::marker(installation.edition);
        let marker_path = join_path(ffnx_dir.as_str(), marker.as_str());
        Installer {
            installation,
            update_channel,
            env,
            ffnx_dir,
            marker_path,
            ffnx: None,
            fetch: None,
            steps: Vec::new(),
            previous: Outcome::Skipped,
            stage: Stage::Probing,
        }
    }

    /// What the machine asks for at the stage it stands at.
    pub fn request(&self) -> (request: Request<'_>)
        requires
            self.wf(),
        ensures
            match self.stage() {
                Stage::Probing | Stage::Reprobing => request matches Request::ProbeRuntime(path)
                    && path@ == joined_path(self.target_dir(), marker_name(self.game().edition)),
                Stage::Announcing => request matches Request::Announce(level, message) && level
                    == TextLevel::Info && message@ == MESSAGE_INSTALL_IN_PROGRESS@,
                Stage::Querying => request is QueryReleases,
                Stage::Downloading => request matches Request::Perform(task) && Some(task@)
                    == self.archive(),
                Stage::Examining(i) => request matches Request::Examine(guard) && guard@
                    == self.plan()[i as int].guard,
                Stage::Running(i) => request matches Request::Perform(task) && task@
                    == self.plan()[i as int].task,
                Stage::Ready => request matches Request::Done(ffnx) && Some(ffnx@)
                    == self.runtime(),
                Stage::Failed(e) => request matches Request::Failed(error) && error == e,
            },
    {
        match self.stage {
            Stage::Probing | Stage::Reprobing => Request::ProbeRuntime(self.marker_path.as_str()),
            Stage::Announcing => Request::Announce(TextLevel::Info, MESSAGE_INSTALL_IN_PROGRESS),
            Stage::Querying => Request::QueryReleases,
            Stage::Downloading => match &self.fetch {
                Some(task) => Request::Perform(task),
                None => Request::QueryReleases,
            },
            Stage::Examining(i) => Request::Examine(&self.steps[i].guard),
            Stage::Running(i) => Request::Perform(&self.steps[i].task),
            Stage::Ready => match &self.ffnx {
                Some(ffnx) => Request::Done(ffnx),
                None => Request::QueryReleases,
            },
            Stage::Failed(e) => Request::Failed(e),
        }
    }

    /// Moves to step `from`, the step before having ended as `previous`.
    fn enter(&mut self, from: usize, previous: Outcome)
        requires
            old(self).wf(),
            old(self).ffnx is Some,
            from <= old(self).steps.len(),
        ensures
            final(self).wf(),
            (final(self).stage, final(self).previous) == entered(
                step_views(old(self).steps@),
                from as int,
                previous,
            ),
            final(self).steps == old(self).steps,
            final(self).ffnx == old(self).ffnx,
            final(self).fetch == old(self).fetch,
            final(self).installation == old(self).installation,
            final(self).update_channel == old(self).update_channel,
            final(self).env == old(self).env,
            final(self).ffnx_dir == old(self).ffnx_dir,
            final(self).marker_path == old(self).marker_path,
    {
        let ghost views = step_views(self.steps@);
        let mut i: usize = from;
        let mut last: Outcome = previous;
        while i < self.steps.len()
            invariant
                i <= self.steps.len(),
                views == step_views(self.steps@),
                entered(views, i as int, last) == entered(views, from as int, previous),
                *self == *old(self),
                self.wf(),
                self.ffnx is Some,
            decreases self.steps.len() - i,
        {
            assert(views[i as int] == self.steps[i as int]@);
            match &self.steps[i].guard {
                Guard::Always => {
                    self.stage = Stage::Running(i);
                    self.previous = last;
                    return ;
                },
                Guard::AfterSuccess => {
                    if last == Outcome::Succeeded {
                        self.stage = Stage::Running(i);
                        self.previous = last;
                        return ;
                    }
                },
                Guard::AfterFailure => {
                    if last == Outcome::Failed {
                        self.stage = Stage::Running(i);
                        self.previous = last;
                        return ;
                    }
                },
                _ => {
                    self.stage = Stage::Examining(i);
                    self.previous = last;
                    return ;
                },
            }
            i += 1;
            last = Outcome::Skipped;
        }
        self.stage = Stage::Ready;
        self.previous = last;
    }

    /// Takes the runtime that a probe found, and moves to its first step.
    fn adopt(&mut self, ffnx: FfnxInstallation)
        requires
            old(self).wf(),
        ensures
            final(self).wf(),
            final(self).runtime() == Some(ffnx@),
            final(self).plan() == follow_up(
                layout_of(old(self).game(), ffnx@, old(self).environment()),
            ),
            (final(self).stage(), final(self).previous()) == entered(
                final(self).plan(),
                0,
                Outcome::Skipped,
            ),
            final(self).fetch == old(self).fetch,
            final(self).installation == old(self).installation,
            final(self).update_channel == old(self).update_channel,
            final(self).env == old(self).env,
            final(self).ffnx_dir == old(self).ffnx_dir,
            final(self).marker_path == old(self).marker_path,
    {
        self.stage = Stage::Failed(InstallError::TomlFileError);
        self.steps = follow_up_steps(&self.installation, &ffnx, &self.env);
        self.ffnx = Some(ffnx);
        self.enter(0, Outcome::Skipped);
    }

    /// Tells the machine how what it asked for went.
    ///
    /// The machine moves on as its stage and the answer say. An answer to
    /// something that was not asked changes nothing.
    pub fn handle(&mut self, event: Event)
        requires
            old(self).wf(),
        ensures
            final(self).wf(),
            final(self).game() == old(self).game(),
            final(self).channel() == old(self).channel(),
            final(self).environment() == old(self).environment(),
            final(self).target_dir() == old(self).target_dir(),
            match (old(self).stage(), event) {
                (Stage::Probing, Event::Probed(probe)) => match ffnx_from_directory(
                    old(self).target_dir(),
                    old(self).game(),
                    probe,
                ) {
                    Some(ffnx) => {
                        &&& final(self).runtime() == Some(ffnx)
                        &&& final(self).plan() == follow_up(
                            layout_of(old(self).game(), ffnx, old(self).environment()),
                        )
                        &&& (final(self).stage(), final(self).previous()) == entered(
                            final(self).plan(),
                            0,
                            Outcome::Skipped,
                        )
                    },
                    None => final(self).stage() is Announcing,
                },
                (Stage::Reprobing, Event::Probed(probe)) => match ffnx_from_directory(
                    old(self).target_dir(),
                    old(self).game(),
                    probe,
                ) {
                    Some(ffnx) => {
                        &&& final(self).runtime() == Some(ffnx)
                        &&& final(self).plan() == follow_up(
                            layout_of(old(self).game(), ffnx, old(self).environment()),
                        )
                        &&& (final(self).stage(), final(self).previous()) == entered(
                            final(self).plan(),
                            0,
                            Outcome::Skipped,
                        )
                    },
                    None => final(self).stage() == Stage::Failed(
                        InstallError::IOError(IoErrorKind::InvalidData),
                    ),
                },
                (Stage::Announcing, Event::Announced) => final(self).stage() is Querying,
                (Stage::Querying, Event::Releases(releases)) => {
                    &&& final(self).stage() is Downloading
                    &&& final(self).archive() == Some(
                        TaskView::Fetch(
                            download_spec(
                                version_url(old(self).game().edition, old(self).channel(), releases),
                                "FFNx.zip"@,
                                old(self).target_dir(),
                                old(self).environment().cache_dir,
                            ),
                        ),
                    )
                },
                (Stage::Downloading, Event::Performed(result)) => match result {
                    Ok(_) => final(self).stage() is Reprobing,
                    Err(e) => final(self).stage() == Stage::Failed(e),
                },
                (Stage::Examining(i), Event::Examined(evidence)) => {
                    &&& final(self).plan() == old(self).plan()
                    &&& final(self).runtime() == old(self).runtime()
                    &&& match is_due_spec(old(self).plan()[i as int].guard, old(self).previous(), evidence) {
                        Ok(due) => (final(self).stage(), final(self).previous()) == if due {
                            (Stage::Running(i), old(self).previous())
                        } else {
                            entered(old(self).plan(), i + 1, Outcome::Skipped)
                        },
                        Err(e) => final(self).stage() == Stage::Failed(InstallError::PeFormatError(e)),
                    }
                },
                (Stage::Running(i), Event::Performed(result)) => {
                    &&& final(self).plan() == old(self).plan()
                    &&& final(self).runtime() == old(self).runtime()
                    &&& match result {
                        Ok(_) => (final(self).stage(), final(self).previous()) == entered(
                            old(self).plan(),
                            i + 1,
                            Outcome::Succeeded,
                        ),
                        Err(e) => if old(self).plan()[i as int].on_failure == Policy::Abort {
                            final(self).stage() == Stage::Failed(e)
                        } else {
                            (final(self).stage(), final(self).previous()) == entered(
                                old(self).plan(),
                                i + 1,
                                Outcome::Failed,
                            )
                        },
                    }
                },
                _ => {
                    &&& final(self).stage() == old(self).stage()
                    &&& final(self).previous() == old(self).previous()
                    &&& final(self).plan() == old(self).plan()
                    &&& final(self).runtime() == old(self).runtime()
                },
            },
    {
        match (self.stage, event) {
            (Stage::Probing, Event::Probed(probe)) => {
                match FfnxInstallation::from_directory(self.ffnx_dir.as_str(), &self.installation, probe) {
                    Some(ffnx) => self.adopt(ffnx),
                    None => {
                        self.stage = Stage::Announcing;
                    },
                }
            },
            (Stage::Reprobing, Event::Probed(probe)) => {
                match FfnxInstallation::from_directory(self.ffnx_dir.as_str(), &self.installation, probe) {
                    Some(ffnx) => self.adopt(ffnx),
                    None => {
                        self.stage = Stage::Failed(InstallError::IOError(IoErrorKind::InvalidData));
                    },
                }
            },
            (Stage::Announcing, Event::Announced) => {
                self.stage = Stage::Querying;
            },
            (Stage::Querying, Event::Releases(releases)) => {
                let url = FfnxInstallation::find_version_on_github(
                    &self.installation.edition,
                    self.update_channel,
                    releases,
                );
                self.fetch = Some(
                    Task::Fetch(FfnxInstallation::download(url.as_str(), self.ffnx_dir.as_str(), &self.env)),
                );
                self.stage = Stage::Downloading;
            },
            (Stage::Downloading, Event::Performed(result)) => {
                match result {
                    Ok(_) => {
                        self.stage = Stage::Reprobing;
                    },
                    Err(e) => {
                        self.stage = Stage::Failed(e);
                    },
                }
            },
            (Stage::Examining(i), Event::Examined(evidence)) => {
                assert(step_views(self.steps@)[i as int] == self.steps[i as int]@);
                match self.steps[i].guard.is_due(self.previous, &evidence) {
                    Ok(true) => {
                        self.stage = Stage::Running(i);
                    },
                    Ok(false) => {
                        self.stage = Stage::Failed(InstallError::TomlFileError);
                        self.enter(i + 1, Outcome::Skipped);
                    },
                    Err(e) => {
                        self.stage = Stage::Failed(InstallError::PeFormatError(e));
                    },
                }
            },
            (Stage::Running(i), Event::Performed(result)) => {
                assert(step_views(self.steps@)[i as int] == self.steps[i as int]@);
                match result {
                    Ok(_) => {
                        self.stage = Stage::Failed(InstallError::TomlFileError);
                        self.enter(i + 1, Outcome::Succeeded);
                    },
                    Err(e) => {
                        match self.steps[i].on_failure {
                            Policy::Abort => {
                                self.stage = Stage::Failed(e);
                            },
                            Policy::Continue => {
                                self.stage = Stage::Failed(InstallError::TomlFileError);
                                self.enter(i + 1, Outcome::Failed);
                            },
                        }
                    },
                }
            },
            _ => {},
        }
    }

    /// The runtime that the provisioning has found or installed, if any.
    pub fn into_runtime(self) -> (ffnx: Option<FfnxInstallation>)
        ensures
            match ffnx {
                Some(f) => self.runtime() == Some(f@),
                None => self.runtime() is None,
            },
    {
        self.ffnx
    }
}

} // verus!
