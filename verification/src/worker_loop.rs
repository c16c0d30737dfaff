//! The orchestrator: what the program does, one message at a time, from the
//! discovery of the game to its launch.

use crate::config::UpdateChannel;
use crate::game::ffnx_installation::{FfnxInstallation, FfnxInstallationView};
use crate::game::installation::{Edition, FromExeError, Installation, InstallationView, Platform};
use crate::github::LatestRelease;
use crate::install::InstallError;
use crate::paths::joined_path;
use crate::ui::{TextLevel, MESSAGE_CANNOT_INSTALL, MESSAGE_CANNOT_LAUNCH, MESSAGE_CANNOT_SAVE_CONFIG, MESSAGE_CANNOT_SAVE_FFNX_CONFIG, MESSAGE_CHECK_UPDATE, MESSAGE_FILE_NOT_FOUND, MESSAGE_UNKNOWN_ACTION, MESSAGE_UPGRADE_IN_PROGRESS};
use vstd::prelude::*;

verus! {

/// What the user asks for.
pub enum Message {
    /// Set the game up from this executable, with this channel and language.
    Setup(String, UpdateChannel, String),
    LaunchGame,
    LaunchCW,
    ConfigureFfnx,
    CancelConfigureFfnx,
    SetFfnxConfigBool(String, bool),
    SetFfnxConfigInt(String, i64),
    SetFfnxConfigString(String, String),
    /// The places of a resolution and of one of its refresh rates.
    SetFfnxConfigCurrentRefreshRate(i32, i32),
    UpdateGame,
    Quit,
}

/// A change of the runtime's settings that the user asks for.
pub enum Edit {
    Bool(String, bool),
    Int(String, i64),
    Text(String, String),
    RefreshRate(i32, i32),
    /// The directory of the game that the runtime is to work on.
    AppPath(String),
}

/// What is shown to the user.
pub enum UiCall {
    SetTaskText(TextLevel, &'static str),
    ClearTaskText,
    SetGameReady(bool),
    SetInitialized(bool),
    SetGameExePath(String),
    SetUpdateChannel(UpdateChannel),
    SetCurrentPage(i32),
    /// Show the runtime's settings and the resolutions of the screen.
    ShowSettings,
}

/// What the orchestrator wants done. The effects of one answer are carried
/// out in order. An effect that is said to be answered is the last of its
/// list, and its answer is the next event; where no effect is answered, the
/// next event is the next message of the user.
pub enum Effect {
    /// Show something. Nothing is answered, and nothing is owed where the
    /// user interface is gone.
    Ui(UiCall),
    /// Load the selection kept from the last run; answered by
    /// `SelectionLoaded`.
    LoadSelection,
    /// Look for installed copies of the game; answered by `Searched`.
    Search,
    /// Build the installation that this executable stands for; answered by
    /// `SetupChecked`.
    CheckSetup(String),
    /// Keep the selection of this executable, channel and language for the
    /// next run; answered by `SelectionSaved`.
    SaveSelection(String, UpdateChannel, String),
    /// Provision the runtime for the current installation and channel;
    /// answered by `Provisioned`.
    Provision,
    /// Ask the release index; answered by `Releases`.
    QueryReleases,
    /// Fetch this archive into the runtime's directory. A failure is
    /// reported and changes nothing.
    Upgrade(String),
    /// Load the runtime's settings, unless they are loaded.
    LoadSettings,
    /// Change the runtime's settings.
    EditSettings(Edit),
    /// Save the runtime's settings and forget them; on failure, show the
    /// given error.
    SaveSettings(&'static str),
    /// Forget the runtime's settings as they are loaded.
    DiscardSettings,
    /// Start the game through the runtime; on failure, show the given error.
    LaunchGame(&'static str),
    /// Start the companion game; on failure, show the given error.
    LaunchCompanion(&'static str),
}

/// What the orchestrator is told.
pub enum Event {
    /// The program has started.
    Started,
    /// The selection kept from the last run: its channel, where it names
    /// one, and its installation, where it names one that is still there.
    SelectionLoaded(Option<UpdateChannel>, Option<Installation>),
    /// The installed copies of the game that were found.
    Searched(Vec<Installation>),
    /// The user asks for something.
    Message(Message),
    /// No message will come any more.
    Closed,
    /// What the executable named in a setup stands for.
    SetupChecked(Result<Installation, FromExeError>),
    /// Whether the selection could be kept.
    SelectionSaved(bool),
    /// How the provisioning ended.
    Provisioned(Result<FfnxInstallation, InstallError>),
    /// What the release index lists, where it could be asked.
    Releases(Option<LatestRelease>),
}

/// What the orchestrator waits for.
#[derive(Clone, Copy, Debug, PartialEq, Eq, Structural)]
pub enum Phase {
    /// The start of the program.
    Starting,
    /// The selection kept from the last run.
    Loading,
    /// The installed copies of the game.
    Searching,
    /// A message, with the setup page shown.
    Wizard,
    /// What the executable of a setup stands for.
    Checking,
    /// The end of a provisioning.
    Provisioning,
    /// Whether the selection could be kept.
    Saving,
    /// A message, with the game ready.
    Ready,
    /// The release index, for an upgrade.
    CheckingUpdate,
    /// Nothing: the orchestrator has ended.
    Stopped,
}

/// An edit with its texts as sequences of characters.
pub enum EditView {
    Bool(Seq<char>, bool),
    Int(Seq<char>, i64),
    Text(Seq<char>, Seq<char>),
    RefreshRate(i32, i32),
    AppPath(Seq<char>),
}

/// A call to the user interface with its texts as sequences of characters.
pub enum UiCallView {
    SetTaskText(TextLevel, Seq<char>),
    ClearTaskText,
    SetGameReady(bool),
    SetInitialized(bool),
    SetGameExePath(Seq<char>),
    SetUpdateChannel(UpdateChannel),
    SetCurrentPage(i32),
    ShowSettings,
}

/// An effect with its texts as sequences of characters.
pub enum EffectView {
    Ui(UiCallView),
    LoadSelection,
    Search,
    CheckSetup(Seq<char>),
    SaveSelection(Seq<char>, UpdateChannel, Seq<char>),
    Provision,
    QueryReleases,
    Upgrade(Seq<char>),
    LoadSettings,
    EditSettings(EditView),
    SaveSettings(Seq<char>),
    DiscardSettings,
    LaunchGame(Seq<char>),
    LaunchCompanion(Seq<char>),
}

impl View for Edit {
    type V = EditView;

    open spec fn view(&self) -> EditView {
        match self {
            Edit::Bool(key, value) => EditView::Bool(key@, *value),
            Edit::Int(key, value) => EditView::Int(key@, *value),
            Edit::Text(key, value) => EditView::Text(key@, value@),
            Edit::RefreshRate(resolution, rate) => EditView::RefreshRate(*resolution, *rate),
            Edit::AppPath(path) => EditView::AppPath(path@),
        }
    }
}

impl View for UiCall {
    type V = UiCallView;

    open spec fn view(&self) -> UiCallView {
        match self {
            UiCall::SetTaskText(level, message) => UiCallView::SetTaskText(*level, message@),
            UiCall::ClearTaskText => UiCallView::ClearTaskText,
            UiCall::SetGameReady(ready) => UiCallView::SetGameReady(*ready),
            UiCall::SetInitialized(initialized) => UiCallView::SetInitialized(*initialized),
            UiCall::SetGameExePath(path) => UiCallView::SetGameExePath(path@),
            UiCall::SetUpdateChannel(channel) => UiCallView::SetUpdateChannel(*channel),
            UiCall::SetCurrentPage(page) => UiCallView::SetCurrentPage(*page),
            UiCall::ShowSettings => UiCallView::ShowSettings,
        }
    }
}

impl View for Effect {
    type V = EffectView;

    open spec fn view(&self) -> EffectView {
        match self {
            Effect::Ui(call) => EffectView::Ui(call@),
            Effect::LoadSelection => EffectView::LoadSelection,
            Effect::Search => EffectView::Search,
            Effect::CheckSetup(path) => EffectView::CheckSetup(path@),
            Effect::SaveSelection(path, channel, language) => EffectView::SaveSelection(
                path@,
                *channel,
                language@,
            ),
            Effect::Provision => EffectView::Provision,
            Effect::QueryReleases => EffectView::QueryReleases,
            Effect::Upgrade(url) => EffectView::Upgrade(url@),
            Effect::LoadSettings => EffectView::LoadSettings,
            Effect::EditSettings(edit) => EffectView::EditSettings(edit@),
            Effect::SaveSettings(message) => EffectView::SaveSettings(message@),
            Effect::DiscardSettings => EffectView::DiscardSettings,
            Effect::LaunchGame(message) => EffectView::LaunchGame(message@),
            Effect::LaunchCompanion(message) => EffectView::LaunchCompanion(message@),
        }
    }
}

/// The effects of a list, each by its view.
pub open spec fn effect_views(effects: Seq<Effect>) -> Seq<EffectView> {
    Seq::new(effects.len(), |i: int| effects[i]@)
}

/// The effect that shows an error.
pub open spec fn show_error(message: Seq<char>) -> EffectView {
    EffectView::Ui(UiCallView::SetTaskText(TextLevel::Error, message))
}

/// The effect that shows what is going on.
pub open spec fn show_info(message: Seq<char>) -> EffectView {
    EffectView::Ui(UiCallView::SetTaskText(TextLevel::Info, message))
}

/// The effect that clears the status.
pub open spec fn clear_status() -> EffectView {
    EffectView::Ui(UiCallView::ClearTaskText)
}

/// The effect that shows the setup page.
pub open spec fn show_wizard() -> EffectView {
    EffectView::Ui(UiCallView::SetCurrentPage(1))
}

/// The executables of the candidates that the setup page offers, in the
/// order the candidates were found. The remastered edition is left out:
/// the runtime does not support it.
pub open spec fn offered_paths(found: Seq<InstallationView>) -> Seq<EffectView>
    decreases found.len(),
{
    if found.len() == 0 {
        Seq::empty()
    } else {
        let rest = offered_paths(found.drop_last());
        let last = found.last();
        if last.edition == Edition::Remastered {
            rest
        } else {
            rest.push(
                EffectView::Ui(
                    UiCallView::SetGameExePath(joined_path(last.app_path, last.exe_name)),
                ),
            )
        }
    }
}

/// The directory that the runtime is told to work on when the game is
/// launched: where the game runs inside a compatibility prefix, the parent
/// of the runtime's directory, which lies in the game's; else the game's
/// directory itself.
pub open spec fn launch_app_path(platform: Platform, app_path: Seq<char>) -> Seq<char> {
    match platform {
        Platform::Unix => ".."@,
        Platform::Windows { my_documents, saved_games } => app_path,
    }
}

/// Whether the runtime that is installed differs from a release.
pub open spec fn differs_from(installed: Seq<char>, release_tag: Seq<char>) -> bool {
    installed != release_tag
}


/// What the orchestrator keeps between two events.
pub struct WorkerState {
    pub phase: Phase,
    /// Whether the game has been ready once.
    pub initialized: bool,
    pub platform: Platform,
    /// The update channel in force.
    pub update_channel: UpdateChannel,
    /// The installation in force.
    pub installation: Option<InstallationView>,
    /// The runtime of the installation in force.
    pub ffnx: Option<FfnxInstallationView>,
    /// Whether the setup that is under way was asked for on the setup page.
    pub on_wizard: bool,
    /// Whether the installation in force comes from a setup of the user and
    /// has not been kept for the next run yet.
    pub unsaved: bool,
    /// The channel of the setup that is under way.
    pub pending_channel: UpdateChannel,
    /// The language of the setup that is under way.
    pub pending_language: Seq<char>,
}

/// The views of a list of installations.
pub open spec fn installation_views(found: Seq<Installation>) -> Seq<InstallationView> {
    Seq::new(found.len(), |i: int| found[i]@)
}

/// The view of an installation that may be absent.
pub open spec fn optional_installation(installation: Option<Installation>) -> Option<InstallationView> {
    match installation {
        Some(i) => Some(i@),
        None => None,
    }
}

/// The executable of an installation.
pub open spec fn exe_path_of(installation: InstallationView) -> Seq<char> {
    joined_path(installation.app_path, installation.exe_name)
}

/// What follows a setup that has failed: on the setup page, the page is
/// shown again; while the game was ready, the orchestrator ends.
pub open spec fn after_failed_setup(state: WorkerState, message: Seq<char>) -> (
    WorkerState,
    Seq<EffectView>,
) {
    if state.on_wizard {
        (WorkerState { phase: Phase::Wizard, ..state }, seq![show_error(message), show_wizard()])
    } else {
        (WorkerState { phase: Phase::Stopped, ..state }, seq![show_error(message)])
    }
}

/// The release that an upgrade would install, where the release index
/// names one that differs from what is installed.
pub open spec fn upgrade_needed(state: WorkerState, releases: Option<LatestRelease>) -> bool {
    match (
        state.ffnx,
        crate::game::ffnx_installation::channel_release(state.update_channel, releases),
    ) {
        (Some(ffnx), Some(release)) => differs_from(ffnx.version, release.tag_name),
        _ => false,
    }
}

/// What a message means while the game is ready.
pub open spec fn react_ready(state: WorkerState, message: Message) -> (WorkerState, Seq<EffectView>) {
    match message {
        Message::Setup(path, channel, language) => (
            WorkerState {
                phase: Phase::Checking,
                on_wizard: false,
                pending_channel: channel,
                pending_language: language@,
                ..state
            },
            seq![EffectView::Ui(UiCallView::SetGameReady(false)), EffectView::CheckSetup(path@)],
        ),
        Message::UpdateGame => (
            WorkerState { phase: Phase::CheckingUpdate, ..state },
            seq![
                EffectView::LoadSettings,
                show_info(MESSAGE_CHECK_UPDATE@),
                EffectView::QueryReleases,
            ],
        ),
        Message::LaunchGame => (
            state,
            seq![
                EffectView::EditSettings(
                    EditView::AppPath(
                        launch_app_path(
                            state.platform,
                            match state.installation {
                                Some(i) => i.app_path,
                                None => Seq::empty(),
                            },
                        ),
                    ),
                ),
                EffectView::SaveSettings(MESSAGE_CANNOT_SAVE_FFNX_CONFIG@),
                EffectView::LaunchGame(MESSAGE_CANNOT_LAUNCH@),
                clear_status(),
            ],
        ),
        Message::LaunchCW => (
            state,
            seq![EffectView::LaunchCompanion(MESSAGE_CANNOT_LAUNCH@), clear_status()],
        ),
        Message::SetFfnxConfigBool(key, value) => (
            state,
            seq![EffectView::EditSettings(EditView::Bool(key@, value)), clear_status()],
        ),
        Message::SetFfnxConfigInt(key, value) => (
            state,
            seq![EffectView::EditSettings(EditView::Int(key@, value)), clear_status()],
        ),
        Message::SetFfnxConfigString(key, value) => (
            state,
            seq![EffectView::EditSettings(EditView::Text(key@, value@)), clear_status()],
        ),
        Message::SetFfnxConfigCurrentRefreshRate(resolution, rate) => (
            state,
            seq![EffectView::EditSettings(EditView::RefreshRate(resolution, rate)), clear_status()],
        ),
        Message::ConfigureFfnx => (
            state,
            seq![
                EffectView::Ui(UiCallView::ShowSettings),
                EffectView::SaveSettings(MESSAGE_CANNOT_SAVE_FFNX_CONFIG@),
                clear_status(),
            ],
        ),
        Message::CancelConfigureFfnx => (state, seq![EffectView::DiscardSettings, clear_status()]),
        Message::Quit => (WorkerState { phase: Phase::Stopped, ..state }, Seq::empty()),
    }
}

/// What is shown once the game is ready: the settings and the whole window
/// the first time, the readiness alone afterwards.
pub open spec fn ready_effects(initialized: bool) -> Seq<EffectView> {
    if initialized {
        seq![EffectView::Ui(UiCallView::SetGameReady(true)), clear_status()]
    } else {
        seq![
            clear_status(),
            EffectView::Ui(UiCallView::SetInitialized(true)),
            EffectView::Ui(UiCallView::SetGameReady(true)),
            EffectView::Ui(UiCallView::ShowSettings),
        ]
    }
}

/// What an event means to the orchestrator: the state it moves to, and the
/// effects it wants carried out, in order. An event that the phase does not
/// wait for changes nothing.
pub open spec fn react(state: WorkerState, event: Event) -> (WorkerState, Seq<EffectView>) {
    match (state.phase, event) {
        (Phase::Starting, Event::Started) => (
            WorkerState { phase: Phase::Loading, ..state },
            seq![EffectView::LoadSelection],
        ),
        (Phase::Loading, Event::SelectionLoaded(channel, installation)) => {
            let update_channel = match channel {
                Some(c) => c,
                None => UpdateChannel::Stable,
            };
            match installation {
                Some(i) => (
                    WorkerState {
                        phase: Phase::Provisioning,
                        update_channel,
                        installation: Some(i@),
                        unsaved: false,
                        ..state
                    },
                    seq![
                        EffectView::Ui(UiCallView::SetUpdateChannel(update_channel)),
                        EffectView::Ui(UiCallView::SetGameExePath(exe_path_of(i@))),
                        EffectView::Provision,
                    ],
                ),
                None => (
                    WorkerState { phase: Phase::Searching, update_channel, ..state },
                    seq![
                        EffectView::Ui(UiCallView::SetUpdateChannel(update_channel)),
                        EffectView::Search,
                    ],
                ),
            }
        },
        (Phase::Searching, Event::Searched(found)) => (
            WorkerState { phase: Phase::Wizard, ..state },
            offered_paths(installation_views(found@)).push(show_wizard()),
        ),
        (Phase::Wizard, Event::Message(Message::Setup(path, channel, language))) => (
            WorkerState {
                phase: Phase::Checking,
                on_wizard: true,
                pending_channel: channel,
                pending_language: language@,
                ..state
            },
            seq![EffectView::CheckSetup(path@)],
        ),
        (Phase::Wizard, Event::Message(Message::Quit)) => (
            WorkerState { phase: Phase::Stopped, ..state },
            Seq::empty(),
        ),
        (Phase::Wizard, Event::Message(_)) => (
            state,
            seq![show_error(MESSAGE_UNKNOWN_ACTION@), show_wizard()],
        ),
        (Phase::Wizard, Event::Closed) => (WorkerState { phase: Phase::Stopped, ..state }, Seq::empty()),
        (Phase::Checking, Event::SetupChecked(Ok(installation))) => (
            WorkerState {
                phase: Phase::Provisioning,
                installation: Some(installation@),
                update_channel: state.pending_channel,
                unsaved: true,
                ..state
            },
            seq![
                EffectView::Ui(UiCallView::SetGameExePath(exe_path_of(installation@))),
                EffectView::Ui(UiCallView::SetUpdateChannel(state.pending_channel)),
                EffectView::Provision,
            ],
        ),
        (Phase::Checking, Event::SetupChecked(Err(_))) => after_failed_setup(
            state,
            MESSAGE_FILE_NOT_FOUND@,
        ),
        (Phase::Provisioning, Event::Provisioned(Ok(ffnx))) => if state.unsaved {
            (
                WorkerState { phase: Phase::Saving, ffnx: Some(ffnx@), ..state },
                seq![
                    EffectView::SaveSelection(
                        match state.installation {
                            Some(i) => exe_path_of(i),
                            None => Seq::empty(),
                        },
                        state.update_channel,
                        state.pending_language,
                    ),
                ],
            )
        } else {
            (
                WorkerState { phase: Phase::Ready, initialized: true, ffnx: Some(ffnx@), ..state },
                ready_effects(state.initialized),
            )
        },
        (Phase::Provisioning, Event::Provisioned(Err(_))) => (
            WorkerState { phase: Phase::Wizard, ..state },
            seq![show_error(MESSAGE_CANNOT_INSTALL@), show_wizard()],
        ),
        (Phase::Saving, Event::SelectionSaved(saved)) => if saved {
            (
                WorkerState { phase: Phase::Ready, initialized: true, unsaved: false, ..state },
                ready_effects(state.initialized),
            )
        } else {
            after_failed_setup(state, MESSAGE_CANNOT_SAVE_CONFIG@)
        },
        (Phase::Ready, Event::Message(message)) => react_ready(state, message),
        (Phase::Ready, Event::Closed) => (WorkerState { phase: Phase::Stopped, ..state }, Seq::empty()),
        (Phase::CheckingUpdate, Event::Releases(releases)) => (
            WorkerState { phase: Phase::Ready, ..state },
            if upgrade_needed(state, releases) {
                seq![
                    show_info(MESSAGE_UPGRADE_IN_PROGRESS@),
                    EffectView::Ui(UiCallView::SetGameReady(false)),
                    EffectView::Upgrade(
                        crate::game::ffnx_installation::version_url(
                            match state.installation {
                                Some(i) => i.edition,
                                None => Edition::Standard,
                            },
                            state.update_channel,
                            releases,
                        ),
                    ),
                    EffectView::Ui(UiCallView::SetGameReady(true)),
                    clear_status(),
                    EffectView::SaveSettings(MESSAGE_CANNOT_SAVE_FFNX_CONFIG@),
                    clear_status(),
                ]
            } else {
                seq![
                    clear_status(),
                    EffectView::SaveSettings(MESSAGE_CANNOT_SAVE_FFNX_CONFIG@),
                    clear_status(),
                ]
            },
        ),
        _ => (state, Seq::empty()),
    }
}


/// The orchestrator. It is told one event at a time and answers with the
/// effects that it wants carried out.
pub struct WorkerLoop {
    phase: Phase,
    initialized: bool,
    platform: Platform,
    update_channel: UpdateChannel,
    installation: Option<Installation>,
    ffnx: Option<FfnxInstallation>,
    on_wizard: bool,
    unsaved: bool,
    pending_channel: UpdateChannel,
    pending_language: String,
}

/// Appends an effect to a list of effects.
fn push_effect(effects: &mut Vec<Effect>, effect: Effect)
    ensures
        effect_views(final(effects)@) == effect_views(old(effects)@).push(effect@),
{
    effects.push(effect);
    assert(effect_views(effects@) =~= effect_views(old(effects)@).push(effect@));
}

/// Appends the effect that shows an error.
fn push_error(effects: &mut Vec<Effect>, message: &'static str)
    ensures
        effect_views(final(effects)@) == effect_views(old(effects)@).push(show_error(message@)),
{
    push_effect(effects, Effect::Ui(UiCall::SetTaskText(TextLevel::Error, message)));
}

/// Appends the effect that clears the status.
fn push_clear(effects: &mut Vec<Effect>)
    ensures
        effect_views(final(effects)@) == effect_views(old(effects)@).push(clear_status()),
{
    push_effect(effects, Effect::Ui(UiCall::ClearTaskText));
}

impl WorkerLoop {
    /// What the orchestrator keeps between two events.
    pub closed spec fn state(&self) -> WorkerState {
        WorkerState {
            phase: self.phase,
            initialized: self.initialized,
            platform: self.platform,
            update_channel: self.update_channel,
            installation: optional_installation(self.installation),
            ffnx: match self.ffnx {
                Some(f) => Some(f@),
                None => None,
            },
            on_wizard: self.on_wizard,
            unsaved: self.unsaved,
            pending_channel: self.pending_channel,
            pending_language: self.pending_language@,
        }
    }

    /// An orchestrator that has not started.
    pub fn new(platform: Platform) -> (worker: WorkerLoop)
        ensures
            worker.state() == (WorkerState {
                phase: Phase::Starting,
                initialized: false,
                platform,
                update_channel: UpdateChannel::Stable,
                installation: None,
                ffnx: None,
                on_wizard: true,
                unsaved: false,
                pending_channel: UpdateChannel::Stable,
                pending_language: Seq::empty(),
            }),
    {
        WorkerLoop {
            phase: Phase::Starting,
            initialized: false,
            platform,
            update_channel: UpdateChannel::Stable,
            installation: None,
            ffnx: None,
            on_wizard: true,
            unsaved: false,
            pending_channel: UpdateChannel::Stable,
            pending_language: String::new(),
        }
    }

    /// What the orchestrator waits for.
    pub fn phase(&self) -> (phase: Phase)
        ensures
            phase == self.state().phase,
    {
        self.phase
    }

    /// The update channel in force.
    pub fn update_channel(&self) -> (channel: UpdateChannel)
        ensures
            channel == self.state().update_channel,
    {
        self.update_channel
    }

    /// The installation in force.
    pub fn installation(&self) -> (installation: Option<&Installation>)
        ensures
            match installation {
                Some(i) => self.state().installation == Some(i@),
                None => self.state().installation is None,
            },
    {
        self.installation.as_ref()
    }

    /// The runtime of the installation in force.
    pub fn runtime(&self) -> (ffnx: Option<&FfnxInstallation>)
        ensures
            match ffnx {
                Some(f) => self.state().ffnx == Some(f@),
                None => self.state().ffnx is None,
            },
    {
        self.ffnx.as_ref()
    }

    /// Marks the game as ready.
    fn get_ready(&mut self) -> (effects: Vec<Effect>)
        ensures
            final(self).state() == (WorkerState {
                phase: Phase::Ready,
                initialized: true,
                ..old(self).state()
            }),
            effect_views(effects@) == ready_effects(old(self).state().initialized),
    {
        let mut effects: Vec<Effect> = Vec::new();
        assert(effect_views(effects@) =~= Seq::<EffectView>::empty());
        self.phase = Phase::Ready;
        if self.initialized {
            push_effect(&mut effects, Effect::Ui(UiCall::SetGameReady(true)));
            push_clear(&mut effects);
        } else {
            self.initialized = true;
            push_clear(&mut effects);
            push_effect(&mut effects, Effect::Ui(UiCall::SetInitialized(true)));
            push_effect(&mut effects, Effect::Ui(UiCall::SetGameReady(true)));
            push_effect(&mut effects, Effect::Ui(UiCall::ShowSettings));
        }
        assert(effect_views(effects@) =~= ready_effects(old(self).state().initialized));
        effects
    }

    /// What follows a setup that has failed.
    fn fail_setup(&mut self, message: &'static str) -> (effects: Vec<Effect>)
        ensures
            (final(self).state(), effect_views(effects@)) == after_failed_setup(
                old(self).state(),
                message@,
            ),
    {
        let mut effects: Vec<Effect> = Vec::new();
        assert(effect_views(effects@) =~= Seq::<EffectView>::empty());
        push_error(&mut effects, message);
        if self.on_wizard {
            self.phase = Phase::Wizard;
            push_effect(&mut effects, Effect::Ui(UiCall::SetCurrentPage(1)));
            assert(effect_views(effects@) =~= seq![show_error(message@), show_wizard()]);
        } else {
            self.phase = Phase::Stopped;
            assert(effect_views(effects@) =~= seq![show_error(message@)]);
        }
        effects
    }

    /// The effects that offer the executables of the candidates found, and
    /// show the setup page.
    fn offer(found: &Vec<Installation>) -> (effects: Vec<Effect>)
        ensures
            effect_views(effects@) == offered_paths(installation_views(found@)).push(show_wizard()),
    {
        let ghost views = installation_views(found@);
        let mut effects: Vec<Effect> = Vec::new();
        let mut i: usize = 0;
        assert(views.take(0) =~= Seq::<InstallationView>::empty());
        assert(effect_views(effects@) =~= Seq::<EffectView>::empty());
        while i < found.len()
            invariant
                i <= found.len(),
                views == installation_views(found@),
                effect_views(effects@) == offered_paths(views.take(i as int)),
            decreases found.len() - i,
        {
            proof {
                assert(views.take(i + 1).drop_last() =~= views.take(i as int));
                assert(views.take(i + 1).last() == found[i as int]@);
            }
            match found[i].edition {
                Edition::Remastered => {},
                _ => {
                    push_effect(&mut effects, Effect::Ui(UiCall::SetGameExePath(found[i].exe_path())));
                },
            }
            i += 1;
        }
        assert(views.take(found.len() as int) =~= views);
        push_effect(&mut effects, Effect::Ui(UiCall::SetCurrentPage(1)));
        effects
    }

    /// Answers a message that comes while the game is ready.
    fn handle_ready(&mut self, message: Message) -> (effects: Vec<Effect>)
        requires
            old(self).phase == Phase::Ready,
        ensures
            (final(self).state(), effect_views(effects@)) == react_ready(old(self).state(), message),
    {
        let mut effects: Vec<Effect> = Vec::new();
        assert(effect_views(effects@) =~= Seq::<EffectView>::empty());
        match message {
            Message::Setup(path, channel, language) => {
                self.pending_channel = channel;
                self.pending_language = language;
                self.on_wizard = false;
                self.phase = Phase::Checking;
                push_effect(&mut effects, Effect::Ui(UiCall::SetGameReady(false)));
                push_effect(&mut effects, Effect::CheckSetup(path));
                assert(effect_views(effects@) =~= react_ready(old(self).state(), message).1);
            },
            Message::UpdateGame => {
                self.phase = Phase::CheckingUpdate;
                push_effect(&mut effects, Effect::LoadSettings);
                push_effect(
                    &mut effects,
                    Effect::Ui(UiCall::SetTaskText(TextLevel::Info, MESSAGE_CHECK_UPDATE)),
                );
                push_effect(&mut effects, Effect::QueryReleases);
                assert(effect_views(effects@) =~= react_ready(old(self).state(), message).1);
            },
            Message::LaunchGame => {
                let app_path = match &self.platform {
                    Platform::Unix => "..".to_string(),
                    Platform::Windows { my_documents, saved_games } => match &self.installation {
                        Some(i) => i.app_path.clone(),
                        None => String::new(),
                    },
                };
                push_effect(&mut effects, Effect::EditSettings(Edit::AppPath(app_path)));
                push_effect(&mut effects, Effect::SaveSettings(MESSAGE_CANNOT_SAVE_FFNX_CONFIG));
                push_effect(&mut effects, Effect::LaunchGame(MESSAGE_CANNOT_LAUNCH));
                push_clear(&mut effects);
                assert(effect_views(effects@) =~= react_ready(old(self).state(), message).1);
            },
            Message::LaunchCW => {
                push_effect(&mut effects, Effect::LaunchCompanion(MESSAGE_CANNOT_LAUNCH));
                push_clear(&mut effects);
                assert(effect_views(effects@) =~= react_ready(old(self).state(), message).1);
            },
            Message::SetFfnxConfigBool(key, value) => {
                push_effect(&mut effects, Effect::EditSettings(Edit::Bool(key, value)));
                push_clear(&mut effects);
                assert(effect_views(effects@) =~= react_ready(old(self).state(), message).1);
            },
            Message::SetFfnxConfigInt(key, value) => {
                push_effect(&mut effects, Effect::EditSettings(Edit::Int(key, value)));
                push_clear(&mut effects);
                assert(effect_views(effects@) =~= react_ready(old(self).state(), message).1);
            },
            Message::SetFfnxConfigString(key, value) => {
                push_effect(&mut effects, Effect::EditSettings(Edit::Text(key, value)));
                push_clear(&mut effects);
                assert(effect_views(effects@) =~= react_ready(old(self).state(), message).1);
            },
            Message::SetFfnxConfigCurrentRefreshRate(resolution, rate) => {
                push_effect(&mut effects, Effect::EditSettings(Edit::RefreshRate(resolution, rate)));
                push_clear(&mut effects);
                assert(effect_views(effects@) =~= react_ready(old(self).state(), message).1);
            },
            Message::ConfigureFfnx => {
                push_effect(&mut effects, Effect::Ui(UiCall::ShowSettings));
                push_effect(&mut effects, Effect::SaveSettings(MESSAGE_CANNOT_SAVE_FFNX_CONFIG));
                push_clear(&mut effects);
                assert(effect_views(effects@) =~= react_ready(old(self).state(), message).1);
            },
            Message::CancelConfigureFfnx => {
                push_effect(&mut effects, Effect::DiscardSettings);
                push_clear(&mut effects);
                assert(effect_views(effects@) =~= react_ready(old(self).state(), message).1);
            },
            Message::Quit => {
                self.phase = Phase::Stopped;
            },
        }
        effects
    }

    /// Tells whether the release index names, for the channel in force, a
    /// release that differs from the runtime that is installed.
    fn needs_upgrade(&self, releases: &Option<LatestRelease>) -> (needed: bool)
        ensures
            needed == upgrade_needed(self.state(), *releases),
    {
        let release = match releases {
            None => &None,
            Some(last) => match self.update_channel {
                UpdateChannel::Stable => &last.latest,
                UpdateChannel::Beta => &last.latest_not_recent,
                UpdateChannel::Alpha => &last.prerelease,
            },
        };
        match (&self.ffnx, release) {
            (Some(ffnx), Some(release)) => ffnx.version != release.tag_name,
            _ => false,
        }
    }

    /// Answers an event that comes before the setup page is shown.
    fn handle_discovery(&mut self, event: Event) -> (effects: Vec<Effect>)
        requires
            old(self).phase == Phase::Starting || old(self).phase == Phase::Loading || old(self).phase
                == Phase::Searching,
        ensures
            (final(self).state(), effect_views(effects@)) == react(old(self).state(), event),
    {
        let mut effects: Vec<Effect> = Vec::new();
        assert(effect_views(effects@) =~= Seq::<EffectView>::empty());
        match (self.phase, event) {
            (Phase::Starting, Event::Started) => {
                self.phase = Phase::Loading;
                push_effect(&mut effects, Effect::LoadSelection);
                assert(effect_views(effects@) =~= react(old(self).state(), event).1);
                effects
            },
            (Phase::Loading, Event::SelectionLoaded(channel, installation)) => {
                let update_channel = match channel {
                    Some(c) => c,
                    None => UpdateChannel::Stable,
                };
                self.update_channel = update_channel;
                push_effect(&mut effects, Effect::Ui(UiCall::SetUpdateChannel(update_channel)));
                match installation {
                    Some(i) => {
                        push_effect(&mut effects, Effect::Ui(UiCall::SetGameExePath(i.exe_path())));
                        push_effect(&mut effects, Effect::Provision);
                        self.installation = Some(i);
                        self.unsaved = false;
                        self.phase = Phase::Provisioning;
                    },
                    None => {
                        push_effect(&mut effects, Effect::Search);
                        self.phase = Phase::Searching;
                    },
                }
                assert(effect_views(effects@) =~= react(old(self).state(), event).1);
                effects
            },
            (Phase::Searching, Event::Searched(found)) => {
                self.phase = Phase::Wizard;
                Self::offer(&found)
            },
            _ => effects,
        }
    }

    /// Answers an event that comes while the setup page is shown.
    fn handle_wizard(&mut self, event: Event) -> (effects: Vec<Effect>)
        requires
            old(self).phase == Phase::Wizard,
        ensures
            (final(self).state(), effect_views(effects@)) == react(old(self).state(), event),
    {
        let mut effects: Vec<Effect> = Vec::new();
        assert(effect_views(effects@) =~= Seq::<EffectView>::empty());
        match event {
            Event::Message(Message::Setup(path, channel, language)) => {
                self.pending_channel = channel;
                self.pending_language = language;
                self.on_wizard = true;
                self.phase = Phase::Checking;
                push_effect(&mut effects, Effect::CheckSetup(path));
                assert(effect_views(effects@) =~= react(old(self).state(), event).1);
                effects
            },
            Event::Message(Message::Quit) => {
                self.phase = Phase::Stopped;
                effects
            },
            Event::Message(_) => {
                push_error(&mut effects, MESSAGE_UNKNOWN_ACTION);
                push_effect(&mut effects, Effect::Ui(UiCall::SetCurrentPage(1)));
                assert(effect_views(effects@) =~= react(old(self).state(), event).1);
                effects
            },
            Event::Closed => {
                self.phase = Phase::Stopped;
                effects
            },
            _ => effects,
        }
    }

    /// Answers an event that comes while a setup is under way.
    fn handle_setup(&mut self, event: Event) -> (effects: Vec<Effect>)
        requires
            old(self).phase == Phase::Checking || old(self).phase == Phase::Provisioning || old(
                self,
            ).phase == Phase::Saving,
        ensures
            (final(self).state(), effect_views(effects@)) == react(old(self).state(), event),
    {
        let mut effects: Vec<Effect> = Vec::new();
        assert(effect_views(effects@) =~= Seq::<EffectView>::empty());
        match (self.phase, event) {
            (Phase::Checking, Event::SetupChecked(Ok(installation))) => {
                push_effect(&mut effects, Effect::Ui(UiCall::SetGameExePath(installation.exe_path())));
                push_effect(&mut effects, Effect::Ui(UiCall::SetUpdateChannel(self.pending_channel)));
                push_effect(&mut effects, Effect::Provision);
                self.installation = Some(installation);
                self.update_channel = self.pending_channel;
                self.unsaved = true;
                self.phase = Phase::Provisioning;
                assert(effect_views(effects@) =~= react(old(self).state(), event).1);
                effects
            },
            (Phase::Checking, Event::SetupChecked(Err(_))) => {
                self.fail_setup(MESSAGE_FILE_NOT_FOUND)
            },
            (Phase::Provisioning, Event::Provisioned(Ok(ffnx))) => {
                self.ffnx = Some(ffnx);
                if self.unsaved {
                    let exe_path = match &self.installation {
                        Some(i) => i.exe_path(),
                        None => String::new(),
                    };
                    push_effect(
                        &mut effects,
                        Effect::SaveSelection(exe_path, self.update_channel, self.pending_language.clone()),
                    );
                    self.phase = Phase::Saving;
                    assert(effect_views(effects@) =~= react(old(self).state(), event).1);
                    effects
                } else {
                    self.get_ready()
                }
            },
            (Phase::Provisioning, Event::Provisioned(Err(_))) => {
                self.phase = Phase::Wizard;
                push_error(&mut effects, MESSAGE_CANNOT_INSTALL);
                push_effect(&mut effects, Effect::Ui(UiCall::SetCurrentPage(1)));
                assert(effect_views(effects@) =~= react(old(self).state(), event).1);
                effects
            },
            (Phase::Saving, Event::SelectionSaved(saved)) => {
                if saved {
                    self.unsaved = false;
                    self.get_ready()
                } else {
                    self.fail_setup(MESSAGE_CANNOT_SAVE_CONFIG)
                }
            },
            _ => effects,
        }
    }

    /// Answers the release index while an upgrade is looked for.
    fn handle_update(&mut self, event: Event) -> (effects: Vec<Effect>)
        requires
            old(self).phase == Phase::CheckingUpdate,
        ensures
            (final(self).state(), effect_views(effects@)) == react(old(self).state(), event),
    {
        let mut effects: Vec<Effect> = Vec::new();
        assert(effect_views(effects@) =~= Seq::<EffectView>::empty());
        match event {
            Event::Releases(releases) => {
                self.phase = Phase::Ready;
                if self.needs_upgrade(&releases) {
                    let edition = match &self.installation {
                        Some(i) => i.edition,
                        None => Edition::Standard,
                    };
                    let url = FfnxInstallation::find_version_on_github(
                        &edition,
                        self.update_channel,
                        releases,
                    );
                    push_effect(
                        &mut effects,
                        Effect::Ui(UiCall::SetTaskText(TextLevel::Info, MESSAGE_UPGRADE_IN_PROGRESS)),
                    );
                    push_effect(&mut effects, Effect::Ui(UiCall::SetGameReady(false)));
                    push_effect(&mut effects, Effect::Upgrade(url));
                    push_effect(&mut effects, Effect::Ui(UiCall::SetGameReady(true)));
                }
                push_clear(&mut effects);
                push_effect(&mut effects, Effect::SaveSettings(MESSAGE_CANNOT_SAVE_FFNX_CONFIG));
                push_clear(&mut effects);
                assert(effect_views(effects@) =~= react(old(self).state(), event).1);
                effects
            },
            _ => effects,
        }
    }

    /// Tells the orchestrator what has happened, and gets the effects that it
    /// wants carried out, in order.
    pub fn handle(&mut self, event: Event) -> (effects: Vec<Effect>)
        ensures
            (final(self).state(), effect_views(effects@)) == react(old(self).state(), event),
    {
        match self.phase {
            Phase::Starting | Phase::Loading | Phase::Searching => self.handle_discovery(event),
            Phase::Wizard => self.handle_wizard(event),
            Phase::Checking | Phase::Provisioning | Phase::Saving => self.handle_setup(event),
            Phase::Ready => match event {
                Event::Message(message) => self.handle_ready(message),
                Event::Closed => {
                    self.phase = Phase::Stopped;
                    let effects: Vec<Effect> = Vec::new();
                    assert(effect_views(effects@) =~= Seq::<EffectView>::empty());
                    effects
                },
                _ => {
                    let effects: Vec<Effect> = Vec::new();
                    assert(effect_views(effects@) =~= Seq::<EffectView>::empty());
                    effects
                },
            },
            Phase::CheckingUpdate => self.handle_update(event),
            Phase::Stopped => {
                let effects: Vec<Effect> = Vec::new();
                assert(effect_views(effects@) =~= Seq::<EffectView>::empty());
                effects
            },
        }
    }
}

/// A provisioning that fails does not end the orchestrator: the error is
/// shown and the setup page comes back.
pub proof fn lemma_failed_provisioning_returns_to_wizard(state: WorkerState, error: InstallError)
    requires
        state.phase == Phase::Provisioning,
    ensures
        react(state, Event::Provisioned(Err(error))).0.phase == Phase::Wizard,
        react(state, Event::Provisioned(Err(error))).1 == seq![
            show_error(MESSAGE_CANNOT_INSTALL@),
            show_wizard(),
        ],
{
}

/// On the setup page a message that is neither a setup nor a quit is
/// answered by an error and changes nothing.
pub proof fn lemma_unknown_message_is_ignored(state: WorkerState, message: Message)
    requires
        state.phase == Phase::Wizard,
        !(message is Setup),
        !(message is Quit),
    ensures
        react(state, Event::Message(message)).0 == state,
        react(state, Event::Message(message)).1 == seq![
            show_error(MESSAGE_UNKNOWN_ACTION@),
            show_wizard(),
        ],
{
}

/// An orchestrator that has ended stays ended and wants nothing.
pub proof fn lemma_stopped_is_final(state: WorkerState, event: Event)
    requires
        state.phase == Phase::Stopped,
    ensures
        react(state, event) == (state, Seq::<EffectView>::empty()),
{
}

/// The game gets ready in three ways only: a provisioning of the
/// installation kept from the last run has succeeded; the selection of the
/// user was kept after the provisioning of it had succeeded; an upgrade check
/// has ended while the game was ready.
pub proof fn lemma_ready_needs_provisioning(state: WorkerState, event: Event)
    requires
        state.phase != Phase::Ready,
        react(state, event).0.phase == Phase::Ready,
    ensures
        (state.phase == Phase::Provisioning && !state.unsaved && event matches Event::Provisioned(
            Ok(_),
        )) || (state.phase == Phase::Saving && event == Event::SelectionSaved(true)) || state.phase
            == Phase::CheckingUpdate,
{
}

/// A selection of the user is kept for the next run only once the runtime
/// has been provisioned for it.
pub proof fn lemma_selection_is_kept_after_provisioning(state: WorkerState, event: Event, i: int)
    requires
        0 <= i < react(state, event).1.len(),
        react(state, event).1[i] is SaveSelection,
    ensures
        state.phase == Phase::Provisioning,
        state.unsaved,
        event matches Event::Provisioned(Ok(_)),
        react(state, event).0.phase == Phase::Saving,
{
    if state.phase == Phase::Searching {
        if let Event::Searched(found) = event {
            lemma_offers_are_paths(installation_views(found@), i);
        }
    }
}

/// The setup page is offered nothing but executables.
pub proof fn lemma_offers_are_paths(found: Seq<InstallationView>, i: int)
    ensures
        0 <= i < offered_paths(found).len() ==> offered_paths(found)[i] is Ui,
        offered_paths(found).len() <= found.len(),
    decreases found.len(),
{
    if found.len() > 0 {
        lemma_offers_are_paths(found.drop_last(), i);
    }
}

/// The orchestrator ends only where the user quits, where no message can
/// come any more, or where a setup asked for while the game was ready fails.
pub proof fn lemma_stops_only_on_request(state: WorkerState, event: Event)
    requires
        state.phase != Phase::Stopped,
        react(state, event).0.phase == Phase::Stopped,
    ensures
        event matches Event::Message(Message::Quit) || event is Closed || (!state.on_wizard && (
            state.phase == Phase::Checking || state.phase == Phase::Saving)),
{
}

} // verus!
