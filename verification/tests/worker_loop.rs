use mumba_core::config::UpdateChannel;
use mumba_core::game::ffnx_installation::FfnxInstallation;
use mumba_core::game::installation::{
    DirectoryProbe, Edition, FileProbe, FromExeError, Installation, Platform,
};
use mumba_core::github::{GitHubRelease, LatestRelease};
use mumba_core::install::InstallError;
use mumba_core::pe_format::{IoErrorKind, ProductVersion, VersionInfo};
use mumba_core::ui::{pos_to_language, TextLevel, WizardStatus};
use mumba_core::worker_loop::{Edit, Effect, Event, Message, Phase, UiCall, WorkerLoop};

fn installation(edition: Edition) -> Installation {
    let (name, steam_lang) = match edition {
        Edition::Standard => ("FF8.exe", None),
        Edition::Steam => ("FF8_EN.exe", Some(String::from("en"))),
        Edition::Remastered => ("FFVIII.exe", None),
    };
    let probe = DirectoryProbe {
        steam_lang,
        standard_lang: None,
        files: vec![FileProbe { name: String::from(name), header: vec![] }],
    };
    Installation::from_directory("/games/ff8", edition, &probe, &Platform::Unix).unwrap()
}

fn runtime(version: (u16, u16, u16)) -> FfnxInstallation {
    let infos = VersionInfo {
        product_version: ProductVersion { major: version.0, minor: version.1, patch: version.2, build: 0 },
        product_name: None,
        original_filename: None,
        legal_copyright: None,
    };
    FfnxInstallation::from_directory("/games/ff8/mumba", &installation(Edition::Steam), Ok(infos)).unwrap()
}

fn show(effects: &[Effect]) -> Vec<String> {
    effects
        .iter()
        .map(|effect| match effect {
            Effect::Ui(UiCall::SetTaskText(TextLevel::Info, id)) => format!("info {}", id),
            Effect::Ui(UiCall::SetTaskText(TextLevel::Error, id)) => format!("error {}", id),
            Effect::Ui(UiCall::ClearTaskText) => String::from("clear"),
            Effect::Ui(UiCall::SetGameReady(ready)) => format!("ready {}", ready),
            Effect::Ui(UiCall::SetInitialized(done)) => format!("initialized {}", done),
            Effect::Ui(UiCall::SetGameExePath(path)) => format!("exe {}", path),
            Effect::Ui(UiCall::SetUpdateChannel(channel)) => format!("channel {}", channel.ordinal()),
            Effect::Ui(UiCall::SetCurrentPage(page)) => format!("page {}", page),
            Effect::Ui(UiCall::ShowSettings) => String::from("show settings"),
            Effect::LoadSelection => String::from("load selection"),
            Effect::Search => String::from("search"),
            Effect::CheckSetup(path) => format!("check {}", path),
            Effect::SaveSelection(path, channel, language) => {
                format!("save {} {} {}", path, channel.ordinal(), language)
            }
            Effect::Provision => String::from("provision"),
            Effect::QueryReleases => String::from("query releases"),
            Effect::Upgrade(url) => format!("upgrade {}", url),
            Effect::LoadSettings => String::from("load settings"),
            Effect::EditSettings(Edit::Bool(key, value)) => format!("set {} = {}", key, value),
            Effect::EditSettings(Edit::Int(key, value)) => format!("set {} = {}", key, value),
            Effect::EditSettings(Edit::Text(key, value)) => format!("set {} = {:?}", key, value),
            Effect::EditSettings(Edit::RefreshRate(resolution, rate)) => format!("rate {} {}", resolution, rate),
            Effect::EditSettings(Edit::AppPath(path)) => format!("app path {}", path),
            Effect::SaveSettings(id) => format!("save settings or {}", id),
            Effect::DiscardSettings => String::from("discard settings"),
            Effect::LaunchGame(id) => format!("launch game or {}", id),
            Effect::LaunchCompanion(id) => format!("launch companion or {}", id),
        })
        .collect()
}

fn setup(path: &str) -> Event {
    Event::Message(Message::Setup(String::from(path), UpdateChannel::Beta, String::from("fr-FR")))
}

/// An orchestrator that has been brought to the setup page.
fn on_wizard() -> WorkerLoop {
    let mut worker = WorkerLoop::new(Platform::Unix);
    worker.handle(Event::Started);
    worker.handle(Event::SelectionLoaded(None, None));
    worker.handle(Event::Searched(vec![]));
    assert_eq!(worker.phase(), Phase::Wizard);
    worker
}

/// An orchestrator whose game is ready.
fn ready(platform: Platform) -> WorkerLoop {
    let mut worker = WorkerLoop::new(platform);
    worker.handle(Event::Started);
    worker.handle(Event::SelectionLoaded(Some(UpdateChannel::Stable), Some(installation(Edition::Steam))));
    worker.handle(Event::Provisioned(Ok(runtime((1, 19, 1)))));
    assert_eq!(worker.phase(), Phase::Ready);
    worker
}

#[test]
fn a_kept_selection_is_provisioned_at_once() {
    let mut worker = WorkerLoop::new(Platform::Unix);
    assert_eq!(worker.phase(), Phase::Starting);
    assert_eq!(show(&worker.handle(Event::Started)), vec!["load selection"]);
    assert_eq!(worker.phase(), Phase::Loading);
    let effects = worker.handle(Event::SelectionLoaded(
        Some(UpdateChannel::Alpha),
        Some(installation(Edition::Steam)),
    ));
    assert_eq!(show(&effects), vec!["channel 2", "exe /games/ff8/FF8_EN.exe", "provision"]);
    assert_eq!(worker.phase(), Phase::Provisioning);
    assert_eq!(worker.update_channel(), UpdateChannel::Alpha);
    assert_eq!(worker.installation().unwrap().exe_name, "FF8_EN.exe");
    assert!(worker.runtime().is_none());
    let effects = worker.handle(Event::Provisioned(Ok(runtime((1, 19, 1)))));
    assert_eq!(show(&effects), vec!["clear", "initialized true", "ready true", "show settings"]);
    assert_eq!(worker.phase(), Phase::Ready);
    assert_eq!(worker.runtime().unwrap().version, "1.19.1");
}

#[test]
fn without_a_selection_the_candidates_are_offered_on_the_setup_page() {
    let mut worker = WorkerLoop::new(Platform::Unix);
    worker.handle(Event::Started);
    assert_eq!(show(&worker.handle(Event::SelectionLoaded(None, None))), vec!["channel 0", "search"]);
    assert_eq!(worker.phase(), Phase::Searching);
    let found = vec![
        installation(Edition::Standard),
        installation(Edition::Remastered),
        installation(Edition::Steam),
    ];
    assert_eq!(
        show(&worker.handle(Event::Searched(found))),
        vec!["exe /games/ff8/FF8.exe", "exe /games/ff8/FF8_EN.exe", "page 1"]
    );
    assert_eq!(worker.phase(), Phase::Wizard);
    assert!(worker.installation().is_none());
}

#[test]
fn a_setup_is_checked_provisioned_and_kept() {
    let mut worker = on_wizard();
    assert_eq!(show(&worker.handle(setup("/games/ff8/FF8_EN.exe"))), vec!["check /games/ff8/FF8_EN.exe"]);
    assert_eq!(worker.phase(), Phase::Checking);
    let effects = worker.handle(Event::SetupChecked(Ok(installation(Edition::Steam))));
    assert_eq!(show(&effects), vec!["exe /games/ff8/FF8_EN.exe", "channel 1", "provision"]);
    assert_eq!(worker.phase(), Phase::Provisioning);
    assert_eq!(worker.update_channel(), UpdateChannel::Beta);
    assert_eq!(worker.installation().unwrap().edition, Edition::Steam);
    // The selection is kept once the runtime is provisioned, not before.
    let effects = worker.handle(Event::Provisioned(Ok(runtime((1, 19, 1)))));
    assert_eq!(show(&effects), vec!["save /games/ff8/FF8_EN.exe 1 fr-FR"]);
    assert_eq!(worker.phase(), Phase::Saving);
    let effects = worker.handle(Event::SelectionSaved(true));
    assert_eq!(show(&effects), vec!["clear", "initialized true", "ready true", "show settings"]);
    assert_eq!(worker.phase(), Phase::Ready);
}

#[test]
fn a_failed_setup_on_the_setup_page_is_asked_again() {
    for error in [FromExeError::NotFound, FromExeError::LauncherSelected] {
        let mut worker = on_wizard();
        worker.handle(setup("/nowhere/FF8.exe"));
        let effects = worker.handle(Event::SetupChecked(Err(error)));
        assert_eq!(show(&effects), vec!["error message-error-file-not-found", "page 1"]);
        assert_eq!(worker.phase(), Phase::Wizard);
    }
    let mut worker = on_wizard();
    worker.handle(setup("/games/ff8/FF8_EN.exe"));
    worker.handle(Event::SetupChecked(Ok(installation(Edition::Steam))));
    worker.handle(Event::Provisioned(Ok(runtime((1, 19, 1)))));
    let effects = worker.handle(Event::SelectionSaved(false));
    assert_eq!(show(&effects), vec!["error message-error-cannot-save-mumba-config", "page 1"]);
    assert_eq!(worker.phase(), Phase::Wizard);
}

#[test]
fn a_failed_provisioning_leads_back_to_the_setup_page() {
    let mut worker = on_wizard();
    worker.handle(setup("/games/ff8/FF8_EN.exe"));
    worker.handle(Event::SetupChecked(Ok(installation(Edition::Steam))));
    let effects = worker.handle(Event::Provisioned(Err(InstallError::IOError(IoErrorKind::InvalidData))));
    assert_eq!(show(&effects), vec!["error message-error-cannot-install-ffnx", "page 1"]);
    assert_eq!(worker.phase(), Phase::Wizard);
    // Nothing was kept of the setup that failed.
    assert!(worker.handle(Event::SelectionSaved(true)).is_empty());
    // The loop goes on until a setup works out or the user quits.
    worker.handle(setup("/games/ff8/FF8_EN.exe"));
    worker.handle(Event::SetupChecked(Ok(installation(Edition::Steam))));
    worker.handle(Event::Provisioned(Ok(runtime((1, 19, 1)))));
    let effects = worker.handle(Event::SelectionSaved(true));
    assert_eq!(show(&effects), vec!["clear", "initialized true", "ready true", "show settings"]);
    assert_eq!(worker.phase(), Phase::Ready);

    // A kept selection whose provisioning fails leads to the setup page too.
    let mut worker = WorkerLoop::new(Platform::Unix);
    worker.handle(Event::Started);
    worker.handle(Event::SelectionLoaded(None, Some(installation(Edition::Steam))));
    let effects = worker.handle(Event::Provisioned(Err(InstallError::TomlFileError)));
    assert_eq!(show(&effects), vec!["error message-error-cannot-install-ffnx", "page 1"]);
    assert_eq!(worker.phase(), Phase::Wizard);
}

#[test]
fn unknown_messages_on_the_setup_page_are_not_fatal() {
    let mut worker = on_wizard();
    for message in [
        Message::LaunchGame,
        Message::LaunchCW,
        Message::UpdateGame,
        Message::ConfigureFfnx,
        Message::CancelConfigureFfnx,
        Message::SetFfnxConfigBool(String::from("fullscreen"), true),
        Message::SetFfnxConfigInt(String::from("x"), 1),
        Message::SetFfnxConfigString(String::from("x"), String::from("y")),
        Message::SetFfnxConfigCurrentRefreshRate(0, 0),
    ] {
        let effects = worker.handle(Event::Message(message));
        assert_eq!(show(&effects), vec!["error message-fatal-unknown-action", "page 1"]);
        assert_eq!(worker.phase(), Phase::Wizard);
    }
    // Answers that nothing waits for change nothing either.
    assert!(worker.handle(Event::SelectionSaved(true)).is_empty());
    assert!(worker.handle(Event::Started).is_empty());
    assert!(worker.handle(Event::Releases(None)).is_empty());
    assert_eq!(worker.phase(), Phase::Wizard);
    assert!(worker.handle(Event::Message(Message::Quit)).is_empty());
    assert_eq!(worker.phase(), Phase::Stopped);
    assert!(worker.handle(setup("/games/ff8/FF8_EN.exe")).is_empty());
    assert_eq!(worker.phase(), Phase::Stopped);
}

#[test]
fn a_closed_queue_ends_the_orchestrator() {
    let mut worker = on_wizard();
    assert!(worker.handle(Event::Closed).is_empty());
    assert_eq!(worker.phase(), Phase::Stopped);
    let mut worker = ready(Platform::Unix);
    assert!(worker.handle(Event::Closed).is_empty());
    assert_eq!(worker.phase(), Phase::Stopped);
    let mut worker = ready(Platform::Unix);
    assert!(worker.handle(Event::Message(Message::Quit)).is_empty());
    assert_eq!(worker.phase(), Phase::Stopped);
}

#[test]
fn messages_of_a_ready_game() {
    let mut worker = ready(Platform::Unix);
    assert_eq!(
        show(&worker.handle(Event::Message(Message::LaunchGame))),
        vec![
            "app path ..",
            "save settings or message-error-cannot-save-ffnx-config",
            "launch game or message-error-cannot-launch-game",
            "clear",
        ]
    );
    assert_eq!(
        show(&worker.handle(Event::Message(Message::LaunchCW))),
        vec!["launch companion or message-error-cannot-launch-game", "clear"]
    );
    assert_eq!(
        show(&worker.handle(Event::Message(Message::SetFfnxConfigBool(String::from("fullscreen"), false)))),
        vec!["set fullscreen = false", "clear"]
    );
    assert_eq!(
        show(&worker.handle(Event::Message(Message::SetFfnxConfigInt(String::from("current_resolution"), 3)))),
        vec!["set current_resolution = 3", "clear"]
    );
    assert_eq!(
        show(&worker.handle(Event::Message(Message::SetFfnxConfigString(
            String::from("renderer"),
            String::from("vulkan")
        )))),
        vec!["set renderer = \"vulkan\"", "clear"]
    );
    assert_eq!(
        show(&worker.handle(Event::Message(Message::SetFfnxConfigCurrentRefreshRate(2, 1)))),
        vec!["rate 2 1", "clear"]
    );
    assert_eq!(
        show(&worker.handle(Event::Message(Message::ConfigureFfnx))),
        vec!["show settings", "save settings or message-error-cannot-save-ffnx-config", "clear"]
    );
    assert_eq!(
        show(&worker.handle(Event::Message(Message::CancelConfigureFfnx))),
        vec!["discard settings", "clear"]
    );
    assert_eq!(worker.phase(), Phase::Ready);

    let windows = Platform::Windows {
        my_documents: String::from("C:/Users/me/Documents"),
        saved_games: String::from("C:/Users/me/Saved Games"),
    };
    let mut worker = ready(windows);
    assert_eq!(show(&worker.handle(Event::Message(Message::LaunchGame)))[0], "app path /games/ff8");
}

#[test]
fn a_setup_of_a_ready_game_provisions_again() {
    let mut worker = ready(Platform::Unix);
    assert_eq!(
        show(&worker.handle(setup("/games/ff8/FF8.exe"))),
        vec!["ready false", "check /games/ff8/FF8.exe"]
    );
    assert_eq!(worker.phase(), Phase::Checking);
    // The installation in force stays until the new one is found.
    assert_eq!(worker.installation().unwrap().edition, Edition::Steam);
    let effects = worker.handle(Event::SetupChecked(Ok(installation(Edition::Standard))));
    assert_eq!(show(&effects), vec!["exe /games/ff8/FF8.exe", "channel 1", "provision"]);
    assert_eq!(worker.phase(), Phase::Provisioning);
    assert_eq!(worker.installation().unwrap().edition, Edition::Standard);
    assert_eq!(worker.update_channel(), UpdateChannel::Beta);
    let effects = worker.handle(Event::Provisioned(Ok(runtime((1, 20, 0)))));
    assert_eq!(show(&effects), vec!["save /games/ff8/FF8.exe 1 fr-FR"]);
    let effects = worker.handle(Event::SelectionSaved(true));
    assert_eq!(show(&effects), vec!["ready true", "clear"]);
    assert_eq!(worker.phase(), Phase::Ready);
    assert_eq!(worker.runtime().unwrap().version, "1.20.0");
}

#[test]
fn a_failed_setup_of_a_ready_game_ends_the_orchestrator() {
    let mut worker = ready(Platform::Unix);
    worker.handle(setup("/nowhere/FF8.exe"));
    let effects = worker.handle(Event::SetupChecked(Err(FromExeError::NotFound)));
    assert_eq!(show(&effects), vec!["error message-error-file-not-found"]);
    assert_eq!(worker.phase(), Phase::Stopped);

    let mut worker = ready(Platform::Unix);
    worker.handle(setup("/games/ff8/FF8.exe"));
    worker.handle(Event::SetupChecked(Ok(installation(Edition::Standard))));
    worker.handle(Event::Provisioned(Ok(runtime((1, 20, 0)))));
    let effects = worker.handle(Event::SelectionSaved(false));
    assert_eq!(show(&effects), vec!["error message-error-cannot-save-mumba-config"]);
    assert_eq!(worker.phase(), Phase::Stopped);
}

#[test]
fn the_wizard_shows_what_the_orchestrator_posts() {
    let mut status = WizardStatus::new();
    assert_eq!(status.current_page, 0);
    assert!(!status.is_ready && !status.initialized && status.task_text.is_none());
    let mut worker = WorkerLoop::new(Platform::Unix);
    let mut events = vec![
        Event::Started,
        Event::SelectionLoaded(Some(UpdateChannel::Alpha), None),
        Event::Searched(vec![installation(Edition::Steam)]),
        setup("/nowhere/FF8.exe"),
        Event::SetupChecked(Err(FromExeError::NotFound)),
    ];
    for event in events.drain(..) {
        for effect in worker.handle(event) {
            if let Effect::Ui(call) = effect {
                status.post(&call);
            }
        }
    }
    assert_eq!(status.current_page, 1);
    assert!(!status.is_ready);
    assert_eq!(status.task_text, Some((TextLevel::Error, "message-error-file-not-found")));
    assert_eq!(status.game_exe_path, "/games/ff8/FF8_EN.exe");
    assert_eq!(status.update_channel, UpdateChannel::Alpha);
    for event in [
        setup("/games/ff8/FF8_EN.exe"),
        Event::SetupChecked(Ok(installation(Edition::Steam))),
        Event::Provisioned(Ok(runtime((1, 19, 1)))),
        Event::SelectionSaved(true),
    ] {
        for effect in worker.handle(event) {
            if let Effect::Ui(call) = effect {
                status.post(&call);
            }
        }
    }
    assert!(status.is_ready && status.initialized);
    assert!(status.task_text.is_none());
    assert_eq!(status.update_channel, UpdateChannel::Beta);
}

fn release(tag: &str) -> GitHubRelease {
    GitHubRelease {
        tag_name: String::from(tag),
        id: 1,
        assets: vec![mumba_core::github::GitHubReleaseAsset {
            browser_download_url: format!("https://example.org/FFNx-Steam-v{}.zip", tag),
            name: format!("FFNx-Steam-v{}.zip", tag),
        }],
        prerelease: false,
        draft: false,
        published_at: String::new(),
    }
}

#[test]
fn an_upgrade_is_fetched_where_the_release_differs() {
    let mut worker = ready(Platform::Unix);
    assert_eq!(
        show(&worker.handle(Event::Message(Message::UpdateGame))),
        vec!["load settings", "info message-info-check-ffnx-update", "query releases"]
    );
    assert_eq!(worker.phase(), Phase::CheckingUpdate);
    let last = LatestRelease { latest: Some(release("1.20.0")), prerelease: None, latest_not_recent: None };
    assert_eq!(
        show(&worker.handle(Event::Releases(Some(last)))),
        vec![
            "info message-info-upgrade-in-progress-ffnx",
            "ready false",
            "upgrade https://example.org/FFNx-Steam-v1.20.0.zip",
            "ready true",
            "clear",
            "save settings or message-error-cannot-save-ffnx-config",
            "clear",
        ]
    );
    assert_eq!(worker.phase(), Phase::Ready);
}

#[test]
fn nothing_is_fetched_where_the_release_is_installed_or_unknown() {
    let quiet = vec!["clear", "save settings or message-error-cannot-save-ffnx-config", "clear"];
    let mut worker = ready(Platform::Unix);
    worker.handle(Event::Message(Message::UpdateGame));
    let last = LatestRelease { latest: Some(release("1.19.1")), prerelease: None, latest_not_recent: None };
    assert_eq!(show(&worker.handle(Event::Releases(Some(last)))), quiet);
    assert_eq!(worker.phase(), Phase::Ready);

    worker.handle(Event::Message(Message::UpdateGame));
    assert_eq!(show(&worker.handle(Event::Releases(None))), quiet);

    // The channel in force is stable: a prerelease does not count.
    worker.handle(Event::Message(Message::UpdateGame));
    let last = LatestRelease { latest: None, prerelease: Some(release("canary")), latest_not_recent: None };
    assert_eq!(show(&worker.handle(Event::Releases(Some(last)))), quiet);
    assert_eq!(worker.phase(), Phase::Ready);
}

#[test]
fn languages_are_chosen_by_their_place() {
    assert_eq!(pos_to_language(1), "fr-FR");
    assert_eq!(pos_to_language(0), "en-US");
    assert_eq!(pos_to_language(2), "en-US");
    assert_eq!(pos_to_language(-1), "en-US");
    assert_eq!(pos_to_language(i32::MAX), "en-US");
}
