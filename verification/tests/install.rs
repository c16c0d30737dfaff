use mumba_core::config::UpdateChannel;
use mumba_core::game::env::{BaseDirs, Env};
use mumba_core::game::ffnx::Ffnx;
use mumba_core::game::ffnx_installation::{format_version, FfnxInstallation};
use mumba_core::game::installation::{
    DirectoryProbe, Edition, FileProbe, Installation, Platform, Publisher, Version,
};
use mumba_core::github::{GitHubRelease, GitHubReleaseAsset, LatestRelease};
use mumba_core::install::{
    ffnx_dir, follow_up_steps, patch_file_name, Event, Evidence, Guard, InstallError, Installer,
    Notice, Outcome, Policy, Request, Step, Task,
};
use mumba_core::pe_format::{IoErrorKind, PeError, ProductVersion, VersionInfo};
use mumba_core::provision::{download_zip, ProvisionError, DOWNLOAD_LIMIT};
use mumba_core::ui::TextLevel;

fn env() -> Env {
    let dirs = BaseDirs {
        cache_dir: String::from("/home/me/.cache/mumba"),
        data_dir: String::from("/home/me/.local/share/mumba"),
        config_dir: String::from("/home/me/.config/mumba"),
    };
    Env::new("mumba", "/opt/mumba", false, &dirs)
}

fn installation(edition: Edition) -> Installation {
    let (name, steam_lang) = match edition {
        Edition::Standard => ("FF8.exe", None),
        Edition::Steam => ("FF8_EN.exe", Some(String::from("en"))),
        Edition::Remastered => ("FFVIII.exe", None),
    };
    let probe = DirectoryProbe {
        steam_lang,
        standard_lang: None,
        files: vec![FileProbe { name: String::from(name), header: vec![] }],
    };
    Installation::from_directory("/games/ff8", edition, &probe, &Platform::Unix).unwrap()
}

fn infos(major: u16, minor: u16, patch: u16, product: Option<&str>) -> VersionInfo {
    VersionInfo {
        product_version: ProductVersion { major, minor, patch, build: 99 },
        product_name: product.map(String::from),
        original_filename: None,
        legal_copyright: None,
    }
}

fn missing() -> Result<VersionInfo, PeError> {
    Err(PeError::IoError(IoErrorKind::NotFound))
}

fn describe(step: &Step) -> String {
    let guard = match &step.guard {
        Guard::Always => String::from("always"),
        Guard::Missing(path) => format!("missing {}", path),
        Guard::MissingOrProduct(path, product) => format!("missing {} or {}", path, product),
        Guard::AfterSuccess => String::from("after success"),
        Guard::AfterFailure => String::from("after failure"),
    };
    let task = match &step.task {
        Task::ConfigureRuntime(path) => format!("configure {}", path),
        Task::ReplaceLauncher => String::from("replace launcher"),
        Task::CopyFile(from, to) => format!("copy {} -> {}", from, to),
        Task::RenameFile(from, to) => format!("rename {} -> {}", from, to),
        Task::CreateDir(path) => format!("mkdir {}", path),
        Task::WriteFile(path, contents) => format!("write {} ({} bytes)", path, contents.len()),
        Task::Fetch(download) => format!(
            "fetch {} via {} -> {}",
            download.url, download.archive_path, download.target_dir
        ),
        Task::Patch4gb(path) => format!("patch {}", path),
        Task::Report(Notice::CannotDetectLanguage) => String::from("report unknown language"),
    };
    let policy = match step.on_failure {
        Policy::Abort => "abort",
        Policy::Continue => "continue",
    };
    format!("[{}] {} ({})", guard, task, policy)
}

fn runtime(dir: &str, game: &Installation) -> FfnxInstallation {
    FfnxInstallation::from_directory(dir, game, Ok(infos(1, 19, 1, Some("FFNx")))).unwrap()
}

#[test]
fn scenario_a_directory_without_marker_holds_no_runtime() {
    let game = installation(Edition::Steam);
    assert_eq!(FfnxInstallation::marker(Edition::Steam), "AF3DN.P");
    assert_eq!(FfnxInstallation::marker(Edition::Standard), "eax.dll");
    assert_eq!(FfnxInstallation::marker(Edition::Remastered), "eax.dll");
    assert!(FfnxInstallation::from_directory("/games/ff8/mumba", &game, missing()).is_none());
    assert!(FfnxInstallation::from_directory(
        "/games/ff8/mumba",
        &game,
        Err(PeError::PeliteError(pelite::Error::BadMagic))
    )
    .is_none());
    assert!(FfnxInstallation::from_directory("/games/ff8/mumba", &game, Err(PeError::NoVersion)).is_none());
    assert!(FfnxInstallation::from_directory("/games/ff8/mumba", &game, Err(PeError::PeliteFindError)).is_none());

    let found = runtime("/games/ff8/mumba", &game);
    assert_eq!(found.version, "1.19.1");
    assert_eq!(found.path, "/games/ff8/mumba");
    assert_eq!(found.exe_name, "FF8_EN.exe");
    assert_eq!(found.exe_path(), "/games/ff8/mumba/FF8_EN.exe");
    assert_eq!(found.config_path(), "/games/ff8/mumba/FFNx.toml");
    let retail = runtime("/data/game", &installation(Edition::Standard));
    assert_eq!(retail.exe_name, "FF8_Mumba.exe");
    assert_eq!(format_version(&ProductVersion { major: 0, minor: 0, patch: 0, build: 7 }), "0.0.0");
    assert_eq!(
        format_version(&ProductVersion { major: 65535, minor: 10, patch: 209, build: 0 }),
        "65535.10.209"
    );
}

#[test]
fn scenario_missing_runtime_is_downloaded_and_probed_again() {
    let mut machine = Installer::new(installation(Edition::Steam), UpdateChannel::Stable, env(), &Platform::Unix);
    match machine.request() {
        Request::ProbeRuntime(path) => assert_eq!(path, "/games/ff8/mumba/AF3DN.P"),
        _ => panic!("the directory has to be probed first"),
    }
    machine.handle(Event::Probed(missing()));
    match machine.request() {
        Request::Announce(level, message) => {
            assert_eq!(level, TextLevel::Info);
            assert_eq!(message, "message-info-install-in-progress-ffnx");
        }
        _ => panic!("the user has to be told"),
    }
    // An answer to something that was not asked changes nothing.
    machine.handle(Event::Performed(Ok(())));
    assert!(matches!(machine.request(), Request::Announce(_, _)));
    machine.handle(Event::Announced);
    assert!(matches!(machine.request(), Request::QueryReleases));
    let release = GitHubRelease {
        tag_name: String::from("1.20.0"),
        id: 7,
        assets: vec![GitHubReleaseAsset {
            browser_download_url: String::from("https://example.org/FFNx-Steam-v1.20.0.zip"),
            name: String::from("FFNx-Steam-v1.20.0.zip"),
        }],
        prerelease: false,
        draft: false,
        published_at: String::new(),
    };
    machine.handle(Event::Releases(Some(LatestRelease {
        latest: Some(release),
        prerelease: None,
        latest_not_recent: None,
    })));
    match machine.request() {
        Request::Perform(Task::Fetch(download)) => {
            assert_eq!(download.url, "https://example.org/FFNx-Steam-v1.20.0.zip");
            assert_eq!(download.archive_path, "/home/me/.cache/mumba/FFNx.zip");
            assert_eq!(download.target_dir, "/games/ff8/mumba");
            assert_eq!(download.limit, 250_000_000);
        }
        _ => panic!("the archive has to be fetched"),
    }
    machine.handle(Event::Performed(Ok(())));
    match machine.request() {
        Request::ProbeRuntime(path) => assert_eq!(path, "/games/ff8/mumba/AF3DN.P"),
        _ => panic!("the directory has to be probed again"),
    }
    machine.handle(Event::Probed(Ok(infos(1, 20, 0, Some("FFNx")))));
    match machine.request() {
        Request::Perform(Task::ConfigureRuntime(path)) => assert_eq!(path, "/games/ff8/mumba/FFNx.toml"),
        _ => panic!("the runtime is present: the follow-up steps begin"),
    }
    assert_eq!(machine.into_runtime().unwrap().version, "1.20.0");
}

#[test]
fn scenario_a_runtime_that_is_still_missing_after_the_download_is_an_error() {
    let mut machine = Installer::new(installation(Edition::Standard), UpdateChannel::Alpha, env(), &Platform::Unix);
    match machine.request() {
        Request::ProbeRuntime(path) => assert_eq!(path, "/games/ff8/mumba/eax.dll"),
        _ => panic!("the directory has to be probed first"),
    }
    machine.handle(Event::Probed(missing()));
    machine.handle(Event::Announced);
    machine.handle(Event::Releases(None));
    match machine.request() {
        Request::Perform(Task::Fetch(download)) => assert_eq!(
            download.url,
            "https://github.com/julianxhokaxhiu/FFNx/releases/download/canary/FFNx-FF8_2000-v1.19.1.114.zip"
        ),
        _ => panic!("the default archive has to be fetched"),
    }
    machine.handle(Event::Performed(Ok(())));
    machine.handle(Event::Probed(missing()));
    assert!(matches!(
        machine.request(),
        Request::Failed(InstallError::IOError(IoErrorKind::InvalidData))
    ));
    machine.handle(Event::Probed(Ok(infos(1, 0, 0, None))));
    assert!(matches!(machine.request(), Request::Failed(_)));
    assert!(machine.into_runtime().is_none());
}

#[test]
fn a_failed_download_ends_the_provisioning() {
    let mut machine = Installer::new(installation(Edition::Steam), UpdateChannel::Beta, env(), &Platform::Unix);
    machine.handle(Event::Probed(missing()));
    machine.handle(Event::Announced);
    machine.handle(Event::Releases(None));
    machine.handle(Event::Performed(Err(InstallError::ProvisionError(ProvisionError::HttpError))));
    assert!(matches!(
        machine.request(),
        Request::Failed(InstallError::ProvisionError(ProvisionError::HttpError))
    ));
}

#[test]
fn steps_of_the_store_edition() {
    let game = installation(Edition::Steam);
    let ffnx = runtime("/games/ff8/mumba", &game);
    let steps: Vec<String> = follow_up_steps(&game, &ffnx, &env()).iter().map(describe).collect();
    assert_eq!(
        steps,
        vec![
            "[always] configure /games/ff8/mumba/FFNx.toml (abort)",
            "[always] replace launcher (abort)",
            "[missing /games/ff8/mumba/FF8_EN.exe] copy /games/ff8/FF8_EN.exe -> /games/ff8/mumba/FF8_EN.exe (abort)",
            "[missing /games/ff8/mumba/binkw32.dll] copy /games/ff8/binkw32.dll -> /games/ff8/mumba/binkw32.dll (abort)",
            "[missing /games/ff8/mumba/eax.dll or FFNx] copy /opt/mumba/eax.dll -> /games/ff8/mumba/eax.dll (abort)",
            "[always] patch /games/ff8/mumba/FF8_EN.exe (abort)",
        ]
    );
}

#[test]
fn steps_of_the_retail_edition() {
    let mut game = installation(Edition::Standard);
    let ffnx = runtime("/data/game", &game);
    let input = mumba_core::game::input_config::InputConfig::new(&Edition::Standard).to_string();
    let steps: Vec<String> = follow_up_steps(&game, &ffnx, &env()).iter().map(describe).collect();
    assert_eq!(
        steps,
        vec![
            String::from("[always] configure /data/game/FFNx.toml (abort)"),
            String::from("[missing /data/game/FF8_Mumba.exe] copy /games/ff8/FF8.exe -> /data/game/FF8_Mumba.exe (abort)"),
            String::from("[missing /data/game/binkw32.dll] report unknown language (continue)"),
            String::from("[missing /data/game/creative_eax.dll] copy /opt/mumba/eax.dll -> /data/game/creative_eax.dll (continue)"),
            String::from("[missing /data/game/override/ff8input.cfg] mkdir /data/game/override (abort)"),
            String::from("[after success] copy /games/ff8/ff8input.cfg -> /data/game/override/ff8input.cfg (continue)"),
            format!("[after failure] write /data/game/override/ff8input.cfg ({} bytes) (abort)", input.len()),
            String::from("[always] patch /data/game/FF8_Mumba.exe (abort)"),
        ]
    );
    game.version = Some((Version::V100, Publisher::EidosFr));
    let steps: Vec<String> = follow_up_steps(&game, &ffnx, &env()).iter().map(describe).collect();
    assert_eq!(steps.len(), 9);
    assert_eq!(
        steps[2],
        "[missing /data/game/binkw32.dll] fetch https://www.ff8.fr/download/programs/FF8EidosFre.zip via /home/me/.cache/mumba/FF8Patch1.02.zip -> /data/game (continue)"
    );
    assert_eq!(steps[3], "[after success] rename /data/game/FF8.exe -> /data/game/FF8_Mumba.exe (abort)");
    // An executable of the latest version needs no archive.
    for version in [Version::V120, Version::V120NV] {
        game.version = Some((version, Publisher::EaUs));
        let steps: Vec<String> = follow_up_steps(&game, &ffnx, &env()).iter().map(describe).collect();
        assert_eq!(steps.len(), 7);
        assert!(steps.iter().all(|s| !s.contains("binkw32.dll")));
    }
    game.version = Some((Version::Unknown, Publisher::EaUs));
    let steps: Vec<String> = follow_up_steps(&game, &ffnx, &env()).iter().map(describe).collect();
    assert_eq!(steps[2], "[missing /data/game/binkw32.dll] report unknown language (continue)");
}

#[test]
fn steps_of_the_remastered_edition() {
    let game = installation(Edition::Remastered);
    let ffnx = runtime("/games/ff8/mumba", &game);
    let steps: Vec<String> = follow_up_steps(&game, &ffnx, &env()).iter().map(describe).collect();
    assert_eq!(
        steps,
        vec![
            "[always] configure /games/ff8/mumba/FFNx.toml (abort)",
            "[missing /games/ff8/mumba/FFVIII.exe] copy /games/ff8/FFVIII.exe -> /games/ff8/mumba/FFVIII.exe (abort)",
            "[missing /games/ff8/mumba/binkw32.dll] copy /games/ff8/binkw32.dll -> /games/ff8/mumba/binkw32.dll (abort)",
            "[missing /games/ff8/mumba/creative_eax.dll] copy /opt/mumba/eax.dll -> /games/ff8/mumba/creative_eax.dll (continue)",
            "[always] patch /games/ff8/mumba/FFVIII.exe (abort)",
        ]
    );
}

#[test]
fn upgrade_archives_are_known_for_the_first_version_only() {
    let all = [
        (Publisher::EaJp, "FF8EasqPatch"),
        (Publisher::EaUs, "FF8SqeaPatch"),
        (Publisher::EidosUk, "FF8SqeaPatch"),
        (Publisher::EidosDe, "FF8EidosGerV12"),
        (Publisher::EidosFr, "FF8EidosFre"),
        (Publisher::EidosIt, "ff8ngita"),
        (Publisher::EidosSp, "ff8ngspa"),
    ];
    for (publisher, name) in all {
        assert_eq!(patch_file_name(&Some((Version::V100, publisher))), Some(name));
        assert_eq!(patch_file_name(&Some((Version::V120, publisher))), None);
        assert_eq!(patch_file_name(&Some((Version::V120NV, publisher))), None);
        assert_eq!(patch_file_name(&Some((Version::Unknown, publisher))), None);
    }
    assert_eq!(patch_file_name(&None), None);
}

#[test]
fn guards_decide_whether_a_step_is_due() {
    let none = Evidence::Absent;
    assert_eq!(Guard::Always.is_due(Outcome::Failed, &none).ok(), Some(true));
    assert_eq!(Guard::AfterSuccess.is_due(Outcome::Succeeded, &none).ok(), Some(true));
    assert_eq!(Guard::AfterSuccess.is_due(Outcome::Skipped, &none).ok(), Some(false));
    assert_eq!(Guard::AfterSuccess.is_due(Outcome::Failed, &none).ok(), Some(false));
    assert_eq!(Guard::AfterFailure.is_due(Outcome::Failed, &none).ok(), Some(true));
    assert_eq!(Guard::AfterFailure.is_due(Outcome::Succeeded, &none).ok(), Some(false));
    let missing = Guard::Missing(String::from("/x"));
    assert_eq!(missing.is_due(Outcome::Skipped, &Evidence::Absent).ok(), Some(true));
    assert_eq!(missing.is_due(Outcome::Skipped, &Evidence::Present).ok(), Some(false));
    let foreign = Guard::MissingOrProduct(String::from("/x"), String::from("FFNx"));
    assert_eq!(foreign.is_due(Outcome::Skipped, &Evidence::Absent).ok(), Some(true));
    assert_eq!(foreign.is_due(Outcome::Skipped, &Evidence::Present).ok(), Some(false));
    assert_eq!(
        foreign.is_due(Outcome::Skipped, &Evidence::PresentWith(Ok(infos(1, 0, 0, Some("FFNx"))))).ok(),
        Some(true)
    );
    assert_eq!(
        foreign.is_due(Outcome::Skipped, &Evidence::PresentWith(Ok(infos(1, 0, 0, Some("EAX"))))).ok(),
        Some(false)
    );
    assert_eq!(
        foreign.is_due(Outcome::Skipped, &Evidence::PresentWith(Ok(infos(1, 0, 0, None)))).ok(),
        Some(false)
    );
    assert!(matches!(
        foreign.is_due(Outcome::Skipped, &Evidence::PresentWith(Err(PeError::NoVersion))),
        Err(PeError::NoVersion)
    ));
}

fn run_steps(
    edition: Edition,
    mut present: Vec<&str>,
    failing: Vec<&str>,
) -> (Vec<String>, Result<FfnxInstallation, InstallError>) {
    let mut machine = Installer::new(installation(edition), UpdateChannel::Stable, env(), &Platform::Unix);
    machine.handle(Event::Probed(Ok(infos(1, 19, 1, Some("FFNx")))));
    let mut done = Vec::new();
    loop {
        let event = match machine.request() {
            Request::Examine(Guard::Missing(path)) => Event::Examined(if present.contains(&path.as_str()) {
                Evidence::Present
            } else {
                Evidence::Absent
            }),
            Request::Examine(Guard::MissingOrProduct(path, _)) => {
                Event::Examined(if present.contains(&path.as_str()) {
                    Evidence::PresentWith(Ok(infos(1, 0, 0, Some("Creative"))))
                } else {
                    Evidence::Absent
                })
            }
            Request::Perform(task) => {
                let name = describe(&Step { guard: Guard::Always, task: clone_task(task), on_failure: Policy::Abort });
                let failed = failing.iter().any(|f| name.contains(f));
                done.push(format!("{}{}", if failed { "FAILED " } else { "" }, name));
                if failed {
                    Event::Performed(Err(InstallError::IOError(IoErrorKind::PermissionDenied)))
                } else {
                    Event::Performed(Ok(()))
                }
            }
            Request::Done(_) => break,
            Request::Failed(e) => return (done, Err(e)),
            _ => panic!("nothing else is asked for once the runtime is found"),
        };
        machine.handle(event);
        present.retain(|_| true);
    }
    (done, Ok(machine.into_runtime().unwrap()))
}

fn clone_task(task: &Task) -> Task {
    match task {
        Task::ConfigureRuntime(path) => Task::ConfigureRuntime(path.clone()),
        Task::ReplaceLauncher => Task::ReplaceLauncher,
        Task::CopyFile(from, to) => Task::CopyFile(from.clone(), to.clone()),
        Task::RenameFile(from, to) => Task::RenameFile(from.clone(), to.clone()),
        Task::CreateDir(path) => Task::CreateDir(path.clone()),
        Task::WriteFile(path, contents) => Task::WriteFile(path.clone(), contents.clone()),
        Task::Fetch(download) => Task::Fetch(download_zip(
            &download.url,
            "again.zip",
            &download.target_dir,
            &env(),
        )),
        Task::Patch4gb(path) => Task::Patch4gb(path.clone()),
        Task::Report(notice) => Task::Report(*notice),
    }
}

#[test]
fn steps_that_are_already_applied_are_skipped() {
    let (done, result) = run_steps(
        Edition::Steam,
        vec!["/games/ff8/mumba/FF8_EN.exe", "/games/ff8/mumba/binkw32.dll", "/games/ff8/mumba/eax.dll"],
        vec![],
    );
    assert_eq!(
        done,
        vec![
            "[always] configure /games/ff8/mumba/FFNx.toml (abort)",
            "[always] replace launcher (abort)",
            "[always] patch /games/ff8/mumba/FF8_EN.exe (abort)",
        ]
    );
    assert_eq!(result.ok().unwrap().exe_name, "FF8_EN.exe");

    let (done, result) = run_steps(Edition::Steam, vec![], vec![]);
    assert_eq!(done.len(), 6);
    assert!(result.is_ok());
}

#[test]
fn a_failing_step_ends_the_provisioning_with_its_error() {
    let (done, result) = run_steps(Edition::Steam, vec![], vec!["binkw32.dll"]);
    assert_eq!(done.len(), 4);
    assert!(done[3].starts_with("FAILED "));
    assert!(matches!(result, Err(InstallError::IOError(IoErrorKind::PermissionDenied))));
    let (done, result) = run_steps(Edition::Remastered, vec![], vec!["patch"]);
    assert_eq!(done.len(), 5);
    assert!(result.is_err());
}

#[test]
fn a_failure_that_is_only_reported_lets_the_provisioning_go_on() {
    let (done, result) = run_steps(Edition::Standard, vec![], vec!["creative_eax.dll", "copy /games/ff8/ff8input.cfg"]);
    assert!(result.is_ok());
    let names: Vec<&str> = done.iter().map(|d| d.as_str()).collect();
    assert_eq!(names.len(), 8);
    assert!(names[3].starts_with("FAILED [always] copy /opt/mumba/eax.dll"));
    assert_eq!(names[4], "[always] mkdir /games/ff8/mumba/override (abort)");
    assert!(names[5].starts_with("FAILED [always] copy /games/ff8/ff8input.cfg"));
    assert!(names[6].contains("write "));
    assert!(names[7].contains("patch "));

    // Where the bindings can be copied, none are written.
    let (done, result) = run_steps(Edition::Standard, vec![], vec![]);
    assert!(result.is_ok());
    assert_eq!(done.len(), 7);
    assert!(done.iter().all(|d| !d.contains("write ")));
}

#[test]
fn the_runtime_lies_in_the_game_directory_where_a_prefix_is_used() {
    let game = installation(Edition::Steam);
    assert_eq!(ffnx_dir(&game, &env(), &Platform::Unix), "/games/ff8/mumba");
    let windows = Platform::Windows {
        my_documents: String::from("C:/Users/me/Documents"),
        saved_games: String::from("C:/Users/me/Saved Games"),
    };
    assert_eq!(ffnx_dir(&game, &env(), &windows), "/home/me/.local/share/mumba/game");
}

#[test]
fn downloads_are_kept_in_the_cache_while_they_are_unpacked() {
    let download = download_zip("https://example.org/a.zip", "a.zip", "/target", &env());
    assert_eq!(download.url, "https://example.org/a.zip");
    assert_eq!(download.archive_path, "/home/me/.cache/mumba/a.zip");
    assert_eq!(download.target_dir, "/target");
    assert_eq!(download.limit, DOWNLOAD_LIMIT);
    assert_eq!(FfnxInstallation::download("u", "/t", &env()).archive_path, "/home/me/.cache/mumba/FFNx.zip");
    assert_eq!(Ffnx::from_url("u", "/t", &env()).archive_path, "/home/me/.cache/mumba/FFNx.zip");
    assert_eq!(
        Installation::install_patch_remote("u", "/t", &env()).archive_path,
        "/home/me/.cache/mumba/FF8-patch.zip"
    );
}

#[test]
fn the_first_setup_tool_names_archives_by_tag() {
    assert_eq!(
        Ffnx::find_last_stable_version_on_github(Some("1.20.3"), &Edition::Steam),
        "https://github.com/julianxhokaxhiu/FFNx/releases/download/1.20.3/FFNx-Steam-v1.20.3.0.zip"
    );
    assert_eq!(
        Ffnx::find_last_stable_version_on_github(None, &Edition::Standard),
        "https://github.com/julianxhokaxhiu/FFNx/releases/download/1.19.1/FFNx-FF8_2000-v1.19.1.0.zip"
    );
    assert_eq!(Ffnx::marker(true), "AF3DN.P");
    assert_eq!(Ffnx::marker(false), "eax.dll");
    assert_eq!(Ffnx::is_installed(&Ok(infos(1, 2, 3, None))).unwrap(), "1.2.3");
    assert!(Ffnx::is_installed(&missing()).is_none());
}

#[test]
fn the_environment_is_local_where_settings_lie_beside_the_program() {
    let dirs = BaseDirs {
        cache_dir: String::from("/c"),
        data_dir: String::from("/d"),
        config_dir: String::from("/s"),
    };
    let local = Env::new("mmb", "/opt/mumba", true, &dirs);
    assert_eq!(local.cache_dir, "/opt/mumba");
    assert_eq!(local.data_dir, "/opt/mumba");
    assert_eq!(local.config_path, "/opt/mumba/mumba.toml");
    assert_eq!(local.mumba_dir, "/opt/mumba");
    assert_eq!(local.ffnx_dir, "/opt/mumba");
    assert_eq!(local.log_path, "/opt/mumba/mmb.log");
    let user = Env::new("mumba", "/opt/mumba", false, &dirs);
    assert_eq!(user.cache_dir, "/c");
    assert_eq!(user.data_dir, "/d");
    assert_eq!(user.config_path, "/s/mumba.toml");
    assert_eq!(user.mumba_dir, "/opt/mumba");
    assert_eq!(user.ffnx_dir, "/d/game");
    assert_eq!(user.log_path, "/d/mumba.log");
    assert_eq!(Env::add_app_dir("/home/me/.cache"), "/home/me/.cache/mumba");
    let preferred = Env::preferred_dirs("/opt/mumba", Some(&dirs));
    assert_eq!(preferred.cache_dir, "/c/mumba");
    assert_eq!(preferred.data_dir, "/d/mumba");
    assert_eq!(preferred.config_dir, "/s/mumba");
    let fallback = Env::preferred_dirs("/opt/mumba", None);
    assert_eq!(fallback.cache_dir, "/opt/mumba");
    assert_eq!(fallback.config_dir, "/opt/mumba");
    assert_eq!(user.get_resource_launcher_path(true), "/opt/mumba/ff8_launcher.exe");
    assert_eq!(user.get_resource_launcher_path(false), "/var/lib/mumba/ff8_launcher.exe");
}

#[test]
fn metadata_that_cannot_be_read_end_the_provisioning() {
    let mut machine = Installer::new(installation(Edition::Steam), UpdateChannel::Stable, env(), &Platform::Unix);
    machine.handle(Event::Probed(Ok(infos(1, 19, 1, Some("FFNx")))));
    loop {
        let event = match machine.request() {
            Request::Examine(Guard::Missing(_)) => Event::Examined(Evidence::Present),
            Request::Examine(Guard::MissingOrProduct(path, product)) => {
                assert_eq!(path, "/games/ff8/mumba/eax.dll");
                assert_eq!(product, "FFNx");
                Event::Examined(Evidence::PresentWith(Err(PeError::PeliteError(pelite::Error::BadMagic))))
            }
            Request::Perform(_) => Event::Performed(Ok(())),
            Request::Failed(e) => {
                assert!(matches!(
                    e,
                    InstallError::PeFormatError(PeError::PeliteError(pelite::Error::BadMagic))
                ));
                break;
            }
            _ => panic!("the provisioning should fail on the audio library"),
        };
        machine.handle(event);
    }
}
