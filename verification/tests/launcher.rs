use mumba_core::game::env::{BaseDirs, Env};
use mumba_core::game::installation::{
    remove_quotes, DirectoryProbe, Edition, FileProbe, Installation, LauncherEvidence, Platform,
};
use mumba_core::install::Task;
use mumba_core::launcher::{
    is_companion, is_companion_file, path_fallback, resolve_target, start, target_path, LaunchError,
};
use mumba_core::os::Stdio;
use mumba_core::pe_format::{IoErrorKind, PeError, ProductVersion, VersionInfo};
use mumba_core::shared_memory::{
    encode_utf16, find_user_id, save_path_2013, DirEntry, Event, Request, SharedMemory,
    END_USER_INFO, GAME_METRICS, GAME_READY, USER_SAVE_DIR,
};

fn infos(product: Option<&str>, copyright: Option<&str>) -> Result<VersionInfo, PeError> {
    Ok(VersionInfo {
        product_version: ProductVersion { major: 1, minor: 0, patch: 0, build: 0 },
        product_name: product.map(String::from),
        original_filename: None,
        legal_copyright: copyright.map(String::from),
    })
}

fn steam_game() -> Installation {
    let probe = DirectoryProbe {
        steam_lang: Some(String::from("en")),
        standard_lang: None,
        files: vec![FileProbe { name: String::from("FF8_EN.exe"), header: vec![] }],
    };
    Installation::from_directory("/lib/ff8", Edition::Steam, &probe, &Platform::Unix).unwrap()
}

fn copies(tasks: &[Task]) -> Vec<(String, String)> {
    tasks
        .iter()
        .map(|task| match task {
            Task::CopyFile(from, to) => (from.clone(), to.clone()),
            _ => panic!("only copies replace a launcher"),
        })
        .collect()
}

#[test]
fn the_target_is_named_by_argument_or_by_file() {
    assert_eq!(target_path(Some("/x/game.exe"), Some("/y/other.exe"), "/lib/ff8"), "/x/game.exe");
    assert_eq!(target_path(None, Some("  /y/other.exe\r\n"), "/lib/ff8"), "/y/other.exe");
    assert_eq!(target_path(None, Some(""), "/lib/ff8"), "");
    assert_eq!(target_path(None, None, "/lib/ff8"), "/lib/ff8/FF8_Launcher_Original.exe");
    assert_eq!(path_fallback("/lib/ff8"), "/lib/ff8/FF8_Launcher_Original.exe");
}

#[test]
fn a_missing_target_falls_back_to_the_replaced_launcher() {
    let found = resolve_target(String::from("/lib/ff8/mumba/FF8_EN.exe"), true, "/lib/ff8");
    assert_eq!(found.path, "/lib/ff8/mumba/FF8_EN.exe");
    assert!(!found.original_launcher);
    let missing = resolve_target(String::from("/lib/ff8/mumba/FF8_EN.exe"), false, "/lib/ff8");
    assert_eq!(missing.path, "/lib/ff8/FF8_Launcher_Original.exe");
    assert!(missing.original_launcher);
}

#[test]
fn the_replaced_launcher_gets_the_arguments_of_the_stand_in() {
    let args = vec![String::from("FF8_Launcher.exe"), String::from("/lib/x.exe"), String::from("-v")];
    let game = resolve_target(String::from("/lib/ff8/mumba/FF8_EN.exe"), true, "/lib/ff8");
    let command = start(&game, &args, false).ok().unwrap();
    assert_eq!(command.program, "/lib/ff8/mumba/FF8_EN.exe");
    assert!(command.args.is_empty());
    assert_eq!(command.current_dir.as_deref(), Some("/lib/ff8/mumba"));
    assert_eq!((command.stdin, command.stdout, command.stderr), (Stdio::Null, Stdio::Null, Stdio::Null));
    assert!(!command.detached);

    let original = resolve_target(String::from("/gone.exe"), false, "/lib/ff8");
    let command = start(&original, &args, false).ok().unwrap();
    assert_eq!(command.program, "/lib/ff8/FF8_Launcher_Original.exe");
    assert_eq!(command.args, args);
    assert_eq!(command.current_dir.as_deref(), Some("/lib/ff8"));
    let alone = vec![String::from("FF8_Launcher.exe")];
    assert!(start(&original, &alone, false).ok().unwrap().args.is_empty());
    assert!(start(&original, &vec![], false).ok().unwrap().args.is_empty());

    assert_eq!(start(&game, &args, true).err(), Some(LaunchError::TargetIsSelf));
    let rootless = resolve_target(String::from("/"), true, "/lib/ff8");
    assert_eq!(start(&rootless, &args, false).ok().unwrap().current_dir.as_deref(), Some("."));
    let relative = resolve_target(String::from("game.exe"), true, "/lib/ff8");
    assert_eq!(start(&relative, &args, false).ok().unwrap().current_dir.as_deref(), Some(""));
}

#[test]
fn the_companion_game_is_known_by_its_name() {
    assert!(is_companion("/lib/ff8/Chocobo_EN.exe"));
    assert!(is_companion("CHOCO.exe"));
    assert!(!is_companion("/lib/chocobo/FF8_EN.exe"));
    assert!(!is_companion("/lib/ff8/FF8_EN.exe"));
    assert!(is_companion_file("Chocobo.exe"));
    assert!(is_companion_file("xCHOCOx"));
    assert!(!is_companion_file("choc o.exe"));
    assert!(!is_companion_file(""));
}

#[test]
fn the_launcher_is_kept_once_and_replaced_when_its_build_differs() {
    let game = steam_game();
    let evidence = LauncherEvidence {
        launcher: infos(Some("FINAL FANTASY VIII for PC"), Some("Square Enix")),
        backup_exists: false,
        resource: infos(Some("Mumba"), Some("v1.2.0")),
    };
    assert_eq!(
        copies(&game.replace_launcher_from_app_path("/opt/mumba/ff8_launcher.exe", &evidence)),
        vec![
            (String::from("/lib/ff8/FF8_Launcher.exe"), String::from("/lib/ff8/FF8_Launcher_Original.exe")),
            (String::from("/opt/mumba/ff8_launcher.exe"), String::from("/lib/ff8/FF8_Launcher.exe")),
        ]
    );
    assert_eq!(game.get_backup_path(), "/lib/ff8/FF8_Launcher_Original.exe");

    // The publisher's launcher is kept again even where a copy was kept.
    let evidence = LauncherEvidence { backup_exists: true, ..evidence };
    assert_eq!(copies(&game.replace_launcher_from_app_path("/r.exe", &evidence)).len(), 2);

    // The stand-in of an older build is replaced, not kept.
    let evidence = LauncherEvidence {
        launcher: infos(Some("Mumba"), Some("v1.1.0")),
        backup_exists: true,
        resource: infos(Some("Mumba"), Some("v1.2.0")),
    };
    assert_eq!(
        copies(&game.replace_launcher_from_app_path("/r.exe", &evidence)),
        vec![(String::from("/r.exe"), String::from("/lib/ff8/FF8_Launcher.exe"))]
    );

    // The stand-in of the same build is left alone.
    let evidence = LauncherEvidence {
        launcher: infos(Some("Mumba"), Some("v1.2.0")),
        backup_exists: true,
        resource: infos(Some("Mumba"), Some("v1.2.0")),
    };
    assert!(game.replace_launcher_from_app_path("/r.exe", &evidence).is_empty());

    // Metadata that cannot be read count as empty.
    let evidence = LauncherEvidence {
        launcher: Err(PeError::NoVersion),
        backup_exists: true,
        resource: Err(PeError::IoError(IoErrorKind::NotFound)),
    };
    assert!(game.replace_launcher_from_app_path("/r.exe", &evidence).is_empty());
    let evidence = LauncherEvidence {
        launcher: Err(PeError::NoVersion),
        backup_exists: false,
        resource: infos(None, None),
    };
    assert_eq!(copies(&game.replace_launcher_from_app_path("/r.exe", &evidence)).len(), 1);
}

#[test]
fn a_denied_replacement_is_retried_with_more_rights_on_windows() {
    let dirs = BaseDirs { cache_dir: String::new(), data_dir: String::new(), config_dir: String::new() };
    let env = Env::new("mumba", "C:/Program Files/Mumba", false, &dirs);
    let windows = Platform::Windows { my_documents: String::new(), saved_games: String::new() };
    let mut game = steam_game();
    game.app_path = String::from("C:/Games/\"FF8\"");
    assert!(game.replace_launcher(&env, Ok(()), &windows).ok().unwrap().is_none());
    let helper = game
        .replace_launcher(&env, Err(IoErrorKind::PermissionDenied), &windows)
        .ok()
        .unwrap()
        .unwrap();
    assert_eq!(helper.program, "C:/Program Files/Mumba/mmb.exe");
    assert_eq!(helper.parameters, "replace_launcher \"C:/Games/FF8\"");
    assert_eq!(
        game.replace_launcher(&env, Err(IoErrorKind::PermissionDenied), &Platform::Unix).err(),
        Some(IoErrorKind::PermissionDenied)
    );
    assert_eq!(
        game.replace_launcher(&env, Err(IoErrorKind::NotFound), &windows).err(),
        Some(IoErrorKind::NotFound)
    );
    assert_eq!(remove_quotes("\"a\" \"\"b"), "a b");
    assert_eq!(remove_quotes(""), "");
}

#[test]
fn only_the_companion_game_is_talked_to() {
    assert!(SharedMemory::new(false, Some("C:/saves/user_1")).is_none());
    assert!(SharedMemory::new(true, None).is_none());
    assert!(SharedMemory::new(false, None).is_none());
    let long = "x".repeat(0x8000);
    assert!(SharedMemory::new(true, Some(&long)).is_none());
    let fitting = "x".repeat(0x7ffe);
    assert!(SharedMemory::new(true, Some(&fitting)).is_some());
    let handshake = SharedMemory::new(true, Some("C:/saves/user_1")).unwrap();
    assert_eq!(handshake.memory_name(), "choco_sharedMemoryWithLauncher");
    assert_eq!(handshake.game_can_name(), "choco_gameCanReadMsgSem");
    assert_eq!(handshake.game_did_name(), "choco_gameDidReadMsgSem");
    assert_eq!(handshake.launcher_can_name(), "choco_launcherCanReadMsgSem");
    assert_eq!(handshake.launcher_did_name(), "choco_launcherDidReadMsgSem");
}

fn kind(request: &Request) -> String {
    match request {
        Request::Receive(timeout) => format!("receive {}", timeout),
        Request::Send(bytes) => format!("send {}", bytes.len()),
        Request::CheckChild => String::from("check child"),
        Request::Stop => String::from("stop"),
    }
}

#[test]
fn the_save_directory_is_sent_to_a_game_that_is_ready() {
    let mut handshake = SharedMemory::new(true, Some("C:\\é𝄞")).unwrap();
    assert_eq!(kind(&handshake.request()), "receive 5000");
    handshake.wait(Event::Sent);
    assert_eq!(kind(&handshake.request()), "receive 5000");
    handshake.wait(Event::Received(Some(GAME_READY)));
    match handshake.request() {
        Request::Send(bytes) => assert_eq!(
            bytes,
            vec![6, 0, 0, 0, b'C', 0, b':', 0, b'\\', 0, 0xe9, 0, 0x34, 0xd8, 0x1e, 0xdd]
        ),
        _ => panic!("the directory has to be sent"),
    }
    handshake.wait(Event::Sent);
    match handshake.request() {
        Request::Send(bytes) => assert_eq!(bytes, END_USER_INFO.to_le_bytes().to_vec()),
        _ => panic!("the end has to be sent"),
    }
    handshake.wait(Event::Sent);
    for command in [None, Some(GAME_METRICS), Some(GAME_READY)] {
        assert_eq!(kind(&handshake.request()), "check child");
        handshake.wait(Event::Child(true));
        assert_eq!(kind(&handshake.request()), "receive 700");
        handshake.wait(Event::Received(command));
    }
    assert_eq!(kind(&handshake.request()), "check child");
    handshake.wait(Event::Child(false));
    assert_eq!(kind(&handshake.request()), "stop");
    handshake.wait(Event::Received(Some(GAME_READY)));
    assert_eq!(kind(&handshake.request()), "stop");
}

#[test]
fn a_game_that_is_not_ready_in_time_is_left_alone() {
    for first in [None, Some(GAME_METRICS), Some(USER_SAVE_DIR), Some(0)] {
        let mut handshake = SharedMemory::new(true, Some("C:/saves/user_1")).unwrap();
        handshake.wait(Event::Received(first));
        assert_eq!(kind(&handshake.request()), "stop");
    }
}

#[test]
fn texts_are_sent_as_utf16_behind_their_length() {
    for (dir, expected) in [
        ("", vec![0u8, 0, 0, 0]),
        ("\u{1234}\u{ff}", vec![2, 0, 0, 0, 0x34, 0x12, 0xff, 0]),
    ] {
        let mut handshake = SharedMemory::new(true, Some(dir)).unwrap();
        handshake.wait(Event::Received(Some(GAME_READY)));
        match handshake.request() {
            Request::Send(bytes) => assert_eq!(bytes, expected),
            _ => panic!("the directory has to be sent"),
        }
    }
    let long = "\u{101}".repeat(300);
    let mut handshake = SharedMemory::new(true, Some(&long)).unwrap();
    handshake.wait(Event::Received(Some(GAME_READY)));
    match handshake.request() {
        Request::Send(bytes) => {
            assert_eq!(bytes.len(), 604);
            assert_eq!(&bytes[..6], &[0x2c, 0x01, 0, 0, 0x01, 0x01]);
        }
        _ => panic!("the directory has to be sent"),
    }
    for text in ["", "user_1", "C:\\Users\\José\\Documents", "日本語", "𝄞a\u{10ffff}\u{ffff}\u{10000}"] {
        let expected: Vec<u16> = text.encode_utf16().collect();
        assert_eq!(encode_utf16(text), expected);
    }
}

#[test]
fn the_saves_of_the_first_user_are_taken() {
    let entry = |name: &str, is_dir: bool| DirEntry { name: String::from(name), is_dir };
    let base = save_path_2013("C:/Users/me/Documents");
    assert_eq!(base, "C:/Users/me/Documents/Square Enix\\FINAL FANTASY VIII Steam");
    let entries = vec![
        entry("config.txt", false),
        entry("user_file", false),
        entry("USER_1", true),
        entry("backup", true),
        entry("user_42", true),
        entry("user_7", true),
    ];
    assert_eq!(find_user_id("/saves", &entries).unwrap(), "/saves/user_42");
    assert!(find_user_id("/saves", &entries[..4].iter().map(|e| entry(&e.name, e.is_dir)).collect()).is_none());
    assert!(find_user_id("/saves", &vec![]).is_none());
    assert_eq!(find_user_id("/saves", &vec![entry("user_", true)]).unwrap(), "/saves/user_");
    assert!(find_user_id("/saves", &vec![entry("user", true)]).is_none());
}
