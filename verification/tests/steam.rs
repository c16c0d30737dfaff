use mumba_core::game::installation::Platform;
use mumba_core::steam::{get_steam_exe, get_steam_path, is_library_key, Library, Steam, SteamLibraryFolders};
use std::collections::HashMap;

fn library(path: &str, apps: &[u64]) -> Library {
    let mut map = HashMap::new();
    for app in apps {
        map.insert(*app, 1000 + *app);
    }
    Library { path: String::from(path), apps: map }
}

fn steam() -> Steam {
    Steam::from_config(
        String::from("/home/me/.steam/steam"),
        Some(SteamLibraryFolders {
            libraries: vec![
                library("/home/me/.steam/steam", &[228980]),
                library("/mnt/games", &[39150, 1026680]),
                library("/mnt/more", &[39150]),
            ],
        }),
    )
}

#[test]
fn numeric_keys_name_library_folders() {
    for key in ["0", "1", "12", "007", "4294967296"] {
        assert!(is_library_key(key), "{}", key);
    }
    for key in ["", "contentstatsid", "1a", "-1", " 1", "1 ", "１"] {
        assert!(!is_library_key(key), "{:?}", key);
    }
}

#[test]
fn a_product_is_looked_for_in_the_first_library_that_lists_it() {
    let s = steam();
    let folders = s.library_folders.as_ref().unwrap();
    assert_eq!(Steam::find_app_in_library_folders(folders, 39150).unwrap(), "/mnt/games");
    assert_eq!(Steam::find_app_in_library_folders(folders, 228980).unwrap(), "/home/me/.steam/steam");
    assert!(Steam::find_app_in_library_folders(folders, 1).is_none());
    assert_eq!(
        s.app_path(39150, "FINAL FANTASY VIII"),
        "/mnt/games/steamapps/common/FINAL FANTASY VIII"
    );
    assert_eq!(
        s.app_path(1026680, "FINAL FANTASY VIII Remastered"),
        "/mnt/games/steamapps/common/FINAL FANTASY VIII Remastered"
    );
    // A product that no library lists is looked for beside the client.
    assert_eq!(s.app_path(7, "Other"), "/home/me/.steam/steam/steamapps/common/Other");
    let bare = Steam::from_config(String::from("/opt/steam"), None);
    assert_eq!(bare.app_path(39150, "FINAL FANTASY VIII"), "/opt/steam/steamapps/common/FINAL FANTASY VIII");
}

#[test]
fn a_product_is_found_only_where_its_directory_is_there() {
    let s = steam();
    assert_eq!(
        s.find_app(39150, "FINAL FANTASY VIII", true).unwrap(),
        "/mnt/games/steamapps/common/FINAL FANTASY VIII"
    );
    assert!(s.find_app(39150, "FINAL FANTASY VIII", false).is_none());
}

#[test]
fn the_client_lies_in_the_home_of_the_user() {
    assert_eq!(get_steam_path("/home/me"), "/home/me/.steam/steam");
    assert_eq!(get_steam_exe("/home/me/.steam/steam", &Platform::Unix), "/home/me/.steam/steam/steam");
    let windows = Platform::Windows { my_documents: String::new(), saved_games: String::new() };
    assert_eq!(get_steam_exe("C:/Steam", &windows), "C:/Steam/steam.exe");
}
