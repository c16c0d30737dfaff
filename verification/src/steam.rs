//! The storefront's client: where it is installed and where its libraries
//! keep the games.

use crate::game::installation::Platform;
use crate::paths::{join_all, join_path, joined_all, joined_path};
use crate::text::chars_of;
use std::collections::HashMap;
use vstd::prelude::*;

verus! {

broadcast use vstd::std_specs::hash::group_hash_axioms;

/// One library folder of the client: where it lies, and the products it
/// holds, each with its size.
pub struct Library {
    pub path: String,
    pub apps: HashMap<u64, u64>,
}

/// The library folders that the client's index lists, in its order.
pub struct SteamLibraryFolders {
    pub libraries: Vec<Library>,
}

/// The client, as far as it is known.
pub struct Steam {
    pub library_folders: Option<SteamLibraryFolders>,
    pub path: String,
}

/// Whether a top-level key of the client's index names a library folder:
/// it is a number, written with decimal digits.
pub open spec fn is_library_key_spec(key: Seq<char>) -> bool {
    &&& key.len() > 0
    &&& forall|i: int| 0 <= i < key.len() ==> '0' <= #[trigger] key[i] <= '9'
}

/// Tells whether a top-level key of the client's index names a library
/// folder.
pub fn is_library_key(key: &str) -> (numeric: bool)
    ensures
        numeric == is_library_key_spec(key@),
{
    let chars = chars_of(key);
    if chars.len() == 0 {
        return false;
    }
    let mut i: usize = 0;
    while i < chars.len()
        invariant
            i <= chars.len(),
            chars@ == key@,
            forall|k: int| 0 <= k < i ==> '0' <= #[trigger] chars[k] <= '9',
        decreases chars.len() - i,
    {
        if !('0' <= chars[i] && chars[i] <= '9') {
            assert(!('0' <= key@[i as int] <= '9'));
            return false;
        }
        i += 1;
    }
    true
}

impl SteamLibraryFolders {
    /// Whether library `i` is the first one that holds a product.
    pub open spec fn is_first_holding(&self, i: int, app_id: u64) -> bool {
        &&& 0 <= i < self.libraries.len()
        &&& self.libraries[i].apps@.contains_key(app_id)
        &&& forall|j: int| 0 <= j < i ==> !self.libraries[j].apps@.contains_key(app_id)
    }

    /// Whether some library holds a product.
    pub open spec fn holds(&self, app_id: u64) -> bool {
        exists|i: int|
            0 <= i < self.libraries.len() && #[trigger] self.libraries[i].apps@.contains_key(app_id)
    }
}

impl Steam {
    /// The directory that holds the libraries' `steamapps` for a product:
    /// the first library that lists the product, or the client's own
    /// directory where none does.
    pub open spec fn library_of(&self, app_id: u64) -> Seq<char> {
        match self.library_folders {
            Some(folders) => if folders.holds(app_id) {
                folders.libraries[choose|i: int| folders.is_first_holding(i, app_id)].path@
            } else {
                self.path@
            },
            None => self.path@,
        }
    }

    /// The directory in which a product is installed, if it is.
    pub open spec fn app_dir(&self, app_id: u64, app_name: Seq<char>) -> Seq<char> {
        joined_all(self.library_of(app_id), seq!["steamapps"@, "common"@, app_name])
    }

    /// The client installed at `path`, with the library folders that its
    /// index lists, where the index could be read.
    pub fn from_config(path: String, library_folders: Option<SteamLibraryFolders>) -> (steam: Steam)
        ensures
            steam.path == path,
            steam.library_folders == library_folders,
    {
        Steam { library_folders, path }
    }

    /// The first library folder that lists a product.
    pub fn find_app_in_library_folders(library_folders: &SteamLibraryFolders, app_id: u64) -> (found: Option<
        &String,
    >)
        ensures
            match found {
                Some(path) => exists|i: int|
                    library_folders.is_first_holding(i, app_id) && *path
                        == library_folders.libraries[i].path,
                None => !library_folders.holds(app_id),
            },
    {
        let mut i: usize = 0;
        while i < library_folders.libraries.len()
            invariant
                i <= library_folders.libraries.len(),
                forall|j: int| 0 <= j < i ==> !library_folders.libraries[j].apps@.contains_key(app_id),
            decreases library_folders.libraries.len() - i,
        {
            if library_folders.libraries[i].apps.contains_key(&app_id) {
                assert(library_folders.is_first_holding(i as int, app_id));
                return Some(&library_folders.libraries[i].path);
            }
            i += 1;
        }
        None
    }

    /// The directory in which a product would be installed.
    pub fn app_path(&self, app_id: u64, app_name: &str) -> (path: String)
        ensures
            path@ == self.app_dir(app_id, app_name@),
    {
        let steam_path: &String = match &self.library_folders {
            Some(library_folders) => match Self::find_app_in_library_folders(library_folders, app_id) {
                Some(path) => {
                    proof {
                        let i = choose|i: int|
                            library_folders.is_first_holding(i, app_id) && *path
                                == library_folders.libraries[i].path;
                        let k = choose|k: int| library_folders.is_first_holding(k, app_id);
                        assert(library_folders.is_first_holding(i, app_id));
                        assert(i == k);
                    }
                    path
                },
                None => &self.path,
            },
            None => &self.path,
        };
        let parts: [&str; 3] = ["steamapps", "common", app_name];
        assert(crate::paths::views_of(parts@) =~= seq!["steamapps"@, "common"@, app_name@]);
        join_all(steam_path.as_str(), parts.as_slice())
    }

    /// The directory in which a product is installed; none where
    /// `installed` says that the directory it would be in is not there.
    pub fn find_app(&self, app_id: u64, app_name: &'static str, installed: bool) -> (found: Option<String>)
        ensures
            match found {
                Some(path) => installed && path@ == self.app_dir(app_id, app_name@),
                None => !installed,
            },
    {
        if installed {
            Some(self.app_path(app_id, app_name))
        } else {
            None
        }
    }
}

/// Where the client is installed for a user whose home directory is
/// `home`, before links are resolved.
pub fn get_steam_path(home: &str) -> (path: String)
    ensures
        path@ == home@ + "/.steam/steam"@,
{
    let mut path = home.to_string();
    path.append("/.steam/steam");
    path
}

/// The client's executable.
pub fn get_steam_exe(steam_path: &str, platform: &Platform) -> (exe: String)
    ensures
        exe@ == joined_path(
            steam_path@,
            match platform {
                Platform::Unix => "steam"@,
                Platform::Windows { my_documents, saved_games } => "steam.exe"@,
            },
        ),
{
    match platform {
        Platform::Unix => join_path(steam_path, "steam"),
        Platform::Windows { my_documents, saved_games } => join_path(steam_path, "steam.exe"),
    }
}

} // verus!
