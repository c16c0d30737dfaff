//! Installation records and the fingerprinting of game executables.

use crate::game::env::Env;
use crate::install::{Task, TaskView};
use crate::os::{run_helper, Command, CommandView, LaunchPlan, Stdio};
use crate::pe_format::{IoErrorKind, PeError, VersionInfo};
use crate::provision::{download_spec, download_zip, Download};
use crate::paths::{file_name_of, join_all, join_path, joined_all, joined_path, parent_of, path_file_name, path_parent};
use crate::text::{chars_of, contains, contains_text, decimal, find, first_occurrence, lemma_first_occurrence_unique, lowercase, occurs_at, string_of, to_decimal, to_lowercase, to_uppercase, uppercase};
use vstd::prelude::*;

verus! {

/// Distribution channel of the game.
#[derive(Clone, Copy, Debug, PartialEq, Eq, Structural)]
pub enum Edition {
    Standard,
    Steam,
    Remastered,
}

/// Version tag of a retail executable.
#[derive(Clone, Copy, Debug, PartialEq, Eq, Structural)]
pub enum Version {
    Unknown,
    V100,
    V120,
    V120NV,
}

/// Publisher of a retail executable.
#[derive(Clone, Copy, Debug, PartialEq, Eq, Structural)]
pub enum Publisher {
    EaJp,
    EaUs,
    EidosDe,
    EidosFr,
    EidosIt,
    EidosSp,
    EidosUk,
}

/// How a signature settles the version tag.
pub enum VersionRule {
    /// The two words alone decide.
    Fixed(Version),
    /// A third word decides between two tags.
    ByThirdWord { probe: u32, matched: Version, otherwise: Version },
}

/// One line of the signature table.
pub struct Signature {
    pub word1: u32,
    pub word2: u32,
    pub publisher: Publisher,
    pub rule: VersionRule,
}

impl VersionRule {
    /// The version tag this rule gives for a third word.
    pub open spec fn resolve(self, word3: u32) -> Version {
        match self {
            VersionRule::Fixed(v) => v,
            VersionRule::ByThirdWord { probe, matched, otherwise } => if word3 == probe {
                matched
            } else {
                otherwise
            },
        }
    }
}

/// Offset of the first fingerprint word in an executable.
pub const VERSION_CHECK1_OFFSET: usize = 0x1004;

/// Offset of the second fingerprint word in an executable.
pub const VERSION_CHECK2_OFFSET: usize = 0x1404;

/// Offset of the word that tells the two Japanese builds apart.
pub const VERSION_CHECK3_OFFSET: usize = 0x1010;

/// Number of leading bytes of an executable that fingerprinting reads.
pub const FINGERPRINT_LEN: usize = 0x1408;

/// The known executables, keyed by the two fingerprint words.
pub open spec fn signature_table() -> Seq<Signature> {
    seq![
        Signature { word1: 0x3885048D, word2: 0x159618, publisher: Publisher::EaUs, rule: VersionRule::Fixed(Version::V120) },
        Signature { word1: 0x3885048D, word2: 0x1597C8, publisher: Publisher::EaUs, rule: VersionRule::Fixed(Version::V120NV) },
        Signature { word1: 0x1085048D, word2: 0x159B48, publisher: Publisher::EidosFr, rule: VersionRule::Fixed(Version::V120) },
        Signature { word1: 0x1085048D, word2: 0x159CF8, publisher: Publisher::EidosFr, rule: VersionRule::Fixed(Version::V120NV) },
        Signature { word1: 0xA885048D, word2: 0x159C48, publisher: Publisher::EidosDe, rule: VersionRule::Fixed(Version::V120) },
        Signature { word1: 0xA885048D, word2: 0x159DF8, publisher: Publisher::EidosDe, rule: VersionRule::Fixed(Version::V120NV) },
        Signature { word1: 0x8085048D, word2: 0x159C38, publisher: Publisher::EidosSp, rule: VersionRule::Fixed(Version::V120) },
        Signature { word1: 0x8085048D, word2: 0x159DE8, publisher: Publisher::EidosSp, rule: VersionRule::Fixed(Version::V120NV) },
        Signature { word1: 0xB885048D, word2: 0x159BC8, publisher: Publisher::EidosIt, rule: VersionRule::Fixed(Version::V120) },
        Signature { word1: 0xB885048D, word2: 0x159D78, publisher: Publisher::EidosIt, rule: VersionRule::Fixed(Version::V120NV) },
        Signature { word1: 0x2885048D, word2: 0x159598, publisher: Publisher::EidosUk, rule: VersionRule::Fixed(Version::V120) },
        Signature { word1: 0x2885048D, word2: 0x159748, publisher: Publisher::EidosUk, rule: VersionRule::Fixed(Version::V120NV) },
        Signature {
            word1: 0x1B6E9CC,
            word2: 0x7C8DFFC9,
            publisher: Publisher::EaJp,
            rule: VersionRule::ByThirdWord { probe: 0x24AC, matched: Version::V120NV, otherwise: Version::V120 },
        },
    ]
}

/// Whether line `i` of the table carries the pair `(word1, word2)`.
pub open spec fn signature_matches(i: int, word1: u32, word2: u32) -> bool {
    &&& 0 <= i < signature_table().len()
    &&& signature_table()[i].word1 == word1
    &&& signature_table()[i].word2 == word2
}

/// Whether the table knows the pair `(word1, word2)`.
pub open spec fn in_signature_table(word1: u32, word2: u32) -> bool {
    exists|i: int| signature_matches(i, word1, word2)
}

/// The tags of an executable with the given fingerprint words; nothing where
/// the first two are the pair of no known executable. The third word is
/// looked at for the one pair that two builds share.
pub open spec fn classify_spec(word1: u32, word2: u32, word3: u32) -> Option<(Version, Publisher)> {
    if word1 == 0x3885048D && word2 == 0x159618 {
        Some((Version::V120, Publisher::EaUs))
    } else if word1 == 0x3885048D && word2 == 0x1597C8 {
        Some((Version::V120NV, Publisher::EaUs))
    } else if word1 == 0x1085048D && word2 == 0x159B48 {
        Some((Version::V120, Publisher::EidosFr))
    } else if word1 == 0x1085048D && word2 == 0x159CF8 {
        Some((Version::V120NV, Publisher::EidosFr))
    } else if word1 == 0xA885048D && word2 == 0x159C48 {
        Some((Version::V120, Publisher::EidosDe))
    } else if word1 == 0xA885048D && word2 == 0x159DF8 {
        Some((Version::V120NV, Publisher::EidosDe))
    } else if word1 == 0x8085048D && word2 == 0x159C38 {
        Some((Version::V120, Publisher::EidosSp))
    } else if word1 == 0x8085048D && word2 == 0x159DE8 {
        Some((Version::V120NV, Publisher::EidosSp))
    } else if word1 == 0xB885048D && word2 == 0x159BC8 {
        Some((Version::V120, Publisher::EidosIt))
    } else if word1 == 0xB885048D && word2 == 0x159D78 {
        Some((Version::V120NV, Publisher::EidosIt))
    } else if word1 == 0x2885048D && word2 == 0x159598 {
        Some((Version::V120, Publisher::EidosUk))
    } else if word1 == 0x2885048D && word2 == 0x159748 {
        Some((Version::V120NV, Publisher::EidosUk))
    } else if word1 == 0x1B6E9CC && word2 == 0x7C8DFFC9 {
        if word3 == 0x24AC {
            Some((Version::V120NV, Publisher::EaJp))
        } else {
            Some((Version::V120, Publisher::EaJp))
        }
    } else {
        None
    }
}

/// No pair stands on two lines of the table.
pub proof fn lemma_signature_table_unambiguous(i: int, j: int)
    requires
        0 <= i < signature_table().len(),
        0 <= j < signature_table().len(),
        signature_table()[i].word1 == signature_table()[j].word1,
        signature_table()[i].word2 == signature_table()[j].word2,
    ensures
        i == j,
{
}

/// Classifies an executable by its fingerprint words.
pub fn classify(word1: u32, word2: u32, word3: u32) -> (tags: Option<(Version, Publisher)>)
    ensures
        tags == classify_spec(word1, word2, word3),
{
    if word1 == 0x3885048D && word2 == 0x159618 {
        Some((Version::V120, Publisher::EaUs))
    } else if word1 == 0x3885048D && word2 == 0x1597C8 {
        Some((Version::V120NV, Publisher::EaUs))
    } else if word1 == 0x1085048D && word2 == 0x159B48 {
        Some((Version::V120, Publisher::EidosFr))
    } else if word1 == 0x1085048D && word2 == 0x159CF8 {
        Some((Version::V120NV, Publisher::EidosFr))
    } else if word1 == 0xA885048D && word2 == 0x159C48 {
        Some((Version::V120, Publisher::EidosDe))
    } else if word1 == 0xA885048D && word2 == 0x159DF8 {
        Some((Version::V120NV, Publisher::EidosDe))
    } else if word1 == 0x8085048D && word2 == 0x159C38 {
        Some((Version::V120, Publisher::EidosSp))
    } else if word1 == 0x8085048D && word2 == 0x159DE8 {
        Some((Version::V120NV, Publisher::EidosSp))
    } else if word1 == 0xB885048D && word2 == 0x159BC8 {
        Some((Version::V120, Publisher::EidosIt))
    } else if word1 == 0xB885048D && word2 == 0x159D78 {
        Some((Version::V120NV, Publisher::EidosIt))
    } else if word1 == 0x2885048D && word2 == 0x159598 {
        Some((Version::V120, Publisher::EidosUk))
    } else if word1 == 0x2885048D && word2 == 0x159748 {
        Some((Version::V120NV, Publisher::EidosUk))
    } else if word1 == 0x1B6E9CC && word2 == 0x7C8DFFC9 {
        if word3 == 0x24AC {
            Some((Version::V120NV, Publisher::EaJp))
        } else {
            Some((Version::V120, Publisher::EaJp))
        }
    } else {
        None
    }
}

/// The value of four bytes read as a little-endian word.
pub open spec fn le_word(b0: u8, b1: u8, b2: u8, b3: u8) -> u32 {
    (b0 as int + b1 as int * 0x100 + b2 as int * 0x1_0000 + b3 as int * 0x100_0000) as u32
}

/// The little-endian word that stands at `offset` in `bytes`.
pub open spec fn le_word_at(bytes: Seq<u8>, offset: int) -> u32
    recommends
        0 <= offset,
        offset + 4 <= bytes.len(),
{
    le_word(bytes[offset], bytes[offset + 1], bytes[offset + 2], bytes[offset + 3])
}

/// What the leading bytes of an executable say of its version: nothing when
/// they end before the fingerprint words, else what the table says of them.
pub open spec fn fingerprint(header: Seq<u8>) -> Option<(Version, Publisher)> {
    if header.len() < FINGERPRINT_LEN {
        None
    } else {
        classify_spec(
            le_word_at(header, VERSION_CHECK1_OFFSET as int),
            le_word_at(header, VERSION_CHECK2_OFFSET as int),
            le_word_at(header, VERSION_CHECK3_OFFSET as int),
        )
    }
}

/// Reads the little-endian word at `offset`.
fn read_le_word(bytes: &[u8], offset: usize) -> (word: u32)
    requires
        offset + 4 <= bytes.len(),
    ensures
        word == le_word_at(bytes@, offset as int),
{
    let b0: u32 = bytes[offset] as u32;
    let b1: u32 = bytes[offset + 1] as u32;
    let b2: u32 = bytes[offset + 2] as u32;
    let b3: u32 = bytes[offset + 3] as u32;
    b0 + b1 * 0x100 + b2 * 0x1_0000 + b3 * 0x100_0000
}

/// Why a selected executable gives no installation.
#[derive(Clone, Copy, Debug, PartialEq, Eq, Structural)]
pub enum FromExeError {
    /// The selected executable does not exist.
    NotFound,
    /// A launcher was selected in place of the game.
    LauncherSelected,
}

impl FromExeError {
    /// The message shown for this error.
    pub fn message(&self) -> (text: String)
        ensures
            text@ == match self {
                FromExeError::NotFound => "EXE file not found"@,
                FromExeError::LauncherSelected =>
                    "The launcher was selected, please select the FF8 executable"@,
            },
    {
        match self {
            FromExeError::NotFound => "EXE file not found".to_string(),
            FromExeError::LauncherSelected =>
                "The launcher was selected, please select the FF8 executable".to_string(),
        }
    }
}

/// A file found present in a directory, with the bytes it starts with.
pub struct FileProbe {
    pub name: String,
    pub header: Vec<u8>,
}

/// What the file system shows of a game directory: the two language markers,
/// where they could be read, and the files found present in it.
pub struct DirectoryProbe {
    /// Contents of `lang.dat`, the marker of the store edition.
    pub steam_lang: Option<String>,
    /// Contents of `Data/main.fl`, the marker of a retail install.
    pub standard_lang: Option<String>,
    /// The files found present, by name.
    pub files: Vec<FileProbe>,
}

impl DirectoryProbe {
    /// Whether file `i` is the first one named `name`.
    pub open spec fn is_first_named(&self, i: int, name: Seq<char>) -> bool {
        &&& 0 <= i < self.files.len()
        &&& self.files[i].name@ == name
        &&& forall|j: int| 0 <= j < i ==> self.files[j].name@ != name
    }

    /// Whether a file named `name` was found present.
    pub open spec fn has_file(&self, name: Seq<char>) -> bool {
        exists|i: int| 0 <= i < self.files.len() && #[trigger] self.files[i].name@ == name
    }

    /// The leading bytes of the file named `name`; empty where there is none.
    pub open spec fn header_of(&self, name: Seq<char>) -> Seq<u8> {
        if self.has_file(name) {
            self.files[choose|i: int| self.is_first_named(i, name)].header@
        } else {
            Seq::empty()
        }
    }

    /// Looks up the first file named `name`.
    pub fn find_file(&self, name: &str) -> (found: Option<usize>)
        ensures
            found is Some <==> self.has_file(name@),
            found matches Some(i) ==> self.is_first_named(i as int, name@)
                && self.files[i as int].header@ == self.header_of(name@),
    {
        let wanted = name.to_string();
        let mut i: usize = 0;
        while i < self.files.len()
            invariant
                i <= self.files.len(),
                wanted@ == name@,
                forall|j: int| 0 <= j < i ==> self.files[j].name@ != name@,
            decreases self.files.len() - i,
        {
            if self.files[i].name == wanted {
                proof {
                    let k = choose|k: int| self.is_first_named(k, name@);
                    assert(self.is_first_named(i as int, name@));
                    assert(k == i);
                }
                return Some(i);
            }
            i += 1;
        }
        None
    }

    /// Tells whether a file named `name` was found present.
    pub fn is_present(&self, name: &str) -> (present: bool)
        ensures
            present == self.has_file(name@),
    {
        self.find_file(name).is_some()
    }
}


/// Where the host keeps what belongs to a user.
pub enum Platform {
    /// Windows, with the user's documents and saved-games folders as the
    /// system reports them.
    Windows { my_documents: String, saved_games: String },
    /// Any other system: the store editions run inside the storefront's
    /// compatibility prefix, beside the library that holds the game.
    Unix,
}

impl Edition {
    /// The storefront's product identifier of this edition; 0 for the retail
    /// edition, which has none.
    pub open spec fn app_id_spec(self) -> u64 {
        match self {
            Edition::Standard => 0,
            Edition::Steam => 39150,
            Edition::Remastered => 1026680,
        }
    }

    /// The storefront's product identifier of this edition.
    pub fn app_id(&self) -> (id: u64)
        ensures
            id == self.app_id_spec(),
    {
        match self {
            Edition::Standard => 0,
            Edition::Steam => 39150,
            Edition::Remastered => 1026680,
        }
    }
}

/// The text that marks the language directory in a retail file list.
pub open spec fn standard_lang_marker() -> Seq<char> {
    "ff8\\data\\"@
}

/// The language of a retail install, read from its file list: the three
/// characters behind the first marker, or two where the third is a backslash;
/// `eng` where the list holds no marker or ends before the third character.
pub open spec fn standard_edition_lang(contents: Seq<char>) -> Seq<char> {
    let marker = standard_lang_marker();
    if contains(contents, marker) {
        let start = (choose|at: int| first_occurrence(contents, marker, at)) + marker.len();
        if start + 3 <= contents.len() {
            if contents[start + 2] == '\\' {
                contents.subrange(start, start + 2)
            } else {
                contents.subrange(start, start + 3)
            }
        } else {
            "eng"@
        }
    } else {
        "eng"@
    }
}

/// The language of a store install: its marker file in upper case.
pub open spec fn steam_edition_lang(contents: Seq<char>) -> Seq<char> {
    uppercase(contents)
}

/// The edition and language that the markers of a directory show.
pub open spec fn detected_edition(probe: DirectoryProbe) -> (Edition, Seq<char>) {
    match probe.steam_lang {
        Some(contents) => (Edition::Steam, steam_edition_lang(contents@)),
        None => (
            Edition::Standard,
            match probe.standard_lang {
                Some(contents) => standard_edition_lang(contents@),
                None => "eng"@,
            },
        ),
    }
}

/// Whether a file name is that of a launcher or of the companion game, not
/// of the game itself.
pub open spec fn is_launcher_name(name: Seq<char>) -> bool {
    contains(lowercase(name), "launcher"@) || contains(lowercase(name), "chocobo"@)
}

/// The name of the store edition's executable for a language.
pub open spec fn steam_exe_name(language: Seq<char>) -> Seq<char> {
    "FF8_"@ + language + ".exe"@
}

/// The components that lead from a library's game directory to the
/// documents folder inside the compatibility prefix of a product.
pub open spec fn prefix_documents(edition: Edition) -> Seq<Seq<char>> {
    seq![
        ".."@,
        ".."@,
        "compatdata"@,
        decimal(edition.app_id_spec() as nat),
        "pfx"@,
        "drive_c"@,
        "users"@,
        "steamuser"@,
        "My Documents"@,
    ]
}

/// Where an edition keeps its settings and saves.
pub open spec fn config_path_spec(edition: Edition, app_path: Seq<char>, platform: Platform) -> Seq<
    char,
> {
    match edition {
        Edition::Standard => app_path,
        Edition::Steam => match platform {
            Platform::Windows { my_documents, saved_games } => joined_all(
                my_documents@,
                seq!["Square Enix"@, "FINAL FANTASY VIII Steam"@],
            ),
            Platform::Unix => joined_all(
                app_path,
                prefix_documents(edition) + seq!["Square Enix"@, "FINAL FANTASY VIII Steam"@],
            ),
        },
        Edition::Remastered => match platform {
            Platform::Windows { my_documents, saved_games } => joined_all(
                saved_games@,
                seq!["My Games"@, "FINAL FANTASY VIII Remastered"@, "game_data"@],
            ),
            Platform::Unix => joined_all(
                app_path,
                prefix_documents(edition) + seq![
                    "My Games"@,
                    "FINAL FANTASY VIII Remastered"@,
                    "game_data"@,
                ],
            ),
        },
    }
}

/// One installed copy of the game.
#[derive(Clone)]
pub struct Installation {
    pub app_path: String,
    pub exe_name: String,
    pub edition: Edition,
    pub version: Option<(Version, Publisher)>,
    pub language: String,
    pub config_path: String,
}

/// An installation with its texts as sequences of characters.
pub struct InstallationView {
    pub app_path: Seq<char>,
    pub exe_name: Seq<char>,
    pub edition: Edition,
    pub version: Option<(Version, Publisher)>,
    pub language: Seq<char>,
    pub config_path: Seq<char>,
}

impl View for Installation {
    type V = InstallationView;

    open spec fn view(&self) -> InstallationView {
        InstallationView {
            app_path: self.app_path@,
            exe_name: self.exe_name@,
            edition: self.edition,
            version: self.version,
            language: self.language@,
            config_path: self.config_path@,
        }
    }
}

/// The installation that a selected executable stands for, given what its
/// directory shows, or the reason why it stands for none.
pub open spec fn from_exe_path_spec(exe_path: Seq<char>, probe: DirectoryProbe, platform: Platform) -> Result<
    InstallationView,
    FromExeError,
> {
    from_exe_name_spec(
        match path_parent(exe_path) {
            Some(parent) => parent,
            None => Seq::empty(),
        },
        path_file_name(exe_path),
        probe,
        platform,
    )
}

/// The installation that the file `file_name` of the directory `app_path`
/// stands for, given what the directory shows, or the reason why it stands
/// for none.
///
/// A file that is not there gives `NotFound`. A launcher gives
/// `LauncherSelected`, unless the directory is a store install that holds the
/// executable of its language, which then takes the launcher's place.
pub open spec fn from_exe_name_spec(app_path: Seq<char>, file_name: Seq<char>, probe: DirectoryProbe, platform: Platform) -> Result<
    InstallationView,
    FromExeError,
> {
    let (edition, language) = detected_edition(probe);
    let exe_name = if is_launcher_name(file_name) {
        steam_exe_name(language)
    } else {
        file_name
    };
    if !probe.has_file(file_name) {
        Err(FromExeError::NotFound)
    } else if is_launcher_name(file_name) && (edition != Edition::Steam || !probe.has_file(exe_name)) {
        Err(FromExeError::LauncherSelected)
    } else {
        Ok(
            InstallationView {
                app_path,
                exe_name,
                edition,
                version: fingerprint(probe.header_of(exe_name)),
                language,
                config_path: config_path_spec(edition, app_path, platform),
            },
        )
    }
}

/// Whether the path that joins a directory and a file name is not empty and
/// splits into the two again.
pub open spec fn path_splits(app_path: Seq<char>, exe_name: Seq<char>) -> bool {
    let path = joined_path(app_path, exe_name);
    &&& path.len() > 0
    &&& path_parent(path) == Some(app_path)
    &&& path_file_name(path) == exe_name
}

/// Selecting the executable of an installation gives that installation
/// again, whichever file of its directory it was first selected by.
pub proof fn lemma_own_executable_selects_the_installation(
    app_path: Seq<char>,
    file_name: Seq<char>,
    probe: DirectoryProbe,
    platform: Platform,
)
    requires
        from_exe_name_spec(app_path, file_name, probe, platform) is Ok,
    ensures
        from_exe_name_spec(
            app_path,
            from_exe_name_spec(app_path, file_name, probe, platform)->Ok_0.exe_name,
            probe,
            platform,
        ) == from_exe_name_spec(app_path, file_name, probe, platform),
{
}

/// The executable that an edition keeps in its directory, and the language
/// its markers show.
pub open spec fn directory_exe(edition: Edition, probe: DirectoryProbe) -> (Seq<char>, Seq<char>) {
    match edition {
        Edition::Standard => (
            "FF8.exe"@,
            match probe.standard_lang {
                Some(contents) => standard_edition_lang(contents@),
                None => "eng"@,
            },
        ),
        Edition::Steam => {
            let language = match probe.steam_lang {
                Some(contents) => steam_edition_lang(contents@),
                None => "en"@,
            };
            (steam_exe_name(language), language)
        },
        Edition::Remastered => ("FFVIII.exe"@, "en"@),
    }
}

/// The installation of a known edition that a directory holds, if its
/// executable is there.
pub open spec fn from_directory_spec(app_path: Seq<char>, edition: Edition, probe: DirectoryProbe, platform: Platform) -> Option<
    InstallationView,
> {
    let (exe_name, language) = directory_exe(edition, probe);
    if probe.has_file(exe_name) {
        Some(
            InstallationView {
                app_path,
                exe_name,
                edition,
                version: fingerprint(probe.header_of(exe_name)),
                language,
                config_path: config_path_spec(edition, app_path, platform),
            },
        )
    } else {
        None
    }
}

impl Installation {
    /// Reads the language of a retail install from the contents of its file
    /// list.
    pub fn get_standard_edition_lang(contents: &str) -> (language: String)
        ensures
            language@ == standard_edition_lang(contents@),
    {
        let text = chars_of(contents);
        let marker = chars_of("ff8\\data\\");
        match find(&text, &marker) {
            Some(at) => {
                proof {
                    let chosen = choose|i: int| first_occurrence(text@, marker@, i);
                    lemma_first_occurrence_unique(text@, marker@, at as int, chosen);
                }
                assert(occurs_at(text@, marker@, at as int));
                assert(at + marker@.len() <= text@.len());
                assert(text@.len() == text.len());
                let start: usize = at + marker.len();
                if text.len() - start >= 3 {
                    let end: usize = if text[start + 2] == '\\' {
                        start + 2
                    } else {
                        start + 3
                    };
                    let mut language: Vec<char> = Vec::new();
                    let mut i: usize = start;
                    while i < end
                        invariant
                            start <= i <= end <= text.len(),
                            language@ == text@.subrange(start as int, i as int),
                        decreases end - i,
                    {
                        language.push(text[i]);
                        assert(text@.subrange(start as int, i + 1) =~= text@.subrange(
                            start as int,
                            i as int,
                        ).push(text@[i as int]));
                        i += 1;
                    }
                    string_of(&language)
                } else {
                    "eng".to_string()
                }
            },
            None => "eng".to_string(),
        }
    }

    /// Reads the language of a store install from the contents of its marker
    /// file.
    pub fn get_steam_edition_lang(contents: &str) -> (language: String)
        ensures
            language@ == steam_edition_lang(contents@),
    {
        string_of(&to_uppercase(&chars_of(contents)))
    }

    /// Classifies an executable by the bytes it starts with.
    pub fn get_version_from_exe(header: &[u8]) -> (version: Option<(Version, Publisher)>)
        ensures
            version == fingerprint(header@),
    {
        if header.len() < FINGERPRINT_LEN {
            return None;
        }
        classify(
            read_le_word(header, VERSION_CHECK1_OFFSET),
            read_le_word(header, VERSION_CHECK2_OFFSET),
            read_le_word(header, VERSION_CHECK3_OFFSET),
        )
    }

    /// Tells whether a file name is that of a launcher or of the companion
    /// game.
    pub fn is_launcher(name: &str) -> (launcher: bool)
        ensures
            launcher == is_launcher_name(name@),
    {
        let lower = to_lowercase(&chars_of(name));
        contains_text(&lower, &chars_of("launcher")) || contains_text(&lower, &chars_of("chocobo"))
    }

    /// The name of the store edition's executable for a language.
    pub fn steam_exe(language: &str) -> (name: String)
        ensures
            name@ == steam_exe_name(language@),
    {
        let mut name = "FF8_".to_string();
        name.append(language);
        name.append(".exe");
        name
    }

    /// Where an edition keeps its settings and saves.
    pub fn get_config_path(edition: &Edition, app_path: &str, platform: &Platform) -> (path: String)
        ensures
            path@ == config_path_spec(*edition, app_path@, *platform),
    {
        match edition {
            Edition::Standard => app_path.to_string(),
            Edition::Steam => match platform {
                Platform::Windows { my_documents, saved_games } => {
                    let parts: [&str; 2] = ["Square Enix", "FINAL FANTASY VIII Steam"];
                    assert(crate::paths::views_of(parts@) =~= seq![
                        "Square Enix"@,
                        "FINAL FANTASY VIII Steam"@,
                    ]);
                    join_all(my_documents.as_str(), parts.as_slice())
                },
                Platform::Unix => {
                    let id = string_of(&to_decimal(edition.app_id()));
                    let parts: [&str; 11] = [
                        "..",
                        "..",
                        "compatdata",
                        id.as_str(),
                        "pfx",
                        "drive_c",
                        "users",
                        "steamuser",
                        "My Documents",
                        "Square Enix",
                        "FINAL FANTASY VIII Steam",
                    ];
                    assert(crate::paths::views_of(parts@) =~= prefix_documents(*edition) + seq![
                        "Square Enix"@,
                        "FINAL FANTASY VIII Steam"@,
                    ]);
                    join_all(app_path, parts.as_slice())
                },
            },
            Edition::Remastered => match platform {
                Platform::Windows { my_documents, saved_games } => {
                    let parts: [&str; 3] = ["My Games", "FINAL FANTASY VIII Remastered", "game_data"];
                    assert(crate::paths::views_of(parts@) =~= seq![
                        "My Games"@,
                        "FINAL FANTASY VIII Remastered"@,
                        "game_data"@,
                    ]);
                    join_all(saved_games.as_str(), parts.as_slice())
                },
                Platform::Unix => {
                    let id = string_of(&to_decimal(edition.app_id()));
                    let parts: [&str; 12] = [
                        "..",
                        "..",
                        "compatdata",
                        id.as_str(),
                        "pfx",
                        "drive_c",
                        "users",
                        "steamuser",
                        "My Documents",
                        "My Games",
                        "FINAL FANTASY VIII Remastered",
                        "game_data",
                    ];
                    assert(crate::paths::views_of(parts@) =~= prefix_documents(*edition) + seq![
                        "My Games"@,
                        "FINAL FANTASY VIII Remastered"@,
                        "game_data"@,
                    ]);
                    join_all(app_path, parts.as_slice())
                },
            },
        }
    }

    /// Detects the edition and the language of a directory from its markers.
    pub fn detect_edition(probe: &DirectoryProbe) -> (found: (Edition, String))
        ensures
            (found.0, found.1@) == detected_edition(*probe),
    {
        match &probe.steam_lang {
            Some(contents) => (Edition::Steam, Self::get_steam_edition_lang(contents.as_str())),
            None => (
                Edition::Standard,
                match &probe.standard_lang {
                    Some(contents) => Self::get_standard_edition_lang(contents.as_str()),
                    None => "eng".to_string(),
                },
            ),
        }
    }

    /// Builds the installation that a selected executable stands for.
    ///
    /// A path that does not exist gives `NotFound`. A launcher gives
    /// `LauncherSelected`, unless the directory is a store install that holds
    /// the executable of its language, which then takes the launcher's place.
    pub fn from_exe_path(exe_path: &str, probe: &DirectoryProbe, platform: &Platform) -> (result: Result<
        Installation,
        FromExeError,
    >)
        ensures
            match result {
                Ok(installation) => from_exe_path_spec(exe_path@, *probe, *platform) == Ok::<
                    InstallationView,
                    FromExeError,
                >(installation@),
                Err(e) => from_exe_path_spec(exe_path@, *probe, *platform) == Err::<
                    InstallationView,
                    FromExeError,
                >(e),
            },
    {
        let file_name = file_name_of(exe_path);
        let app_path = match parent_of(exe_path) {
            Some(parent) => parent,
            None => String::new(),
        };
        Self::from_exe_name(app_path, file_name, probe, platform)
    }

    /// Builds the installation that a file of a directory stands for: the
    /// file `file_name` of the directory `app_path`.
    pub fn from_exe_name(app_path: String, file_name: String, probe: &DirectoryProbe, platform: &Platform) -> (result: Result<
        Installation,
        FromExeError,
    >)
        ensures
            match result {
                Ok(installation) => from_exe_name_spec(app_path@, file_name@, *probe, *platform)
                    == Ok::<InstallationView, FromExeError>(installation@),
                Err(e) => from_exe_name_spec(app_path@, file_name@, *probe, *platform) == Err::<
                    InstallationView,
                    FromExeError,
                >(e),
            },
    {
        if !probe.is_present(file_name.as_str()) {
            return Err(FromExeError::NotFound);
        }
        let (edition, language) = Self::detect_edition(probe);
        let mut exe_name = file_name;
        if Self::is_launcher(exe_name.as_str()) {
            if edition != Edition::Steam {
                return Err(FromExeError::LauncherSelected);
            }
            exe_name = Self::steam_exe(language.as_str());
            if !probe.is_present(exe_name.as_str()) {
                return Err(FromExeError::LauncherSelected);
            }
        }
        let version = match probe.find_file(exe_name.as_str()) {
            Some(i) => Self::get_version_from_exe(probe.files[i].header.as_slice()),
            None => None,
        };
        let config_path = Self::get_config_path(&edition, app_path.as_str(), platform);
        Ok(Installation { app_path, exe_name, edition, version, language, config_path })
    }

    /// Builds the installation of a known edition from its directory; none
    /// where the edition's executable is not there.
    pub fn from_directory(app_path: &str, edition: Edition, probe: &DirectoryProbe, platform: &Platform) -> (result: Option<
        Installation,
    >)
        ensures
            match result {
                Some(installation) => from_directory_spec(app_path@, edition, *probe, *platform)
                    == Some(installation@),
                None => from_directory_spec(app_path@, edition, *probe, *platform) is None,
            },
    {
        let (exe_name, language) = match edition {
            Edition::Standard => (
                "FF8.exe".to_string(),
                match &probe.standard_lang {
                    Some(contents) => Self::get_standard_edition_lang(contents.as_str()),
                    None => "eng".to_string(),
                },
            ),
            Edition::Steam => {
                let language = match &probe.steam_lang {
                    Some(contents) => Self::get_steam_edition_lang(contents.as_str()),
                    None => "en".to_string(),
                };
                (Self::steam_exe(language.as_str()), language)
            },
            Edition::Remastered => ("FFVIII.exe".to_string(), "en".to_string()),
        };
        match probe.find_file(exe_name.as_str()) {
            Some(i) => {
                let version = Self::get_version_from_exe(probe.files[i].header.as_slice());
                let config_path = Self::get_config_path(&edition, app_path, platform);
                Some(
                    Installation {
                        app_path: app_path.to_string(),
                        exe_name,
                        edition,
                        version,
                        language,
                        config_path,
                    },
                )
            },
            None => None,
        }
    }

    /// The full path of the game's executable.
    pub fn exe_path(&self) -> (path: String)
        ensures
            path@ == joined_path(self.app_path@, self.exe_name@),
    {
        join_path(self.app_path.as_str(), self.exe_name.as_str())
    }

    /// Whether the full path of the executable names it again: the path is
    /// not empty, and the directory and the file name that the standard
    /// library finds in it are the ones of the installation. An installation
    /// of which this holds is selected again by its stored path.
    pub fn exe_path_splits(&self) -> (splits: bool)
        ensures
            splits == path_splits(self.app_path@, self.exe_name@),
    {
        let path = self.exe_path();
        let name = file_name_of(path.as_str());
        match parent_of(path.as_str()) {
            Some(parent) => path.as_str().unicode_len() > 0 && parent == self.app_path && name
                == self.exe_name,
            None => false,
        }
    }

    /// The storefront's product identifier of the installed edition.
    pub fn get_app_id(&self) -> (id: u64)
        ensures
            id == self.edition.app_id_spec(),
    {
        self.edition.app_id()
    }

    /// The name of the launcher that the edition ships.
    pub open spec fn launcher_name(edition: Edition) -> Seq<char> {
        match edition {
            Edition::Standard => "FF8Config.exe"@,
            Edition::Steam => "FF8_Launcher.exe"@,
            Edition::Remastered => "FFVIII_LAUNCHER.exe"@,
        }
    }

    /// The full path of the launcher that the edition ships.
    pub fn get_launcher_path(&self) -> (path: String)
        ensures
            path@ == joined_path(self.app_path@, Self::launcher_name(self.edition)),
    {
        match self.edition {
            Edition::Standard => join_path(self.app_path.as_str(), "FF8Config.exe"),
            Edition::Steam => join_path(self.app_path.as_str(), "FF8_Launcher.exe"),
            Edition::Remastered => join_path(self.app_path.as_str(), "FFVIII_LAUNCHER.exe"),
        }
    }

    /// The path of the companion game: the plain executable where it is
    /// there, else the one of the installed language where that is there,
    /// else the one shared by four languages.
    pub open spec fn cw_path_spec(self, probe: DirectoryProbe) -> Seq<char> {
        if probe.has_file("Chocobo.exe"@) {
            joined_path(self.app_path@, "Chocobo.exe"@)
        } else if probe.has_file(cw_lang_name(self.language@)) {
            joined_path(self.app_path@, cw_lang_name(self.language@))
        } else {
            joined_path(self.app_path@, "Chocobo_FR_IT_DE_ES.exe"@)
        }
    }

    /// The path of the companion game's executable.
    pub fn get_cw_path(&self, probe: &DirectoryProbe) -> (path: String)
        ensures
            path@ == self.cw_path_spec(*probe),
    {
        let mut lang_name = "Chocobo_".to_string();
        lang_name.append(self.language.as_str());
        lang_name.append(".exe");
        if probe.is_present("Chocobo.exe") {
            join_path(self.app_path.as_str(), "Chocobo.exe")
        } else if probe.is_present(lang_name.as_str()) {
            join_path(self.app_path.as_str(), lang_name.as_str())
        } else {
            join_path(self.app_path.as_str(), "Chocobo_FR_IT_DE_ES.exe")
        }
    }

    /// The command that asks the storefront's client to run an executable
    /// as this installation's product.
    pub fn launch_game_via_steam(&self, ff8_path: &str, steam_exe: &str, current_dir: &str) -> (command: Command)
        ensures
            command@ == steam_command(self.edition.app_id_spec(), ff8_path@, steam_exe@, current_dir@),
    {
        let app_id = string_of(&to_decimal(self.get_app_id()));
        let command = Command::new(steam_exe).arg("-applaunch").arg(app_id.as_str()).arg(ff8_path).arg(
            "--debug",
        ).current_dir(current_dir);
        let command = run_helper(command);
        assert(command@.args =~= steam_command(
            self.edition.app_id_spec(),
            ff8_path@,
            steam_exe@,
            current_dir@,
        ).args);
        command
    }

    /// The command that runs an executable directly.
    pub fn launch_game_directly(ff8_path: &str, current_dir: &str) -> (command: Command)
        ensures
            command@ == direct_command(ff8_path@, current_dir@),
    {
        run_helper(Command::new(ff8_path).current_dir(current_dir))
    }

    /// The plan that starts `exe_path` in `current_dir` for this edition.
    pub fn launch_plan(&self, exe_path: &str, steam_exe: &str, current_dir: &str) -> (plan: LaunchPlan)
        ensures
            plan.commands() == launch_attempts(
                self.edition,
                steam_command(self.edition.app_id_spec(), exe_path@, steam_exe@, current_dir@),
                direct_command(exe_path@, current_dir@),
            ),
    {
        let mut attempts: Vec<Command> = Vec::new();
        match self.edition {
            Edition::Standard => {},
            Edition::Steam | Edition::Remastered => {
                attempts.push(self.launch_game_via_steam(exe_path, steam_exe, current_dir));
            },
        }
        attempts.push(Self::launch_game_directly(exe_path, current_dir));
        let plan = LaunchPlan { attempts };
        assert(plan.commands() =~= launch_attempts(
            self.edition,
            steam_command(self.edition.app_id_spec(), exe_path@, steam_exe@, current_dir@),
            direct_command(exe_path@, current_dir@),
        ));
        plan
    }

    /// The plan that starts the companion game: directly for the retail
    /// edition; for the store editions through the storefront's client, and
    /// directly where the client does not start.
    pub fn launch_cw(&self, steam_exe: &str, probe: &DirectoryProbe) -> (plan: LaunchPlan)
        ensures
            plan.commands() == launch_attempts(
                self.edition,
                steam_command(
                    self.edition.app_id_spec(),
                    self.cw_path_spec(*probe),
                    steam_exe@,
                    self.app_path@,
                ),
                direct_command(self.cw_path_spec(*probe), self.app_path@),
            ),
    {
        let cw_path = self.get_cw_path(probe);
        self.launch_plan(cw_path.as_str(), steam_exe, self.app_path.as_str())
    }
}

/// The name of the companion game's executable for a language.
pub open spec fn cw_lang_name(language: Seq<char>) -> Seq<char> {
    "Chocobo_"@ + language + ".exe"@
}

/// The command that runs an executable directly, cut loose from its parent.
pub open spec fn direct_command(exe_path: Seq<char>, current_dir: Seq<char>) -> CommandView {
    CommandView {
        program: exe_path,
        args: Seq::empty(),
        current_dir: Some(current_dir),
        detached: true,
        stdin: Stdio::Null,
        stdout: Stdio::Null,
        stderr: Stdio::Null,
    }
}

/// The command that asks the storefront's client to run an executable as
/// the product `app_id`, cut loose from its parent.
pub open spec fn steam_command(app_id: u64, exe_path: Seq<char>, steam_exe: Seq<char>, current_dir: Seq<
    char,
>) -> CommandView {
    CommandView {
        program: steam_exe,
        args: seq!["-applaunch"@, decimal(app_id as nat), exe_path, "--debug"@],
        current_dir: Some(current_dir),
        detached: true,
        stdin: Stdio::Null,
        stdout: Stdio::Null,
        stderr: Stdio::Null,
    }
}

/// The commands to try for an edition: the retail edition is started
/// directly; a store edition through the storefront's client first, and
/// directly where that fails.
pub open spec fn launch_attempts(edition: Edition, via_steam: CommandView, directly: CommandView) -> Seq<
    CommandView,
> {
    match edition {
        Edition::Standard => seq![directly],
        Edition::Steam | Edition::Remastered => seq![via_steam, directly],
    }
}

/// Every launch is cut loose from the console and the streams of the
/// launcher, and a store edition always has the direct start to fall back on.
pub proof fn lemma_launch_attempts(edition: Edition, app_id: u64, exe_path: Seq<char>, steam_exe: Seq<
    char,
>, current_dir: Seq<char>)
    ensures
        ({
            let attempts = launch_attempts(
                edition,
                steam_command(app_id, exe_path, steam_exe, current_dir),
                direct_command(exe_path, current_dir),
            );
            &&& attempts.len() >= 1
            &&& attempts.last() == direct_command(exe_path, current_dir)
            &&& forall|i: int| 0 <= i < attempts.len() ==> (#[trigger] attempts[i]).is_detached()
            &&& edition != Edition::Standard ==> attempts.len() == 2 && attempts[0].program == steam_exe
        }),
{
}


/// Every pair of the signature table is classified as its line says, and
/// every other pair as unknown.
pub proof fn lemma_classify_follows_table(word1: u32, word2: u32, word3: u32)
    ensures
        forall|i: int|
            0 <= i < signature_table().len() ==> classify_spec(
                #[trigger] signature_table()[i].word1,
                signature_table()[i].word2,
                word3,
            ) == Some(
                (signature_table()[i].rule.resolve(word3), signature_table()[i].publisher),
            ),
        in_signature_table(word1, word2) <==> classify_spec(word1, word2, word3) is Some,
{
    if classify_spec(word1, word2, word3) is Some {
        let i: int = if word1 == 0x3885048D && word2 == 0x159618 {
            0
        } else if word1 == 0x3885048D && word2 == 0x1597C8 {
            1
        } else if word1 == 0x1085048D && word2 == 0x159B48 {
            2
        } else if word1 == 0x1085048D && word2 == 0x159CF8 {
            3
        } else if word1 == 0xA885048D && word2 == 0x159C48 {
            4
        } else if word1 == 0xA885048D && word2 == 0x159DF8 {
            5
        } else if word1 == 0x8085048D && word2 == 0x159C38 {
            6
        } else if word1 == 0x8085048D && word2 == 0x159DE8 {
            7
        } else if word1 == 0xB885048D && word2 == 0x159BC8 {
            8
        } else if word1 == 0xB885048D && word2 == 0x159D78 {
            9
        } else if word1 == 0x2885048D && word2 == 0x159598 {
            10
        } else if word1 == 0x2885048D && word2 == 0x159748 {
            11
        } else {
            12
        };
        assert(signature_matches(i, word1, word2));
    }
    if in_signature_table(word1, word2) {
        let i = choose|i: int| signature_matches(i, word1, word2);
        assert(signature_matches(i, word1, word2));
    }
}

/// An executable that is not there gives `NotFound`, whatever the markers
/// of its directory say.
pub proof fn lemma_missing_exe_is_not_found(exe_path: Seq<char>, app_path: Seq<char>, file_name: Seq<
    char,
>, probe: DirectoryProbe, platform: Platform)
    ensures
        !probe.has_file(path_file_name(exe_path)) ==> from_exe_path_spec(exe_path, probe, platform)
            == Err::<InstallationView, FromExeError>(FromExeError::NotFound),
        !probe.has_file(file_name) ==> from_exe_name_spec(app_path, file_name, probe, platform)
            == Err::<InstallationView, FromExeError>(FromExeError::NotFound),
{
}

/// A launcher that is there gives `LauncherSelected` for any edition but
/// the store edition; for the store edition it gives the installation of
/// the executable of the directory's language, if and only if that
/// executable is there too.
pub proof fn lemma_launcher_is_refused(app_path: Seq<char>, file_name: Seq<char>, probe: DirectoryProbe, platform: Platform)
    requires
        probe.has_file(file_name),
        is_launcher_name(file_name),
    ensures
        detected_edition(probe).0 != Edition::Steam ==> from_exe_name_spec(
            app_path,
            file_name,
            probe,
            platform,
        ) == Err::<InstallationView, FromExeError>(FromExeError::LauncherSelected),
        detected_edition(probe).0 == Edition::Steam ==> (match from_exe_name_spec(
            app_path,
            file_name,
            probe,
            platform,
        ) {
            Ok(installation) => probe.has_file(steam_exe_name(detected_edition(probe).1))
                && installation.exe_name == steam_exe_name(detected_edition(probe).1),
            Err(e) => !probe.has_file(steam_exe_name(detected_edition(probe).1)) && e
                == FromExeError::LauncherSelected,
        }),
{
}


/// A directory in which a copy of the game may lie, with what the file
/// system shows of it.
pub struct Candidate {
    pub app_path: String,
    pub probe: DirectoryProbe,
}

/// The installation of an edition that a candidate holds, if any.
pub open spec fn found_in(candidate: Option<Candidate>, edition: Edition, platform: Platform) -> Option<
    InstallationView,
> {
    match candidate {
        Some(c) => from_directory_spec(c.app_path@, edition, c.probe, platform),
        None => None,
    }
}

/// The list that holds a value, or nothing.
pub open spec fn one_or_none(found: Option<InstallationView>) -> Seq<InstallationView> {
    match found {
        Some(i) => seq![i],
        None => Seq::empty(),
    }
}

/// The installations of a list, each by its view.
pub open spec fn views_of_installations(found: Seq<Installation>) -> Seq<InstallationView> {
    Seq::new(found.len(), |i: int| found[i]@)
}

/// What the version metadata of the files around a launcher shows.
pub struct LauncherEvidence {
    /// The metadata of the launcher that lies in the game's directory.
    pub launcher: Result<VersionInfo, PeError>,
    /// Whether a copy of the game's own launcher has been kept.
    pub backup_exists: bool,
    /// The metadata of the launcher that is to take its place.
    pub resource: Result<VersionInfo, PeError>,
}

/// A text that may be absent, as a text: empty where it is absent.
pub open spec fn text_or_empty(text: Option<String>) -> Seq<char> {
    match text {
        Some(t) => t@,
        None => Seq::empty(),
    }
}

/// The product that a launcher names; empty where its metadata could not be
/// read.
pub open spec fn product_name_of(infos: Result<VersionInfo, PeError>) -> Seq<char> {
    match infos {
        Ok(i) => text_or_empty(i.product_name),
        Err(_) => Seq::empty(),
    }
}

/// The build that a launcher names in its copyright line; empty where its
/// metadata could not be read.
pub open spec fn copyright_of(infos: Result<VersionInfo, PeError>) -> Seq<char> {
    match infos {
        Ok(i) => text_or_empty(i.legal_copyright),
        Err(_) => Seq::empty(),
    }
}

/// The name under which the own launcher of an edition is kept.
pub open spec fn backup_name(edition: Edition) -> Seq<char> {
    match edition {
        Edition::Standard => "FF8Config_Original.exe"@,
        Edition::Steam => "FF8_Launcher_Original.exe"@,
        Edition::Remastered => "FFVIII_LAUNCHER_Original.exe"@,
    }
}

/// The copies that put the program's launcher in the place of the game's.
///
/// The game's launcher is kept where no copy of it has been kept, and again
/// where it is the publisher's own. The program's launcher then takes its
/// place, unless the launcher that lies there is of the same build.
pub open spec fn launcher_copies(app_path: Seq<char>, edition: Edition, resource: Seq<char>, evidence: LauncherEvidence) -> Seq<
    TaskView,
> {
    let launcher = joined_path(app_path, Installation::launcher_name(edition));
    let backup = joined_path(app_path, backup_name(edition));
    let keep = if !evidence.backup_exists || product_name_of(evidence.launcher)
        == "FINAL FANTASY VIII for PC"@ {
        seq![TaskView::CopyFile(launcher, backup)]
    } else {
        Seq::empty()
    };
    let replace = if copyright_of(evidence.launcher) != copyright_of(evidence.resource) {
        seq![TaskView::CopyFile(resource, launcher)]
    } else {
        Seq::empty()
    };
    keep + replace
}

/// A text without its double quotes.
pub open spec fn unquoted(text: Seq<char>) -> Seq<char> {
    text.filter(|c: char| c != '"')
}

/// The helper that replaces the launcher with the rights of an
/// administrator: the program and the parameters it is run with.
pub struct Elevation {
    pub program: String,
    pub parameters: String,
}

/// What follows an attempt to replace the launcher: nothing where it
/// succeeded; the helper that does it with more rights where the system
/// denied it on Windows; the error in every other case.
pub open spec fn after_replace(outcome: Result<(), IoErrorKind>, platform: Platform, mumba_dir: Seq<
    char,
>, app_path: Seq<char>) -> Result<Option<(Seq<char>, Seq<char>)>, IoErrorKind> {
    match outcome {
        Ok(_) => Ok(None),
        Err(e) => if e == IoErrorKind::PermissionDenied && platform is Windows {
            Ok(
                Some(
                    (
                        joined_path(mumba_dir, "mmb.exe"@),
                        "replace_launcher \""@ + unquoted(app_path) + "\""@,
                    ),
                ),
            )
        } else {
            Err(e)
        },
    }
}

/// Copies a text, leaving its double quotes out.
pub fn remove_quotes(text: &str) -> (bare: String)
    ensures
        bare@ == unquoted(text@),
{
    let chars = chars_of(text);
    let mut bare: Vec<char> = Vec::new();
    let mut i: usize = 0;
    assert(chars@.take(0) =~= Seq::<char>::empty());
    proof {
        reveal(Seq::filter);
    }
    while i < chars.len()
        invariant
            i <= chars.len(),
            bare@ == chars@.take(i as int).filter(|c: char| c != '"'),
        decreases chars.len() - i,
    {
        proof {
            reveal(Seq::filter);
            assert(chars@.take(i + 1).drop_last() =~= chars@.take(i as int));
        }
        if chars[i] != '"' {
            bare.push(chars[i]);
        }
        i += 1;
    }
    assert(chars@.take(chars.len() as int) =~= chars@);
    string_of(&bare)
}

/// The text of a string that may be absent.
fn text_of(text: &Option<String>) -> (s: String)
    ensures
        s@ == text_or_empty(*text),
{
    match text {
        Some(t) => t.clone(),
        None => String::new(),
    }
}

impl Installation {
    /// The installation of the retail edition that a registered directory
    /// holds.
    pub fn search_original_version(candidate: Option<&Candidate>, platform: &Platform) -> (found: Option<
        Installation,
    >)
        ensures
            match found {
                Some(i) => Some(i@) == found_in(
                    match candidate {
                        Some(c) => Some(*c),
                        None => None,
                    },
                    Edition::Standard,
                    *platform,
                ),
                None => found_in(
                    match candidate {
                        Some(c) => Some(*c),
                        None => None,
                    },
                    Edition::Standard,
                    *platform,
                ) is None,
            },
    {
        match candidate {
            Some(c) => Self::from_directory(c.app_path.as_str(), Edition::Standard, &c.probe, platform),
            None => None,
        }
    }

    /// The installation of the store edition that a library folder holds.
    pub fn search_steam_edition(candidate: Option<&Candidate>, platform: &Platform) -> (found: Option<
        Installation,
    >)
        ensures
            match found {
                Some(i) => Some(i@) == found_in(
                    match candidate {
                        Some(c) => Some(*c),
                        None => None,
                    },
                    Edition::Steam,
                    *platform,
                ),
                None => found_in(
                    match candidate {
                        Some(c) => Some(*c),
                        None => None,
                    },
                    Edition::Steam,
                    *platform,
                ) is None,
            },
    {
        match candidate {
            Some(c) => Self::from_directory(c.app_path.as_str(), Edition::Steam, &c.probe, platform),
            None => None,
        }
    }

    /// The installation of the remastered edition that a library folder
    /// holds.
    pub fn search_remastered_edition(candidate: Option<&Candidate>, platform: &Platform) -> (found: Option<
        Installation,
    >)
        ensures
            match found {
                Some(i) => Some(i@) == found_in(
                    match candidate {
                        Some(c) => Some(*c),
                        None => None,
                    },
                    Edition::Remastered,
                    *platform,
                ),
                None => found_in(
                    match candidate {
                        Some(c) => Some(*c),
                        None => None,
                    },
                    Edition::Remastered,
                    *platform,
                ) is None,
            },
    {
        match candidate {
            Some(c) => Self::from_directory(c.app_path.as_str(), Edition::Remastered, &c.probe, platform),
            None => None,
        }
    }

    /// The installed copies of the game, of the retail, the store and the
    /// remastered edition in this order, among the directories in which the
    /// system and the storefront's libraries say they lie. A directory whose
    /// executable is not there is left out.
    pub fn search(original: Option<&Candidate>, steam: Option<&Candidate>, remastered: Option<
        &Candidate,
    >, platform: &Platform) -> (installations: Vec<Installation>)
        ensures
            views_of_installations(installations@) == one_or_none(
                found_in(
                    match original {
                        Some(c) => Some(*c),
                        None => None,
                    },
                    Edition::Standard,
                    *platform,
                ),
            ) + one_or_none(
                found_in(
                    match steam {
                        Some(c) => Some(*c),
                        None => None,
                    },
                    Edition::Steam,
                    *platform,
                ),
            ) + one_or_none(
                found_in(
                    match remastered {
                        Some(c) => Some(*c),
                        None => None,
                    },
                    Edition::Remastered,
                    *platform,
                ),
            ),
    {
        let mut installations: Vec<Installation> = Vec::new();
        assert(views_of_installations(installations@) =~= Seq::<InstallationView>::empty());
        let ghost before = views_of_installations(installations@);
        if let Some(installation) = Self::search_original_version(original, platform) {
            installations.push(installation);
            assert(views_of_installations(installations@) =~= before.push(installation@));
        }
        let ghost before = views_of_installations(installations@);
        if let Some(installation) = Self::search_steam_edition(steam, platform) {
            installations.push(installation);
            assert(views_of_installations(installations@) =~= before.push(installation@));
        }
        let ghost before = views_of_installations(installations@);
        if let Some(installation) = Self::search_remastered_edition(remastered, platform) {
            installations.push(installation);
            assert(views_of_installations(installations@) =~= before.push(installation@));
        }
        assert(views_of_installations(installations@) =~= one_or_none(
            found_in(
                match original {
                    Some(c) => Some(*c),
                    None => None,
                },
                Edition::Standard,
                *platform,
            ),
        ) + one_or_none(
            found_in(
                match steam {
                    Some(c) => Some(*c),
                    None => None,
                },
                Edition::Steam,
                *platform,
            ),
        ) + one_or_none(
            found_in(
                match remastered {
                    Some(c) => Some(*c),
                    None => None,
                },
                Edition::Remastered,
                *platform,
            ),
        ));
        installations
    }

    /// Describes the download of an upgrade archive into a directory.
    pub fn install_patch_remote(url: &str, target_dir: &str, env: &Env) -> (download: Download)
        ensures
            download@ == download_spec(url@, "FF8-patch.zip"@, target_dir@, env.cache_dir@),
    {
        download_zip(url, "FF8-patch.zip", target_dir, env)
    }

    /// The full path under which the game's own launcher is kept.
    pub fn get_backup_path(&self) -> (path: String)
        ensures
            path@ == joined_path(self.app_path@, backup_name(self.edition)),
    {
        match self.edition {
            Edition::Standard => join_path(self.app_path.as_str(), "FF8Config_Original.exe"),
            Edition::Steam => join_path(self.app_path.as_str(), "FF8_Launcher_Original.exe"),
            Edition::Remastered => join_path(self.app_path.as_str(), "FFVIII_LAUNCHER_Original.exe"),
        }
    }

    /// The copies that put the program's launcher, which lies at
    /// `resource_launcher_path`, in the place of the game's.
    pub fn replace_launcher_from_app_path(&self, resource_launcher_path: &str, evidence: &LauncherEvidence) -> (copies: Vec<
        Task,
    >)
        ensures
            Seq::new(copies.len() as nat, |i: int| copies[i]@) == launcher_copies(
                self.app_path@,
                self.edition,
                resource_launcher_path@,
                *evidence,
            ),
    {
        let (product_name, legal_copyright) = match &evidence.launcher {
            Ok(infos) => (text_of(&infos.product_name), text_of(&infos.legal_copyright)),
            Err(_) => (String::new(), String::new()),
        };
        let resource_copyright = match &evidence.resource {
            Ok(infos) => text_of(&infos.legal_copyright),
            Err(_) => String::new(),
        };
        let mut copies: Vec<Task> = Vec::new();
        if !evidence.backup_exists || product_name == "FINAL FANTASY VIII for PC".to_string() {
            copies.push(Task::CopyFile(self.get_launcher_path(), self.get_backup_path()));
        }
        if legal_copyright != resource_copyright {
            copies.push(Task::CopyFile(resource_launcher_path.to_string(), self.get_launcher_path()));
        }
        assert(Seq::new(copies.len() as nat, |i: int| copies[i]@) =~= launcher_copies(
            self.app_path@,
            self.edition,
            resource_launcher_path@,
            *evidence,
        ));
        copies
    }

    /// What follows an attempt to replace the launcher.
    pub fn replace_launcher(&self, env: &Env, outcome: Result<(), IoErrorKind>, platform: &Platform) -> (next: Result<
        Option<Elevation>,
        IoErrorKind,
    >)
        ensures
            match next {
                Ok(Some(helper)) => after_replace(outcome, *platform, env.mumba_dir@, self.app_path@)
                    == Ok::<Option<(Seq<char>, Seq<char>)>, IoErrorKind>(
                    Some((helper.program@, helper.parameters@)),
                ),
                Ok(None) => after_replace(outcome, *platform, env.mumba_dir@, self.app_path@) == Ok::<
                    Option<(Seq<char>, Seq<char>)>,
                    IoErrorKind,
                >(None),
                Err(e) => after_replace(outcome, *platform, env.mumba_dir@, self.app_path@) == Err::<
                    Option<(Seq<char>, Seq<char>)>,
                    IoErrorKind,
                >(e),
            },
    {
        match outcome {
            Ok(_) => Ok(None),
            Err(e) => {
                let windows = match platform {
                    Platform::Windows { my_documents, saved_games } => true,
                    Platform::Unix => false,
                };
                if e == IoErrorKind::PermissionDenied && windows {
                    let mut parameters = "replace_launcher \"".to_string();
                    parameters.append(remove_quotes(self.app_path.as_str()).as_str());
                    parameters.append("\"");
                    Ok(
                        Some(
                            Elevation {
                                program: join_path(env.mumba_dir.as_str(), "mmb.exe"),
                                parameters,
                            },
                        ),
                    )
                } else {
                    Err(e)
                }
            },
        }
    }
}

} // verus!
