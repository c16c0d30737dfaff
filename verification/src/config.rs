//! The selection that the program keeps between runs: the game's executable,
//! the update channel and the language.

use crate::game::installation::{
    from_exe_path_spec, lemma_own_executable_selects_the_installation, path_splits, DirectoryProbe,
    Installation, InstallationView, Platform,
};
use crate::paths::{joined_path, path_file_name, path_parent};
use crate::toml::{document_text, parsed_entries, document_entries, get_integer, get_string, integer_at, new_document, no_entries, parse_from_text, save_to_text, set_integer, set_text, string_at, EntryView, FileError, ValueError, ValueErrorView};
use vstd::prelude::*;

verus! {

/// The release stream that the enhancement runtime is taken from.
#[derive(Clone, Copy, Debug, PartialEq, Eq, Structural)]
pub enum UpdateChannel {
    Stable,
    Beta,
    Alpha,
}

impl UpdateChannel {
    /// The number that stands for the channel in the settings file.
    pub open spec fn ordinal_spec(self) -> i64 {
        match self {
            UpdateChannel::Stable => 0,
            UpdateChannel::Beta => 1,
            UpdateChannel::Alpha => 2,
        }
    }

    /// The channel that a number of the settings file stands for; any number
    /// that stands for none means the stable channel.
    pub open spec fn from_ordinal_spec(ordinal: i64) -> UpdateChannel {
        if ordinal == 1 {
            UpdateChannel::Beta
        } else if ordinal == 2 {
            UpdateChannel::Alpha
        } else {
            UpdateChannel::Stable
        }
    }

    /// The number that stands for the channel in the settings file.
    pub fn ordinal(&self) -> (ordinal: i64)
        ensures
            ordinal == self.ordinal_spec(),
    {
        match self {
            UpdateChannel::Stable => 0,
            UpdateChannel::Beta => 1,
            UpdateChannel::Alpha => 2,
        }
    }

    /// The channel that a number of the settings file stands for.
    pub fn from_ordinal(ordinal: i64) -> (channel: UpdateChannel)
        ensures
            channel == Self::from_ordinal_spec(ordinal),
    {
        if ordinal == 1 {
            UpdateChannel::Beta
        } else if ordinal == 2 {
            UpdateChannel::Alpha
        } else {
            UpdateChannel::Stable
        }
    }
}

/// The key of the game's executable.
pub open spec fn cfg_exe_path() -> Seq<char> {
    "exe_path"@
}

/// The key of the update channel.
pub open spec fn cfg_update_channel() -> Seq<char> {
    "update_channel"@
}

/// The key of the language.
pub open spec fn cfg_language() -> Seq<char> {
    "language"@
}

/// The installation that the given entries select, given what the directory
/// of the executable shows: none where no executable is named, an error
/// where the one named gives no installation.
pub open spec fn installation_at(entries: Map<Seq<char>, EntryView>, probe: DirectoryProbe, platform: Platform) -> Result<
    Option<InstallationView>,
    ValueErrorView,
> {
    match string_at(entries, cfg_exe_path(), ""@) {
        Err(e) => Err(e),
        Ok(path) => if path.len() == 0 {
            Ok(None)
        } else {
            match from_exe_path_spec(path, probe, platform) {
                Ok(installation) => Ok(Some(installation)),
                Err(_) => Err(ValueErrorView::DoesNotExist(cfg_exe_path())),
            }
        },
    }
}

/// The update channel that the given entries select.
pub open spec fn update_channel_at(entries: Map<Seq<char>, EntryView>) -> Result<
    UpdateChannel,
    ValueErrorView,
> {
    match integer_at(entries, cfg_update_channel(), 0) {
        Ok(ordinal) => Ok(UpdateChannel::from_ordinal_spec(ordinal)),
        Err(e) => Err(e),
    }
}

/// The entries after a selection has been stored in them.
pub open spec fn with_selection(entries: Map<Seq<char>, EntryView>, exe_path: Seq<char>, channel: UpdateChannel, language: Seq<char>) -> Map<
    Seq<char>,
    EntryView,
> {
    entries.insert(cfg_exe_path(), EntryView::Text(exe_path)).insert(
        cfg_update_channel(),
        EntryView::Integer(channel.ordinal_spec()),
    ).insert(cfg_language(), EntryView::Text(language))
}

/// The three keys of a selection differ from one another.
pub proof fn lemma_keys_differ()
    ensures
        cfg_exe_path() != cfg_update_channel(),
        cfg_exe_path() != cfg_language(),
        cfg_update_channel() != cfg_language(),
{
    reveal_strlit("exe_path");
    reveal_strlit("update_channel");
    reveal_strlit("language");
    assert(cfg_exe_path().len() == 8);
    assert(cfg_update_channel().len() == 14);
    assert(cfg_language()[0] == 'l');
    assert(cfg_exe_path()[0] == 'e');
}

/// A stored selection is read back as it was stored: the channel and the
/// language are the ones stored, and the installation is the one that
/// selecting the stored executable path gives (none where that path is
/// empty).
pub proof fn lemma_selection_round_trip(
    entries: Map<Seq<char>, EntryView>,
    exe_path: Seq<char>,
    channel: UpdateChannel,
    language: Seq<char>,
    probe: DirectoryProbe,
    platform: Platform,
)
    ensures
        update_channel_at(with_selection(entries, exe_path, channel, language)) == Ok::<
            UpdateChannel,
            ValueErrorView,
        >(channel),
        string_at(with_selection(entries, exe_path, channel, language), cfg_language(), ""@) == Ok::<
            Seq<char>,
            ValueErrorView,
        >(language),
        installation_at(with_selection(entries, exe_path, channel, language), probe, platform)
            == if exe_path.len() == 0 {
            Ok::<Option<InstallationView>, ValueErrorView>(None)
        } else {
            match from_exe_path_spec(exe_path, probe, platform) {
                Ok(installation) => Ok(Some(installation)),
                Err(_) => Err(ValueErrorView::DoesNotExist(cfg_exe_path())),
            }
        },
{
    lemma_keys_differ();
}

/// An installation that is stored and read back is rebuilt as it was, as
/// long as its directory shows the same. This holds wherever the path that
/// is stored, which joins the directory and the file name of the
/// installation, is not empty and splits into the two again, which
/// `Installation::exe_path_splits` tells.
pub proof fn lemma_stored_installation_is_rebuilt(
    entries: Map<Seq<char>, EntryView>,
    exe_path: Seq<char>,
    channel: UpdateChannel,
    language: Seq<char>,
    probe: DirectoryProbe,
    platform: Platform,
)
    requires
        from_exe_path_spec(exe_path, probe, platform) matches Ok(installation) && path_splits(
            installation.app_path,
            installation.exe_name,
        ),
    ensures
        from_exe_path_spec(exe_path, probe, platform) matches Ok(installation) && installation_at(
            with_selection(
                entries,
                joined_path(installation.app_path, installation.exe_name),
                channel,
                language,
            ),
            probe,
            platform,
        ) == Ok::<Option<InstallationView>, ValueErrorView>(Some(installation)),
{
    let installation = from_exe_path_spec(exe_path, probe, platform)->Ok_0;
    let stored = joined_path(installation.app_path, installation.exe_name);
    let app_path = match path_parent(exe_path) {
        Some(parent) => parent,
        None => Seq::empty(),
    };
    lemma_selection_round_trip(entries, stored, channel, language, probe, platform);
    lemma_own_executable_selects_the_installation(app_path, path_file_name(exe_path), probe, platform);
}

/// The settings that the program keeps between runs.
pub struct Config {
    inner: toml_edit::DocumentMut,
}

impl Config {
    /// The top-level keys of the settings, each with what it holds.
    pub closed spec fn entries(&self) -> Map<Seq<char>, EntryView> {
        document_entries(self.inner)
    }

    /// The settings written out as text, with the spaces and comments that
    /// they were read with.
    pub closed spec fn text(&self) -> Seq<char> {
        document_text(self.inner)
    }

    /// Empty settings.
    pub fn new() -> (config: Config)
        ensures
            config.entries() == no_entries(),
    {
        Config { inner: new_document() }
    }

    /// The settings that the contents of a settings file hold: those that
    /// the parser reads from them, or the parser's error where it reads
    /// none.
    pub fn from_file(contents: &str) -> (config: Result<Config, FileError>)
        ensures
            match config {
                Ok(c) => parsed_entries(contents@) == Some(c.entries()),
                Err(e) => e is TomlError && parsed_entries(contents@) is None,
            },
    {
        match parse_from_text(contents) {
            Ok(inner) => Ok(Config { inner }),
            Err(e) => Err(e),
        }
    }

    /// The contents that a settings file is to hold for these settings:
    /// the settings written out.
    pub fn save(&self) -> (contents: String)
        ensures
            contents@ == self.text(),
    {
        save_to_text(&self.inner)
    }

    /// The path of the selected executable; empty where none is selected.
    pub fn exe_path(&self) -> (path: Result<String, ValueError>)
        ensures
            match path {
                Ok(p) => string_at(self.entries(), cfg_exe_path(), ""@) == Ok::<
                    Seq<char>,
                    ValueErrorView,
                >(p@),
                Err(e) => string_at(self.entries(), cfg_exe_path(), ""@) == Err::<
                    Seq<char>,
                    ValueErrorView,
                >(e@),
            },
    {
        get_string(&self.inner, "exe_path", "")
    }

    /// The selected installation, rebuilt from the selected executable and
    /// from what its directory shows now.
    pub fn installation(&self, probe: &DirectoryProbe, platform: &Platform) -> (selected: Result<
        Option<Installation>,
        ValueError,
    >)
        ensures
            match selected {
                Ok(Some(installation)) => installation_at(self.entries(), *probe, *platform) == Ok::<
                    Option<InstallationView>,
                    ValueErrorView,
                >(Some(installation@)),
                Ok(None) => installation_at(self.entries(), *probe, *platform) == Ok::<
                    Option<InstallationView>,
                    ValueErrorView,
                >(None),
                Err(e) => installation_at(self.entries(), *probe, *platform) == Err::<
                    Option<InstallationView>,
                    ValueErrorView,
                >(e@),
            },
    {
        let exe_path = match self.exe_path() {
            Ok(p) => p,
            Err(e) => { return Err(e); },
        };
        if exe_path.as_str().unicode_len() == 0 {
            return Ok(None);
        }
        match Installation::from_exe_path(exe_path.as_str(), probe, platform) {
            Ok(installation) => Ok(Some(installation)),
            Err(_) => Err(ValueError::DoesNotExist("exe_path".to_string())),
        }
    }

    /// Selects the executable of an installation.
    pub fn set_installation(&mut self, installation: &Installation)
        ensures
            final(self).entries() == old(self).entries().insert(
                cfg_exe_path(),
                EntryView::Text(joined_path(installation.app_path@, installation.exe_name@)),
            ),
    {
        set_text(&mut self.inner, "exe_path", installation.exe_path());
    }

    /// The selected update channel.
    pub fn update_channel(&self) -> (channel: Result<UpdateChannel, ValueError>)
        ensures
            match channel {
                Ok(c) => update_channel_at(self.entries()) == Ok::<UpdateChannel, ValueErrorView>(c),
                Err(e) => update_channel_at(self.entries()) == Err::<UpdateChannel, ValueErrorView>(
                    e@,
                ),
            },
    {
        match get_integer(&self.inner, "update_channel", 0) {
            Ok(ordinal) => Ok(UpdateChannel::from_ordinal(ordinal)),
            Err(e) => Err(e),
        }
    }

    /// Selects an update channel.
    pub fn set_update_channel(&mut self, update_channel: UpdateChannel)
        ensures
            final(self).entries() == old(self).entries().insert(
                cfg_update_channel(),
                EntryView::Integer(update_channel.ordinal_spec()),
            ),
    {
        set_integer(&mut self.inner, "update_channel", update_channel.ordinal());
    }

    /// The selected language; empty where none is selected.
    pub fn language(&self) -> (language: Result<String, ValueError>)
        ensures
            match language {
                Ok(l) => string_at(self.entries(), cfg_language(), ""@) == Ok::<
                    Seq<char>,
                    ValueErrorView,
                >(l@),
                Err(e) => string_at(self.entries(), cfg_language(), ""@) == Err::<
                    Seq<char>,
                    ValueErrorView,
                >(e@),
            },
    {
        get_string(&self.inner, "language", "")
    }

    /// Selects a language.
    pub fn set_language(&mut self, lang: &String)
        ensures
            final(self).entries() == old(self).entries().insert(
                cfg_language(),
                EntryView::Text(lang@),
            ),
    {
        set_text(&mut self.inner, "language", lang.clone());
    }
}

impl Default for Config {
    fn default() -> (config: Config)
        ensures
            config.entries() == no_entries(),
    {
        Config::new()
    }
}

} // verus!
