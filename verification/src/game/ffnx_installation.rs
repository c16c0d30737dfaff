//! The enhancement runtime: whether it is installed, which release to take,
//! and how the game is started through it.

use crate::config::UpdateChannel;
use crate::game::env::Env;
use crate::game::installation::{direct_command, launch_attempts, steam_command, Edition, Installation, InstallationView};
use crate::github::{optional_view, GitHubRelease, GitHubReleaseAsset, GitHubReleaseAssetView, GitHubReleaseView, LatestRelease};
use crate::os::LaunchPlan;
use crate::paths::{join_path, joined_path};
use crate::pe_format::{PeError, ProductVersion, VersionInfo};
use crate::provision::{download_spec, download_zip, Download};
use crate::text::{ascii_lower, chars_of, contains, contains_text, decimal, lower_char, string_of, to_decimal};
use vstd::prelude::*;

verus! {

/// An installed enhancement runtime.
pub struct FfnxInstallation {
    pub version: String,
    pub path: String,
    pub exe_name: String,
}

/// An installed runtime with its texts as sequences of characters.
pub struct FfnxInstallationView {
    pub version: Seq<char>,
    pub path: Seq<char>,
    pub exe_name: Seq<char>,
}

impl View for FfnxInstallation {
    type V = FfnxInstallationView;

    open spec fn view(&self) -> FfnxInstallationView {
        FfnxInstallationView { version: self.version@, path: self.path@, exe_name: self.exe_name@ }
    }
}

/// The file whose version metadata shows that the runtime is installed.
pub open spec fn marker_name(edition: Edition) -> Seq<char> {
    if edition == Edition::Steam {
        "AF3DN.P"@
    } else {
        "eax.dll"@
    }
}

/// The name under which the game's executable runs inside the runtime's
/// directory. The retail executable gets a name of its own, so that the
/// system does not apply the compatibility fixes it keeps for that name.
pub open spec fn wrapped_exe_name(installation: InstallationView) -> Seq<char> {
    if installation.edition == Edition::Standard {
        "FF8_Mumba.exe"@
    } else {
        installation.exe_name
    }
}

/// A product version as text: major, minor and patch, separated by dots.
pub open spec fn version_text(version: ProductVersion) -> Seq<char> {
    decimal(version.major as nat) + "."@ + decimal(version.minor as nat) + "."@ + decimal(
        version.patch as nat,
    )
}

/// The keyword that the file name of an edition's asset holds.
pub open spec fn asset_keyword(edition: Edition) -> Seq<char> {
    if edition == Edition::Steam {
        "steam"@
    } else {
        "ff8_2000"@
    }
}

/// A character of a normalized file name: lower case, with an underscore in
/// place of a hyphen or a space.
pub open spec fn normalized_char(c: char) -> char {
    if c == '-' || c == ' ' {
        '_'
    } else {
        ascii_lower(c)
    }
}

/// A file name in lower case, with underscores in place of hyphens and
/// spaces.
pub open spec fn normalized(name: Seq<char>) -> Seq<char> {
    Seq::new(name.len(), |i: int| normalized_char(name[i]))
}

/// Whether an asset is meant for an edition.
pub open spec fn asset_matches(asset: GitHubReleaseAssetView, edition: Edition) -> bool {
    contains(normalized(asset.name), asset_keyword(edition))
}

/// The first asset, from place `from` on, that is meant for an edition.
pub open spec fn first_asset(assets: Seq<GitHubReleaseAssetView>, edition: Edition, from: int) -> Option<
    GitHubReleaseAssetView,
>
    decreases assets.len() - from,
{
    if from < 0 || from >= assets.len() {
        None
    } else if asset_matches(assets[from], edition) {
        Some(assets[from])
    } else {
        first_asset(assets, edition, from + 1)
    }
}

/// The release that an update channel draws from.
pub open spec fn channel_release(channel: UpdateChannel, last_release: Option<LatestRelease>) -> Option<
    GitHubReleaseView,
> {
    match last_release {
        None => None,
        Some(last) => match channel {
            UpdateChannel::Stable => optional_view(last.latest),
            UpdateChannel::Beta => optional_view(last.latest_not_recent),
            UpdateChannel::Alpha => optional_view(last.prerelease),
        },
    }
}

/// The archive that is taken where the release index names none.
pub open spec fn default_url(edition: Edition) -> Seq<char> {
    if edition == Edition::Steam {
        "https://github.com/julianxhokaxhiu/FFNx/releases/download/canary/FFNx-Steam-v1.19.1.114.zip"@
    } else {
        "https://github.com/julianxhokaxhiu/FFNx/releases/download/canary/FFNx-FF8_2000-v1.19.1.114.zip"@
    }
}

/// The address of the archive to install for an edition and a channel.
pub open spec fn version_url(edition: Edition, channel: UpdateChannel, last_release: Option<
    LatestRelease,
>) -> Seq<char> {
    match channel_release(channel, last_release) {
        Some(release) => match first_asset(release.assets, edition, 0) {
            Some(asset) => asset.browser_download_url,
            None => default_url(edition),
        },
        None => default_url(edition),
    }
}

/// The runtime that a directory holds for an installation, given what
/// reading the version metadata of its marker file gave: none where the
/// metadata could not be read.
pub open spec fn ffnx_from_directory(target_dir: Seq<char>, installation: InstallationView, probe: Result<
    VersionInfo,
    PeError,
>) -> Option<FfnxInstallationView> {
    match probe {
        Ok(infos) => Some(
            FfnxInstallationView {
                version: version_text(infos.product_version),
                path: target_dir,
                exe_name: wrapped_exe_name(installation),
            },
        ),
        Err(_) => None,
    }
}

/// Writes a product version as text.
pub fn format_version(version: &ProductVersion) -> (text: String)
    ensures
        text@ == version_text(*version),
{
    let mut text = string_of(&to_decimal(version.major as u64));
    text.append(".");
    text.append(string_of(&to_decimal(version.minor as u64)).as_str());
    text.append(".");
    text.append(string_of(&to_decimal(version.patch as u64)).as_str());
    text
}

/// Normalizes a file name.
pub fn normalize(name: &Vec<char>) -> (folded: Vec<char>)
    ensures
        folded@ == normalized(name@),
{
    let mut folded: Vec<char> = Vec::new();
    let mut i: usize = 0;
    while i < name.len()
        invariant
            i <= name.len(),
            folded.len() == i,
            forall|k: int| 0 <= k < i ==> folded[k] == normalized_char(name[k]),
        decreases name.len() - i,
    {
        let c = name[i];
        if c == '-' || c == ' ' {
            folded.push('_');
        } else {
            folded.push(lower_char(c));
        }
        i += 1;
    }
    folded
}

impl FfnxInstallation {
    /// The name of the file whose version metadata shows that the runtime is
    /// installed for an edition.
    pub fn marker(edition: Edition) -> (name: String)
        ensures
            name@ == marker_name(edition),
    {
        if edition == Edition::Steam {
            "AF3DN.P".to_string()
        } else {
            "eax.dll".to_string()
        }
    }

    /// Describes the download of the runtime's archive into a directory.
    pub fn download(url: &str, target_dir: &str, env: &Env) -> (download: Download)
        ensures
            download@ == download_spec(url@, "FFNx.zip"@, target_dir@, env.cache_dir@),
    {
        download_zip(url, "FFNx.zip", target_dir, env)
    }

    /// The runtime that `target_dir` holds for an installation.
    ///
    /// `probe` is what reading the version metadata of the marker file in
    /// that directory gave. A file that is missing, or that is no executable
    /// with a version, means that no runtime is installed.
    pub fn from_directory(target_dir: &str, installation: &Installation, probe: Result<
        VersionInfo,
        PeError,
    >) -> (found: Option<FfnxInstallation>)
        ensures
            match found {
                Some(ffnx) => ffnx_from_directory(target_dir@, installation@, probe) == Some(ffnx@),
                None => ffnx_from_directory(target_dir@, installation@, probe) is None,
            },
    {
        match probe {
            Ok(infos) => Some(
                FfnxInstallation {
                    version: format_version(&infos.product_version),
                    path: target_dir.to_string(),
                    exe_name: if installation.edition == Edition::Standard {
                        "FF8_Mumba.exe".to_string()
                    } else {
                        installation.exe_name.clone()
                    },
                },
            ),
            Err(_) => None,
        }
    }

    /// The first asset of a release that is meant for an edition.
    pub fn find_asset_from_github_release(release: &GitHubRelease, edition: &Edition) -> (found: Option<
        GitHubReleaseAsset,
    >)
        ensures
            match found {
                Some(asset) => first_asset(release@.assets, *edition, 0) == Some(asset@),
                None => first_asset(release@.assets, *edition, 0) is None,
            },
    {
        let keyword = if *edition == Edition::Steam {
            chars_of("steam")
        } else {
            chars_of("ff8_2000")
        };
        let mut i: usize = 0;
        while i < release.assets.len()
            invariant
                i <= release.assets.len(),
                keyword@ == asset_keyword(*edition),
                first_asset(release@.assets, *edition, 0) == first_asset(
                    release@.assets,
                    *edition,
                    i as int,
                ),
            decreases release.assets.len() - i,
        {
            let asset = &release.assets[i];
            assert(release@.assets[i as int] == asset@);
            let name = normalize(&chars_of(asset.name.as_str()));
            if contains_text(&name, &keyword) {
                return Some(asset.duplicate());
            }
            i += 1;
        }
        None
    }

    /// The address of the archive to install for an edition and a channel,
    /// given the releases that the upstream index lists, where it could be
    /// asked.
    pub fn find_version_on_github(edition: &Edition, update_channel: UpdateChannel, last_release: Option<
        LatestRelease,
    >) -> (url: String)
        ensures
            url@ == version_url(*edition, update_channel, last_release),
    {
        let release = match last_release {
            None => None,
            Some(last) => match update_channel {
                UpdateChannel::Stable => last.latest,
                UpdateChannel::Beta => last.latest_not_recent,
                UpdateChannel::Alpha => last.prerelease,
            },
        };
        let asset = match release {
            Some(release) => Self::find_asset_from_github_release(&release, edition),
            None => None,
        };
        match asset {
            Some(asset) => asset.browser_download_url,
            None => if *edition == Edition::Steam {
                "https://github.com/julianxhokaxhiu/FFNx/releases/download/canary/FFNx-Steam-v1.19.1.114.zip".to_string()
            } else {
                "https://github.com/julianxhokaxhiu/FFNx/releases/download/canary/FFNx-FF8_2000-v1.19.1.114.zip".to_string()
            },
        }
    }

    /// The full path of the game's executable inside the runtime's
    /// directory.
    pub fn exe_path(&self) -> (path: String)
        ensures
            path@ == joined_path(self.path@, self.exe_name@),
    {
        join_path(self.path.as_str(), self.exe_name.as_str())
    }

    /// The full path of the runtime's settings file.
    pub fn config_path(&self) -> (path: String)
        ensures
            path@ == joined_path(self.path@, "FFNx.toml"@),
    {
        join_path(self.path.as_str(), "FFNx.toml")
    }

    /// The plan that starts the game through the runtime, in the runtime's
    /// directory: directly for the retail edition; for the store editions
    /// through the storefront's client, and directly where the client does
    /// not start.
    pub fn launch_game(&self, game_installation: &Installation, steam_exe: &str) -> (plan: LaunchPlan)
        ensures
            plan.commands() == launch_attempts(
                game_installation.edition,
                steam_command(
                    game_installation.edition.app_id_spec(),
                    joined_path(self.path@, self.exe_name@),
                    steam_exe@,
                    self.path@,
                ),
                direct_command(joined_path(self.path@, self.exe_name@), self.path@),
            ),
    {
        let exe_path = self.exe_path();
        game_installation.launch_plan(exe_path.as_str(), steam_exe, self.path.as_str())
    }
}

} // verus!
