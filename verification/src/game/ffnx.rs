//! The enhancement runtime as the first setup tool knew it: one archive per
//! tagged release.

use crate::game::env::Env;
use crate::game::ffnx_installation::{format_version, version_text};
use crate::game::installation::Edition;
use crate::pe_format::{PeError, VersionInfo};
use crate::provision::{download_spec, download_zip, Download};
use vstd::prelude::*;

verus! {

/// The enhancement runtime.
pub struct Ffnx {}

/// The release that is taken where the release index cannot be asked.
pub open spec fn default_tag() -> Seq<char> {
    "1.19.1"@
}

/// The address of the archive of a tagged release for an edition.
pub open spec fn release_url(tag: Seq<char>, edition: Edition) -> Seq<char> {
    "https://github.com/julianxhokaxhiu/FFNx/releases/download"@ + "/"@ + tag + "/FFNx-"@ + (if edition
        == Edition::Steam {
        "Steam"@
    } else {
        "FF8_2000"@
    }) + "-v"@ + tag + ".0.zip"@
}

impl Ffnx {
    /// Describes the download of the runtime's archive into a directory.
    pub fn from_url(url: &str, target_dir: &str, env: &Env) -> (download: Download)
        ensures
            download@ == download_spec(url@, "FFNx.zip"@, target_dir@, env.cache_dir@),
    {
        download_zip(url, "FFNx.zip", target_dir, env)
    }

    /// The name of the file whose version metadata shows that the runtime is
    /// installed.
    pub fn marker(steam: bool) -> (name: &'static str)
        ensures
            name@ == if steam {
                "AF3DN.P"@
            } else {
                "eax.dll"@
            },
    {
        if steam {
            "AF3DN.P"
        } else {
            "eax.dll"
        }
    }

    /// The version of the runtime that is installed, given what reading the
    /// version metadata of its marker file gave; none where the metadata
    /// could not be read.
    pub fn is_installed(probe: &Result<VersionInfo, PeError>) -> (version: Option<String>)
        ensures
            match version {
                Some(v) => probe matches Ok(infos) && v@ == version_text(infos.product_version),
                None => probe is Err,
            },
    {
        match probe {
            Ok(infos) => Some(format_version(&infos.product_version)),
            Err(_) => None,
        }
    }

    /// The address of the archive of the last tagged release for an
    /// edition, `last_tag` being what the release index names as such, where
    /// it could be asked.
    pub fn find_last_stable_version_on_github(last_tag: Option<&str>, edition: &Edition) -> (url: String)
        ensures
            url@ == release_url(
                match last_tag {
                    Some(tag) => tag@,
                    None => default_tag(),
                },
                *edition,
            ),
    {
        let tag = match last_tag {
            Some(tag) => tag,
            None => "1.19.1",
        };
        let mut url = "https://github.com/julianxhokaxhiu/FFNx/releases/download".to_string();
        url.append("/");
        url.append(tag);
        url.append("/FFNx-");
        url.append(if *edition == Edition::Steam {
            "Steam"
        } else {
            "FF8_2000"
        });
        url.append("-v");
        url.append(tag);
        url.append(".0.zip");
        url
    }
}

} // verus!
