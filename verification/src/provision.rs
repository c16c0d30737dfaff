//! What has to be fetched and laid down, described before it is done.

use crate::game::env::Env;
use crate::paths::{join_path, joined_path};
use crate::pe_format::IoErrorKind;
use vstd::prelude::*;

verus! {

/// Why something could not be fetched or laid down.
#[derive(Clone, Copy, Debug, PartialEq, Eq, Structural)]
pub enum ProvisionError {
    /// The transfer failed.
    HttpError,
    /// A file could not be read or written.
    IoError(IoErrorKind),
    /// The archive could not be unpacked.
    ZipError,
}

/// The largest archive, in bytes, that a download accepts.
pub const DOWNLOAD_LIMIT: u64 = 250_000_000;

/// An archive to fetch and unpack: where it comes from, where it is kept
/// while it is unpacked, where its contents go, and how many bytes of it are
/// read at most.
pub struct Download {
    pub url: String,
    pub archive_path: String,
    pub target_dir: String,
    pub limit: u64,
}

/// A download with its texts as sequences of characters.
pub struct DownloadView {
    pub url: Seq<char>,
    pub archive_path: Seq<char>,
    pub target_dir: Seq<char>,
    pub limit: u64,
}

impl View for Download {
    type V = DownloadView;

    open spec fn view(&self) -> DownloadView {
        DownloadView {
            url: self.url@,
            archive_path: self.archive_path@,
            target_dir: self.target_dir@,
            limit: self.limit,
        }
    }
}

/// The download of the archive at `url` into `target_dir`, kept under
/// `local_zip_name` in the cache directory while it is unpacked.
pub open spec fn download_spec(url: Seq<char>, local_zip_name: Seq<char>, target_dir: Seq<char>, cache_dir: Seq<
    char,
>) -> DownloadView {
    DownloadView {
        url,
        archive_path: joined_path(cache_dir, local_zip_name),
        target_dir,
        limit: DOWNLOAD_LIMIT,
    }
}

/// Describes the download of an archive into a directory.
pub fn download_zip(url: &str, local_zip_name: &str, target_dir: &str, env: &Env) -> (download: Download)
    ensures
        download@ == download_spec(url@, local_zip_name@, target_dir@, env.cache_dir@),
{
    Download {
        url: url.to_string(),
        archive_path: join_path(env.cache_dir.as_str(), local_zip_name),
        target_dir: target_dir.to_string(),
        limit: DOWNLOAD_LIMIT,
    }
}

} // verus!
