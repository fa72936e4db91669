//! Where the tool comes from and what it is called on disk.
//!
//! The cache directory itself is the platform's and is found by the
//! program around the library; the file is kept at
//! `<cache dir>/ytdlg/<binary name>`.

use vstd::prelude::*;
use vstd::string::StringExecFns;

verus! {

/// The tool's base name.
pub const TOOL_NAME: &'static str = "youtube-dl";

/// The suffix of an executable on Windows.
pub const WINDOWS_SUFFIX: &'static str = ".exe";

/// The release directory the tool is fetched from.
pub const DOWNLOAD_BASE_URL: &'static str = "https://youtube-dl.org/downloads/2021.12.17/";

/// The directory, under the platform's cache directory, that holds the tool.
pub const CACHE_SUBDIR: &'static str = "ytdlg";

/// The tool's file name on a Windows target or another one.
pub open spec fn binary_name_of(windows: bool) -> Seq<char> {
    if windows {
        TOOL_NAME@ + WINDOWS_SUFFIX@
    } else {
        TOOL_NAME@
    }
}

/// The tool's file name: `youtube-dl`, with `.exe` on Windows.
pub fn binary_name(windows: bool) -> (r: String)
    ensures
        r@ == binary_name_of(windows),
{
    let mut name = String::from_str(TOOL_NAME);
    if windows {
        name.append(WINDOWS_SUFFIX);
    }
    name
}

/// The address the tool is fetched from: the release directory followed by
/// the file name.
pub fn download_url(windows: bool) -> (r: String)
    ensures
        r@ == DOWNLOAD_BASE_URL@ + binary_name_of(windows),
{
    let mut url = String::from_str(DOWNLOAD_BASE_URL);
    let name = binary_name(windows);
    url.append(name.as_str());
    url
}

/// What start-up needs to know of the tool: where to fetch it, its file
/// name in the cache directory, and the trusted hex digest it must have.
#[derive(Debug, Clone)]
pub struct CachedBinaryDescriptor {
    pub remote_url: String,
    pub file_name: String,
    pub expected_digest: String,
}

impl CachedBinaryDescriptor {
    /// The descriptor for a Windows target or another one, with the
    /// trusted digest of that target's build of the tool.
    pub fn new(windows: bool, expected_digest: &str) -> (r: CachedBinaryDescriptor)
        ensures
            r.remote_url@ == DOWNLOAD_BASE_URL@ + binary_name_of(windows),
            r.file_name@ == binary_name_of(windows),
            r.expected_digest@ == expected_digest@,
    {
        CachedBinaryDescriptor {
            remote_url: download_url(windows),
            file_name: binary_name(windows),
            expected_digest: String::from_str(expected_digest),
        }
    }
}

} // verus!
