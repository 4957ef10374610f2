//! Platform resolution: which archive to fetch and how the driver binary is
//! named on each supported host platform, and the URLs of the remote release
//! index and of the archive itself.

use vstd::prelude::*;
use crate::PipelineError;

verus! {

/// The host platform is one of the three recognized classes.
pub open spec fn supported_platform(os: Seq<char>) -> bool {
    os == "linux"@ || os == "windows"@ || os == "macos"@
}

/// The archive name suffix of a supported platform.
pub open spec fn spec_archive_suffix(os: Seq<char>) -> Seq<char> {
    if os == "linux"@ {
        "linux64"@
    } else if os == "windows"@ {
        "win32"@
    } else {
        "mac64"@
    }
}

/// The executable file name suffix of a platform: only the windows class
/// appends an extension.
pub open spec fn spec_exe_suffix(os: Seq<char>) -> Seq<char> {
    if os == "windows"@ {
        ".exe"@
    } else {
        ""@
    }
}

/// Exact string equality of two string slices.
fn str_eq(a: &str, b: &str) -> (r: bool)
    ensures
        r == (a@ == b@),
{
    let sa = a.to_owned();
    let sb = b.to_owned();
    sa == sb
}

/// Map a platform identifier to its archive name suffix; any identifier
/// outside the three recognized classes is unsupported, before any network
/// interaction takes place.
pub fn archive_suffix(os: &str) -> (r: Result<&'static str, PipelineError>)
    ensures
        r is Ok <==> supported_platform(os@),
        r matches Ok(s) ==> s@ == spec_archive_suffix(os@),
        r matches Err(e) ==> e == PipelineError::UnsupportedPlatform,
{
    if str_eq(os, "linux") {
        Ok("linux64")
    } else if str_eq(os, "windows") {
        Ok("win32")
    } else if str_eq(os, "macos") {
        Ok("mac64")
    } else {
        Err(PipelineError::UnsupportedPlatform)
    }
}

/// The executable file name suffix of a platform identifier.
pub fn exe_suffix(os: &str) -> (r: &'static str)
    ensures
        r@ == spec_exe_suffix(os@),
{
    if str_eq(os, "windows") {
        ".exe"
    } else {
        ""
    }
}

/// The remote release index: a plain-text document whose whole body is the
/// latest release identifier.
pub fn version_index_url() -> (r: &'static str)
    ensures
        r@ == "https://chromedriver.storage.googleapis.com/LATEST_RELEASE"@,
{
    "https://chromedriver.storage.googleapis.com/LATEST_RELEASE"
}

/// The archive endpoint for a release identifier and a platform identifier;
/// unsupported platforms are rejected before any network interaction.
pub fn archive_url(version: &str, os: &str) -> (r: Result<String, PipelineError>)
    ensures
        r is Ok <==> supported_platform(os@),
        r matches Ok(u) ==> u@ == "https://chromedriver.storage.googleapis.com/"@ + version@
            + "/chromedriver_"@ + spec_archive_suffix(os@) + ".zip"@,
        r matches Err(e) ==> e == PipelineError::UnsupportedPlatform,
{
    match archive_suffix(os) {
        Ok(suffix) => {
            let url = String::from_str("https://chromedriver.storage.googleapis.com/")
                .concat(version)
                .concat("/chromedriver_")
                .concat(suffix)
                .concat(".zip");
            Ok(url)
        },
        Err(e) => Err(e),
    }
}

/// The file name of the raw driver binary on a platform.
pub fn driver_file_name(exe_suffix: &str) -> (r: String)
    ensures
        r@ == "chromedriver"@ + exe_suffix@,
{
    String::from_str("chromedriver").concat(exe_suffix)
}

/// The file name of the patched sibling of the driver binary: a distinct file,
/// so the raw binary is never mutated in place.
pub fn patched_file_name(exe_suffix: &str) -> (r: String)
    ensures
        r@ == "chromedriver_PATCHED"@ + exe_suffix@,
{
    String::from_str("chromedriver_PATCHED").concat(exe_suffix)
}

} // verus!
