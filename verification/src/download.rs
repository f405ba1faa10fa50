//! Where a package's outer archive lives: the download URL and the local
//! file name are built from fixed templates over the source, the package
//! name and its version. The transfer itself is the caller's business; the
//! decision on its HTTP status is taken here.

use vstd::prelude::*;
use vstd::string::*;

use crate::parser::{Gem, GemModel};

verus! {

/// A fetch that produced no archive: the server answered with a non-success
/// status, or the transfer itself failed.
#[derive(Clone, Copy, Debug, PartialEq, Eq, Structural)]
pub enum FetchError {
    /// The server answered, but not with status 200.
    Status { code: u16 },
    /// The transfer failed before any status was read.
    Transport,
}

/// The stem naming one installed package: `name-version`.
pub open spec fn spec_gem_stem(g: GemModel) -> Seq<char> {
    g.name + seq!['-'] + g.version
}

/// The file name of a package's outer archive: `name-version.gem`.
pub open spec fn spec_gem_file_name(g: GemModel) -> Seq<char> {
    spec_gem_stem(g) + ".gem"@
}

/// The URL an outer archive is fetched from:
/// `source/downloads/name-version.gem`.
pub open spec fn spec_download_url(source: Seq<char>, g: GemModel) -> Seq<char> {
    source + "/downloads/"@ + spec_gem_file_name(g)
}

/// The stem naming this package's cache and install directories.
pub fn gem_stem(gem: &Gem) -> (r: String)
    ensures
        r@ == spec_gem_stem(gem@),
{
    let mut r = gem.name.clone();
    r.push('-');
    r.append(gem.version.as_str());
    proof {
        assert(gem@.name.push('-') + gem@.version =~= spec_gem_stem(gem@));
    }
    r
}

/// The local file name this package's outer archive is stored under.
pub fn gem_file_name(gem: &Gem) -> (r: String)
    ensures
        r@ == spec_gem_file_name(gem@),
{
    let mut r = gem_stem(gem);
    r.append(".gem");
    r
}

/// The URL this package's outer archive is fetched from.
pub fn download_url(source: &str, gem: &Gem) -> (r: String)
    ensures
        r@ == spec_download_url(source@, gem@),
{
    let mut r = source.to_owned();
    r.append("/downloads/");
    let fname = gem_file_name(gem);
    r.append(fname.as_str());
    proof {
        assert((source@ + "/downloads/"@) + fname@ =~= spec_download_url(source@, gem@));
    }
    r
}

/// The decision on a fetch's HTTP answer: only status 200 yields the
/// archive; every other status is a fetch error carrying that status.
pub fn check_fetch_status(code: u16) -> (r: Result<(), FetchError>)
    ensures
        r is Ok <==> code == 200,
        r matches Err(e) ==> e == (FetchError::Status { code }),
{
    if code == 200 {
        Ok(())
    } else {
        Err(FetchError::Status { code })
    }
}

} // verus!
