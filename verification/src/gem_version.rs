//! The version a registry reports for a package. The registry is asked at a
//! fixed URL built from the source and the package name; the answer's
//! decoding is the caller's business and arrives here as a plain version
//! string.

use vstd::prelude::*;
use vstd::string::*;

verus! {

/// The version a registry lookup reported for one package.
#[derive(Debug)]
pub struct GemVersion {
    pub version: String,
}

impl View for GemVersion {
    type V = Seq<char>;

    open spec fn view(&self) -> Seq<char> {
        self.version@
    }
}

/// The URL a package's version is looked up at:
/// `source/api/v1/gems/name.json`.
pub open spec fn spec_version_url(source: Seq<char>, gem_name: Seq<char>) -> Seq<char> {
    source + "/api/v1/gems/"@ + gem_name + ".json"@
}

impl GemVersion {
    /// The URL this package's version is looked up at.
    pub fn version_url(source: &str, gem_name: &str) -> (r: String)
        ensures
            r@ == spec_version_url(source@, gem_name@),
    {
        let mut r = source.to_owned();
        r.append("/api/v1/gems/");
        r.append(gem_name);
        r.append(".json");
        proof {
            assert(((source@ + "/api/v1/gems/"@) + gem_name@) + ".json"@ =~= spec_version_url(
                source@,
                gem_name@,
            ));
        }
        r
    }
}

} // verus!
