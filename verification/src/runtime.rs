//! The runtime-image cache: recognising cached runtime binaries by name,
//! naming the file a version is stored under, and the address it is fetched
//! from when the cache has no copy.

use vstd::prelude::*;

use crate::version::{RtBin, RtVersion, bin_name_spec, parse_bin_spec, version_str_spec};

verus! {

/// The versions stored by the cache entries in `names`, in order: one per
/// name of the `venice-vMAJOR.MINOR.PATCH.bin` shape the cache writes —
/// that is, per name that parses as a runtime file name — the rest
/// skipped.
pub open spec fn installed_versions_spec(names: Seq<Seq<char>>) -> Seq<RtVersion>
    decreases names.len(),
{
    if names.len() == 0 {
        Seq::empty()
    } else {
        let init = installed_versions_spec(names.drop_last());
        match parse_bin_spec(names.last()) {
            Ok(bin) => init.push(bin.version),
            Err(_) => init,
        }
    }
}

/// Collects the versions stored by the given cache directory entries,
/// keeping the entries' order and skipping names that name no runtime
/// binary.
#[verifier::loop_isolation(false)]
pub fn installed_versions(names: &Vec<String>) -> (r: Vec<RtVersion>)
    ensures
        r@ == installed_versions_spec(names.deep_view()),
{
    let mut out: Vec<RtVersion> = Vec::new();
    let mut i: usize = 0;
    while i < names.len()
        invariant
            0 <= i <= names@.len(),
            out@ == installed_versions_spec(names.deep_view().take(i as int)),
        decreases names@.len() - i,
    {
        proof {
            assert(names.deep_view().take(i + 1).drop_last() =~= names.deep_view().take(
                i as int,
            ));
            assert(names.deep_view().take(i + 1).last() == names@[i as int]@);
        }
        match RtBin::parse(names[i].as_str()) {
            Ok(bin) => out.push(bin.version),
            Err(_) => (),
        }
        i = i + 1;
    }
    proof {
        assert(names.deep_view().take(names@.len() as int) =~= names.deep_view());
    }
    out
}

/// The address a runtime binary is fetched from when the cache lacks it.
pub open spec fn download_url_spec(v: RtVersion) -> Seq<char> {
    "https://github.com/venice-v5/venice/releases/download/"@ + version_str_spec(v) + "/"@
        + bin_name_spec(v)
}

impl RtBin {
    /// Builds this runtime binary from the three components of a manifest
    /// version, each truncated to 32 bits.
    pub fn from_semver(major: u64, minor: u64, patch: u64) -> (r: RtBin)
        ensures
            r.version.major == major % 0x1_0000_0000,
            r.version.minor == minor % 0x1_0000_0000,
            r.version.patch == patch % 0x1_0000_0000,
    {
        RtBin {
            version: RtVersion {
                major: (major % 0x1_0000_0000) as u32,
                minor: (minor % 0x1_0000_0000) as u32,
                patch: (patch % 0x1_0000_0000) as u32,
            },
        }
    }

    /// Renders the address this runtime binary is fetched from.
    pub fn download_url(&self) -> (r: String)
        ensures
            r@ == download_url_spec(self.version),
    {
        let mut out = String::new();
        out.append("https://github.com/venice-v5/venice/releases/download/");
        let v = self.version.render();
        out.append(v.as_str());
        out.append("/");
        let name = self.file_name();
        out.append(name.as_str());
        proof {
            assert(out@ =~= download_url_spec(self.version));
        }
        out
    }
}

} // verus!
