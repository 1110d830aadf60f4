//! The upload orchestrator's decisions: validating the manifest's slot
//! before anything else starts, resolving the runtime binary from the
//! manifest's version string, and fixing the names and contents of the
//! files the device session transfers.

use vstd::prelude::*;

use crate::device::{PostUploadAction, resolve_action_spec, resolve_after_upload};
use crate::errors::CliError;
use crate::manifest::{Manifest, icon_code_spec, slot_in_range, validate_slot};
use crate::version::{RtBin, bin_name_spec, dec_spec, push_dec_u32};

verus! {

/// The configuration file's `slot_N.ini` name.
pub open spec fn ini_name_spec(slot: u8) -> Seq<char> {
    "slot_"@ + dec_spec(slot as int) + ".ini"@
}

/// The program table's `slot_N.bin` name; the on-device loader wants the
/// binary extension even though the table is no program binary.
pub open spec fn table_name_spec(slot: u8) -> Seq<char> {
    "slot_"@ + dec_spec(slot as int) + ".bin"@
}

/// Renders the configuration file's name for `slot`.
pub fn ini_file_name(slot: u8) -> (r: String)
    ensures
        r@ == ini_name_spec(slot),
{
    let mut out = String::new();
    out.append("slot_");
    push_dec_u32(&mut out, slot as u32);
    out.append(".ini");
    proof {
        assert(out@ =~= ini_name_spec(slot));
    }
    out
}

/// Renders the program table's name for `slot`.
pub fn table_file_name(slot: u8) -> (r: String)
    ensures
        r@ == table_name_spec(slot),
{
    let mut out = String::new();
    out.append("slot_");
    push_dec_u32(&mut out, slot as u32);
    out.append(".bin");
    proof {
        assert(out@ =~= table_name_spec(slot));
    }
    out
}

/// The decimal rendering of `n`, left-padded with zeroes to at least
/// three digits, as the icon file name wants it.
pub open spec fn pad3_spec(n: int) -> Seq<char> {
    (if n < 10 {
        "00"@
    } else if n < 100 {
        "0"@
    } else {
        Seq::empty()
    }) + dec_spec(n)
}

/// Appends `n` to `out`, zero-padded to at least three digits.
pub fn push_pad3(out: &mut String, n: u16)
    ensures
        final(out)@ == old(out)@ + pad3_spec(n as int),
{
    if n < 10 {
        out.append("00");
    } else if n < 100 {
        out.append("0");
    }
    push_dec_u32(out, n as u32);
    proof {
        assert(out@ =~= old(out)@ + pad3_spec(n as int));
    }
}

/// The contents of the configuration file, line by line: the project
/// section naming the IDE, then the program section with its name, its
/// zero-based slot, its icon file, an empty alternate icon, and its
/// description, each line ended by a carriage return and newline.
pub open spec fn ini_config_spec(
    name: Seq<char>,
    slot: u8,
    icon: u16,
    description: Seq<char>,
) -> Seq<char> {
    "[project]\r\nide=Venice\r\n[program]\r\nname="@ + name + "\r\nslot="@ + dec_spec(
        slot as int,
    ) + "\r\nicon=USER"@ + pad3_spec(icon as int) + "x.bmp\r\niconalt=\r\ndescription="@
        + description + "\r\n"@
}

/// Renders the configuration file uploaded beside the program. `slot` is
/// the zero-based slot; `icon` the icon's numeric code.
pub fn ini_config(name: &str, slot: u8, icon: u16, description: &str) -> (r: String)
    ensures
        r@ == ini_config_spec(name@, slot, icon, description@),
{
    let mut out = String::new();
    out.append("[project]\r\nide=Venice\r\n[program]\r\nname=");
    out.append(name);
    out.append("\r\nslot=");
    push_dec_u32(&mut out, slot as u32);
    out.append("\r\nicon=USER");
    push_pad3(&mut out, icon);
    out.append("x.bmp\r\niconalt=\r\ndescription=");
    out.append(description);
    out.append("\r\n");
    proof {
        assert(out@ =~= ini_config_spec(name@, slot, icon, description@));
    }
    out
}

/// The description written to the configuration file: the manifest's, or
/// the stock one where the manifest has none.
pub open spec fn desc_or_default(description: Option<String>) -> Seq<char> {
    match description {
        Some(d) => d@,
        None => "Made in Heaven!"@,
    }
}

/// What a SemVer version string's numeric components are: major, minor
/// and patch, or nothing where the string is no SemVer version. The
/// result depends on the string alone.
pub uninterp spec fn semver_triple(s: Seq<char>) -> Option<(u64, u64, u64)>;

/// Relies on semver::Version::parse: hands back the parsed version's
/// major, minor and patch, or, where parsing fails, the parser's
/// diagnostic text, of which nothing is stated.
#[verifier::external_body]
fn parse_semver(s: &str) -> (r: Result<(u64, u64, u64), String>)
    ensures
        r is Ok <==> semver_triple(s@) is Some,
        r is Ok ==> r->Ok_0 == semver_triple(s@)->Some_0,
{
    match semver::Version::parse(s) {
        Ok(v) => Ok((v.major, v.minor, v.patch)),
        Err(e) => Err(e.to_string()),
    }
}

/// Everything the device session needs, fixed before any transfer: the
/// validated slot, the configuration file's name and contents, the
/// runtime binary and its file name, the table's file name, and the
/// post-upload action.
#[derive(Debug, Clone, PartialEq, Eq)]
pub struct UploadPlan {
    pub slot: u8,
    pub ini_name: String,
    pub config: String,
    pub rt: RtBin,
    pub rt_name: String,
    pub table_name: String,
    pub after: PostUploadAction,
}

/// What a well-formed plan for `manifest` holds, the manifest's version
/// having the components `t`.
pub open spec fn plan_matches(
    manifest: Manifest,
    after: Option<PostUploadAction>,
    t: (u64, u64, u64),
    p: UploadPlan,
) -> bool {
    &&& p.slot == manifest.slot
    &&& p.ini_name@ == ini_name_spec(manifest.slot)
    &&& p.config@ == ini_config_spec(
        manifest.name@,
        (manifest.slot - 1) as u8,
        icon_code_spec(manifest.icon),
        desc_or_default(manifest.description),
    )
    &&& p.rt.version.major == t.0 % 0x1_0000_0000
    &&& p.rt.version.minor == t.1 % 0x1_0000_0000
    &&& p.rt.version.patch == t.2 % 0x1_0000_0000
    &&& p.rt_name@ == bin_name_spec(p.rt.version)
    &&& p.table_name@ == table_name_spec(manifest.slot)
    &&& p.after == resolve_action_spec(after)
}

/// Validates the manifest and fixes the upload plan. The slot is checked
/// before anything else: a slot outside 1 through 8 aborts here, before
/// any connection, compilation or fetch is started. A manifest version
/// that is no SemVer version aborts next. Nothing here touches the
/// device.
pub fn prepare_upload(manifest: &Manifest, after: Option<PostUploadAction>) -> (r: Result<
    UploadPlan,
    CliError,
>)
    ensures
        !slot_in_range(manifest.slot) ==> r == Err::<UploadPlan, CliError>(
            CliError::SlotOutOfRange,
        ),
        slot_in_range(manifest.slot) && semver_triple(manifest.venice_version@) is None ==> r
            matches Err(CliError::InvalidVersion(_)),
        slot_in_range(manifest.slot) && semver_triple(manifest.venice_version@) is Some ==> r
            is Ok && plan_matches(
            *manifest,
            after,
            semver_triple(manifest.venice_version@)->Some_0,
            r->Ok_0,
        ),
{
    if !validate_slot(manifest.slot) {
        return Err(CliError::SlotOutOfRange);
    }
    match parse_semver(manifest.venice_version.as_str()) {
        Err(text) => Err(CliError::InvalidVersion(text)),
        Ok((major, minor, patch)) => {
            let rt = RtBin::from_semver(major, minor, patch);
            let rt_name = rt.file_name();
            let config = match &manifest.description {
                Some(d) => ini_config(
                    manifest.name.as_str(),
                    manifest.slot - 1,
                    manifest.icon.code(),
                    d.as_str(),
                ),
                None => ini_config(
                    manifest.name.as_str(),
                    manifest.slot - 1,
                    manifest.icon.code(),
                    "Made in Heaven!",
                ),
            };
            Ok(
                UploadPlan {
                    slot: manifest.slot,
                    ini_name: ini_file_name(manifest.slot),
                    config,
                    rt,
                    rt_name,
                    table_name: table_file_name(manifest.slot),
                    after: resolve_after_upload(after),
                },
            )
        },
    }
}

} // verus!
