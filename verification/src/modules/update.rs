//! Checking for a newer release, and choosing the upgrade script.

use vstd::prelude::*;

use crate::constants::{SYSUP_AMD64_URL, SYSUP_MT7621_URL, SYSUP_MT798X_URL};
use crate::error::{is_validation_error, CatoolsError};
use crate::text::{str_eq, views};
use crate::utils::system::{command, push_step, steps_view, Step, CommandView};
use crate::utils::validation::{
    compare_version, is_valid_version, version_format_message, version_number, version_order,
};

verus! {

/// Whether the release `latest` is newer than the running `current`: true
/// exactly when `current` compares earlier. A malformed version is an error,
/// `current` checked first.
pub fn newer_release_available(current: &str, latest: &str) -> (r: Result<bool, CatoolsError>)
    ensures
        r is Ok <==> is_valid_version(current@) && is_valid_version(latest@),
        r matches Ok(b) ==> b == (version_order(version_number(current@), version_number(latest@))
            == -1),
        !is_valid_version(current@) ==> (r matches Err(e) && is_validation_error(
            e,
            version_format_message(current@),
        )),
        is_valid_version(current@) && !is_valid_version(latest@) ==> (r matches Err(e)
            && is_validation_error(e, version_format_message(latest@))),
{
    match compare_version(current, latest) {
        Ok(c) => Ok(c < 0),
        Err(e) => Err(e),
    }
}

/// How a router of some architecture is upgraded.
#[derive(Debug)]
pub enum UpgradeTarget {
    /// With the script at this address.
    Script(String),
    /// amd64: the script depends on the boot mode, which the user must give.
    AskBootMode,
    /// Not automatically.
    Unsupported,
}

/// How a router of architecture `arch` is upgraded: amd64 asks for the boot
/// mode; mt7621 and mt798x have their own scripts; others are unsupported.
pub fn upgrade_target(arch: &str) -> (t: UpgradeTarget)
    ensures
        arch@ == "amd64"@ ==> t is AskBootMode,
        arch@ == "mt7621"@ ==> (t matches UpgradeTarget::Script(u) && u@ == SYSUP_MT7621_URL@),
        arch@ == "mt798x"@ ==> (t matches UpgradeTarget::Script(u) && u@ == SYSUP_MT798X_URL@),
        arch@ != "amd64"@ && arch@ != "mt7621"@ && arch@ != "mt798x"@ ==> t is Unsupported,
{
    proof {
        reveal_strlit("amd64");
        reveal_strlit("mt7621");
        reveal_strlit("mt798x");
        assert("mt7621"@.len() == 6);
        assert("mt7621"@[3] == '6');
        assert("mt798x"@[3] == '9');
        assert("amd64"@ != "mt7621"@);
        assert("mt798x"@ != "mt7621"@);
        assert("amd64"@ != "mt798x"@);
    }
    if str_eq(arch, "amd64") {
        UpgradeTarget::AskBootMode
    } else if str_eq(arch, "mt7621") {
        let u = String::from_str(SYSUP_MT7621_URL);
        assert(u@ == SYSUP_MT7621_URL@);
        UpgradeTarget::Script(u)
    } else if str_eq(arch, "mt798x") {
        UpgradeTarget::Script(String::from_str(SYSUP_MT798X_URL))
    } else {
        UpgradeTarget::Unsupported
    }
}

/// The amd64 upgrade script for the boot mode chosen at position `selection`
/// of (EFI, BIOS/Legacy): EFI has one, BIOS/Legacy has none.
pub fn amd64_upgrade_script(selection: usize) -> (r: Option<String>)
    ensures
        selection == 0 ==> (r matches Some(u) && u@ == SYSUP_AMD64_URL@),
        selection != 0 ==> r is None,
{
    if selection == 0 {
        Some(String::from_str(SYSUP_AMD64_URL))
    } else {
        None
    }
}

/// The confirmations before an upgrade script is downloaded and run; asked
/// with `crate::modules::advanced::confirm_step`.
pub const UPGRADE_CONFIRMATIONS: usize = 1;

/// Where the downloaded upgrade script is kept.
pub const UPGRADE_SCRIPT_PATH: &'static str = "/tmp/sysupgrade.sh";

/// The commands that run the downloaded upgrade script: make it executable,
/// then run it with `sh`; either failure ends the upgrade.
pub fn upgrade_plan() -> (r: Vec<Step>)
    ensures
        steps_view(r@) == seq![
            (("chmod"@, seq!["+x"@, UPGRADE_SCRIPT_PATH@]), true),
            (("sh"@, seq![UPGRADE_SCRIPT_PATH@]), true),
        ],
{
    let mut r: Vec<Step> = Vec::new();
    let mut a1: Vec<String> = Vec::new();
    a1.push(String::from_str("+x"));
    a1.push(String::from_str(UPGRADE_SCRIPT_PATH));
    let c1 = command("chmod", a1);
    assert(views(c1.args@) =~= seq!["+x"@, UPGRADE_SCRIPT_PATH@]);
    push_step(&mut r, c1, true);
    let mut a2: Vec<String> = Vec::new();
    a2.push(String::from_str(UPGRADE_SCRIPT_PATH));
    let c2 = command("sh", a2);
    assert(views(c2.args@) =~= seq![UPGRADE_SCRIPT_PATH@]);
    push_step(&mut r, c2, true);
    r
}

} // verus!
