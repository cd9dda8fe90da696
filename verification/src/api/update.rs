//! The latest release, as the update service describes it.

use vstd::prelude::*;

use crate::error::CatoolsError;
use crate::text::{nonblank_lines, nonblank_lines_of, views};

verus! {

/// The latest release: its version, its date, and the changes it brings.
#[derive(Debug)]
pub struct UpdateInfo {
    pub version: String,
    pub date: String,
    pub changes: Vec<String>,
}

/// The entries of a changelog: its lines, trimmed, without the blank ones.
pub open spec fn changelog_entries(changelog: Seq<char>) -> Seq<Seq<char>> {
    nonblank_lines(changelog)
}

/// The message when the update service reports a failure.
pub open spec fn api_failure_message() -> Seq<char> {
    "API 返回错误"@
}

/// The release that the update service described, from the fields of its
/// reply: a status `code` other than 200 is an error; otherwise the version
/// and date as given and the entries of the changelog.
pub fn update_info_from_reply(code: i32, version: String, date: String, changelog: &str) -> (r:
    Result<UpdateInfo, CatoolsError>)
    ensures
        code != 200 ==> (r matches Err(CatoolsError::ApiError(m)) && m@ == api_failure_message()),
        code == 200 ==> (r matches Ok(info) && info.version == version && info.date == date
            && views(info.changes@) == changelog_entries(changelog@)),
{
    if code != 200 {
        return Err(CatoolsError::ApiError(String::from_str("API 返回错误")));
    }
    let changes = nonblank_lines_of(changelog);
    Ok(UpdateInfo { version, date, changes })
}

} // verus!
