//! Network probes (placeholders that report a reachable network).

use vstd::prelude::*;

use crate::error::CatoolsError;

verus! {

/// Reports whether `_host` answers; the probe is a placeholder that always
/// answers `true`.
pub fn ping(_host: &str) -> (r: Result<bool, CatoolsError>)
    ensures
        r == Ok::<bool, CatoolsError>(true),
{
    Ok(true)
}

/// The address of this device; a placeholder that always gives the default
/// LAN address `192.168.1.1`.
pub fn get_local_ip() -> (r: Result<String, CatoolsError>)
    ensures
        r matches Ok(s) && s@ == "192.168.1.1"@,
{
    Ok(String::from_str("192.168.1.1"))
}

} // verus!
