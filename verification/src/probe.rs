//! Classifying the desktop environment from what the platform reports.

use vstd::prelude::*;

verus! {

/// The platform family on which the shell runs.
#[derive(Clone, Copy, Debug, PartialEq, Eq, Structural)]
pub enum Platform {
    Linux,
    Other,
}

/// The desktop environment's name: on Linux the indicator as it was read,
/// or nothing where it is unset; on every other platform nothing, whatever
/// the indicator holds.
pub open spec fn desktop_env(platform: Platform, indicator: Option<Seq<char>>) -> Seq<char> {
    match (platform, indicator) {
        (Platform::Linux, Some(name)) => name,
        _ => Seq::empty(),
    }
}

/// The characters of an indicator that may be unset.
pub open spec fn indicator_chars(indicator: Option<String>) -> Option<Seq<char>> {
    match indicator {
        Some(name) => Some(name@),
        None => None,
    }
}

/// The desktop environment's name, from the platform family and the value
/// of the environment's indicator (`None` where it is unset).
pub fn get_linux_desktop_env(platform: Platform, indicator: Option<String>) -> (name: String)
    ensures
        name@ == desktop_env(platform, indicator_chars(indicator)),
        platform != Platform::Linux ==> name@.len() == 0,
{
    match platform {
        Platform::Linux => match indicator {
            Some(name) => name,
            None => String::new(),
        },
        Platform::Other => String::new(),
    }
}

} // verus!
