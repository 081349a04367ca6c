//! What becomes of the contents of the configuration file.
//!
//! Looking for the file and parsing it is left to the caller, which hands
//! over what it found: `None` where no file exists at the path, else the
//! parsed configuration or the error that reading or parsing gave.
use vstd::prelude::*;

use crate::error::PumpkinError;
use crate::model::pumpkin_config::{default_config, ConfigView, Platform, PumpkinConfig};
use crate::text::owned;

verus! {

/// The configuration that `load_or_default` settles on where it succeeds.
pub open spec fn loaded_or_default(
    found: Option<Result<PumpkinConfig, PumpkinError>>,
    platform: Platform,
) -> ConfigView {
    match found {
        Some(Ok(c)) => c@,
        _ => default_config(platform),
    }
}

/// The configuration of the file at `path`: `ConfigNotFound` where there
/// is no file, else what reading it gave.
pub fn load_config(path: &str, found: Option<Result<PumpkinConfig, PumpkinError>>) -> (r: Result<
    PumpkinConfig,
    PumpkinError,
>)
    ensures
        match found {
            None => r matches Err(PumpkinError::ConfigNotFound(p)) && p@ == path@,
            Some(res) => r == res,
        },
{
    match found {
        None => Err(PumpkinError::ConfigNotFound(owned(path))),
        Some(res) => res,
    }
}

/// The configuration of the file at `path`, or the default one of
/// `platform` where there is no file.
pub fn load_or_default(
    path: &str,
    found: Option<Result<PumpkinConfig, PumpkinError>>,
    platform: Platform,
) -> (r: Result<PumpkinConfig, PumpkinError>)
    ensures
        match found {
            None => r matches Ok(c) && c@ == default_config(platform),
            Some(res) => r == res,
        },
{
    match found {
        None => Ok(PumpkinConfig::default_for(platform)),
        Some(res) => load_config(path, Some(res)),
    }
}

} // verus!
