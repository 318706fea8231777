//! The configured status of an overload.

use crate::status::{informational, is_status, StatusCode, SITE_OVERLOADED};
use crate::text;
use crate::text::{parsed_u16, trimmed};
use vstd::prelude::*;

verus! {

/// The status of an overload under a setting: the number that the setting
/// writes, if that is a final status, else 529.
pub open spec fn configured_overload(setting: Option<Seq<char>>) -> u16 {
    match setting {
        Some(text) => match parsed_u16(trimmed(text)) {
            Some(code) => if is_status(code) && !informational(code) {
                code
            } else {
                SITE_OVERLOADED
            },
            None => SITE_OVERLOADED,
        },
        None => SITE_OVERLOADED,
    }
}

/// Reads the setting for the status of an overload.
pub fn parse_overload_status_code(value: Option<&str>) -> (status: StatusCode)
    ensures
        value matches Some(text) ==> status@ == configured_overload(Some(text@)),
        value is None ==> status@ == configured_overload(None),
{
    if let Some(text) = value {
        if let Some(code) = text::parse_u16(text::trim(text)) {
            if let Ok(status) = StatusCode::from_u16(code) {
                if !status.is_informational() {
                    return status;
                }
            }
        }
    }
    StatusCode::site_overloaded()
}

} // verus!
