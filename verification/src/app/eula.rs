//! The agreement the user must accept before any command.

use vstd::prelude::*;

use crate::logic::eula::EULA_VERSION;
use crate::logic::settings::{is_eula_agreed, Settings};

verus! {

/// How the agreement prompt ended.
#[derive(Debug, Clone, PartialEq, Eq)]
pub enum Outcome {
    Accepted,
    Declined,
    Error(String),
}

/// Whether the user agreed to the current agreement.
pub fn is_agreed(settings: &Settings) -> (r: bool)
    ensures
        r == (settings.agreed_to_eula == Some(EULA_VERSION)),
{
    is_eula_agreed(settings)
}

/// The settings recorded once the user accepts: the same, with the current
/// agreement version.
pub fn accepted_settings(settings: &Settings) -> (r: Settings)
    ensures
        r == (Settings { agreed_to_eula: Some(EULA_VERSION), ..*settings }),
        is_agreed_spec(r),
{
    Settings { agreed_to_eula: Some(EULA_VERSION), ..*settings }
}

pub open spec fn is_agreed_spec(settings: Settings) -> bool {
    settings.agreed_to_eula == Some(EULA_VERSION)
}

/// Accepting the agreement sticks: the settings recorded after acceptance are
/// agreed, whatever they were before.
pub proof fn law_accept_then_agreed(settings: Settings)
    ensures
        is_agreed_spec(Settings { agreed_to_eula: Some(EULA_VERSION), ..settings }),
{
}

} // verus!
