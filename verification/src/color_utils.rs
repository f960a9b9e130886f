//! Tags under their older module path.
use vstd::prelude::*;
use crate::colors::framed;
use crate::messages::{info_kind, message_line};
use crate::paint::{Color, fg_bold};
use crate::settings::Settings;

verus! {

/// The information tag on its own: the line of an empty information message.
pub fn info(settings: &Settings) -> (t: String)
    ensures
        message_line(settings@.color_enabled, info_kind(), ""@, t@),
{
    crate::messages::info(settings, "")
}

/// The tag `  ✓ VALID`.
pub fn status_valid(settings: &Settings) -> (r: String)
    ensures
        if settings@.color_enabled {
            framed(r@, "  "@, "\u{2713}"@, fg_bold(Color::Green), " VALID"@)
        } else {
            r@ == "  [\u{2713}] VALID"@
        },
{
    crate::messages::status_valid(settings)
}

/// The tag `  ⚠ WARN`.
pub fn status_warn(settings: &Settings) -> (r: String)
    ensures
        if settings@.color_enabled {
            framed(r@, "  "@, "\u{26a0}"@, fg_bold(Color::Yellow), " WARN"@)
        } else {
            r@ == "  [\u{26a0}] WARN"@
        },
{
    crate::messages::status_warn(settings)
}

/// The tag `  ✗ ERROR`.
pub fn status_error(settings: &Settings) -> (r: String)
    ensures
        if settings@.color_enabled {
            framed(r@, "  "@, "\u{2717}"@, fg_bold(Color::Red), " ERROR"@)
        } else {
            r@ == "  [\u{2717}] ERROR"@
        },
{
    crate::messages::status_error(settings)
}

} // verus!
