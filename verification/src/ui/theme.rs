//! What the look of the interface depends on.
use vstd::prelude::*;

use crate::model::pumpkin_config::{default_executable_name, Platform};
use crate::model::server_status::ServerStatus;

verus! {

/// The colour role in which a status is shown.
#[derive(Debug, Clone, Copy, PartialEq, Eq, Structural)]
pub enum Tone {
    Muted,
    Warning,
    Success,
    Danger,
}

/// The colour role of each status.
pub open spec fn tone_of(status: ServerStatus) -> Tone {
    match status {
        ServerStatus::Stopped => Tone::Muted,
        ServerStatus::Starting => Tone::Warning,
        ServerStatus::Running => Tone::Success,
        ServerStatus::Stopping => Tone::Warning,
        ServerStatus::Failed => Tone::Danger,
    }
}

/// The colour role in which `status` is shown.
pub fn status_tone(status: ServerStatus) -> (r: Tone)
    ensures
        r == tone_of(status),
{
    match status {
        ServerStatus::Stopped => Tone::Muted,
        ServerStatus::Starting => Tone::Warning,
        ServerStatus::Running => Tone::Success,
        ServerStatus::Stopping => Tone::Warning,
        ServerStatus::Failed => Tone::Danger,
    }
}

/// The monospace font family that the log view asks for on each platform.
pub open spec fn font_family(platform: Platform) -> Seq<char> {
    match platform {
        Platform::Windows => "Consolas"@,
        Platform::MacOs => "Menlo"@,
        Platform::Linux => "monospace"@,
        Platform::Other => "monospace"@,
    }
}

/// The monospace font family for `platform`.
pub fn terminal_font_family(platform: Platform) -> (r: &'static str)
    ensures
        r@ == font_family(platform),
{
    match platform {
        Platform::Windows => "Consolas",
        Platform::MacOs => "Menlo",
        Platform::Linux => "monospace",
        Platform::Other => "monospace",
    }
}

/// The hint shown in the empty executable field: the program that the
/// default configuration names.
pub fn default_executable_hint(platform: Platform) -> (r: &'static str)
    ensures
        r@ == default_executable_name(platform),
{
    match platform {
        Platform::Windows => "pumpkin-X64-Windows.exe",
        Platform::MacOs => "pumpkin-X64-macOS",
        Platform::Linux => "pumpkin-X64-Linux",
        Platform::Other => "pumpkin-X64-Windows.exe",
    }
}

} // verus!
