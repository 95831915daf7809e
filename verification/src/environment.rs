//! Which kind of environment description a working directory holds.

use vstd::prelude::*;

verus! {

/// The bootstrap strategy that a working directory supports.
#[derive(Clone, Copy, Debug, PartialEq, Eq, Structural)]
pub enum Environment {
    /// A flake descriptor is present; named profiles can be entered.
    FlakeBased,
    /// No flake descriptor, but a legacy shell descriptor.
    LegacyNixShell,
    /// Neither of the above, but a legacy default descriptor.
    LegacyDefaultNix,
    /// No descriptor at all.
    Missing,
}

/// File name of the flake descriptor.
pub const FLAKE_FILE: &'static str = "flake.nix";

/// File name of the legacy shell descriptor.
pub const SHELL_FILE: &'static str = "shell.nix";

/// File name of the legacy default descriptor.
pub const DEFAULT_FILE: &'static str = "default.nix";

/// The strategy for a directory, given which descriptors it holds. The
/// flake descriptor has priority over the shell descriptor, which has
/// priority over the default descriptor.
pub open spec fn detect_spec(flake: bool, shell: bool, default: bool) -> Environment {
    if flake {
        Environment::FlakeBased
    } else if shell {
        Environment::LegacyNixShell
    } else if default {
        Environment::LegacyDefaultNix
    } else {
        Environment::Missing
    }
}

/// Decides the bootstrap strategy from the presence of the three
/// descriptor files in the working directory.
pub fn detect(flake: bool, shell: bool, default: bool) -> (r: Environment)
    ensures
        r == detect_spec(flake, shell, default),
        flake ==> r == Environment::FlakeBased,
        r == Environment::Missing <==> !flake && !shell && !default,
{
    if flake {
        Environment::FlakeBased
    } else if shell {
        Environment::LegacyNixShell
    } else if default {
        Environment::LegacyDefaultNix
    } else {
        Environment::Missing
    }
}

/// The flake descriptor wins whatever else is present.
pub proof fn law_flake_has_priority(shell: bool, default: bool)
    ensures
        detect_spec(true, shell, default) == Environment::FlakeBased,
{
}

/// The four strategies exclude one another, and each comes from exactly one
/// combination of descriptors.
pub proof fn law_detect_exclusive(flake: bool, shell: bool, default: bool)
    ensures
        detect_spec(flake, shell, default) == Environment::FlakeBased <==> flake,
        detect_spec(flake, shell, default) == Environment::LegacyNixShell <==> !flake && shell,
        detect_spec(flake, shell, default) == Environment::LegacyDefaultNix <==> !flake && !shell
            && default,
        detect_spec(flake, shell, default) == Environment::Missing <==> !flake && !shell
            && !default,
{
}

} // verus!
