//! What a build is known by before anything is decided: its profile, the
//! triple it may name, and the host it runs on.

use crate::text::same_text;
use crate::triple::HostOs;
use vstd::prelude::*;

verus! {

/// The mode a build runs in.
#[derive(Clone, Copy, Debug, PartialEq, Eq, Structural)]
pub enum BuildProfile {
    Development,
    Release,
}

/// The profile that an indicator stands for: `release` is a release build,
/// anything else, or no indicator at all, a development build.
pub open spec fn profile_named(indicator: Option<Seq<char>>) -> BuildProfile {
    match indicator {
        Some(name) if name == "release"@ => BuildProfile::Release,
        _ => BuildProfile::Development,
    }
}

impl BuildProfile {
    /// Reads the profile from the build's indicator, if it has one.
    pub fn from_indicator(indicator: Option<&str>) -> (profile: BuildProfile)
        ensures
            profile == profile_named(
                match indicator {
                    Some(name) => Some(name@),
                    None => None,
                },
            ),
    {
        match indicator {
            Some(name) => {
                if same_text(name, "release") {
                    BuildProfile::Release
                } else {
                    BuildProfile::Development
                }
            },
            None => BuildProfile::Development,
        }
    }
}

/// Everything a run depends on, gathered once at its start.
#[derive(Clone, Debug, PartialEq, Eq)]
pub struct BuildConfig {
    pub profile: BuildProfile,
    /// The triple that the build names, if it names one.
    pub explicit_triple: Option<String>,
    pub host_os: HostOs,
}

/// A [`BuildConfig`] as plain values.
pub struct ConfigModel {
    pub profile: BuildProfile,
    pub explicit_triple: Option<Seq<char>>,
    pub host_os: HostOs,
}

impl View for BuildConfig {
    type V = ConfigModel;

    open spec fn view(&self) -> ConfigModel {
        ConfigModel {
            profile: self.profile,
            explicit_triple: match self.explicit_triple {
                Some(triple) => Some(triple@),
                None => None,
            },
            host_os: self.host_os,
        }
    }
}

} // verus!
