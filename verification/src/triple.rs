//! The platform triple of the build target, and what follows from it.

use crate::text::{contains, contains_text, occurs_at, same_text};
use vstd::prelude::*;
use vstd::string::StringExecFns;

verus! {

/// The operating system the build runs on, as far as the fallback triple
/// depends on it.
#[derive(Clone, Copy, Debug, PartialEq, Eq, Structural)]
pub enum HostOs {
    Windows,
    MacOs,
    /// Linux, and every system that is neither of the other two.
    Linux,
}

/// The host that an operating-system name stands for.
pub open spec fn host_named(name: Seq<char>) -> HostOs {
    if name == "windows"@ {
        HostOs::Windows
    } else if name == "macos"@ {
        HostOs::MacOs
    } else {
        HostOs::Linux
    }
}

/// The triple assumed for `host` when the build names none.
pub open spec fn fallback_triple(host: HostOs) -> Seq<char> {
    match host {
        HostOs::Windows => "x86_64-pc-windows-msvc"@,
        HostOs::MacOs => "x86_64-apple-darwin"@,
        HostOs::Linux => "x86_64-unknown-linux-gnu"@,
    }
}

/// The triple of a build: the explicit one where it is given and not empty,
/// the host's fallback otherwise.
pub open spec fn resolved_triple(explicit: Option<Seq<char>>, host: HostOs) -> Seq<char> {
    match explicit {
        Some(triple) if triple.len() > 0 => triple,
        _ => fallback_triple(host),
    }
}

/// A triple denotes a Windows-like platform when it mentions `windows`.
pub open spec fn is_windows_like(triple: Seq<char>) -> bool {
    contains(triple, "windows"@)
}

/// The suffix that executables carry on the platform of `triple`.
pub open spec fn executable_suffix(triple: Seq<char>) -> Seq<char> {
    if is_windows_like(triple) {
        ".exe"@
    } else {
        Seq::<char>::empty()
    }
}

impl HostOs {
    /// Reads a host from the name the operating system goes by
    /// (`windows`, `macos`, anything else).
    pub fn from_name(name: &str) -> (host: HostOs)
        ensures
            host == host_named(name@),
    {
        if same_text(name, "windows") {
            HostOs::Windows
        } else if same_text(name, "macos") {
            HostOs::MacOs
        } else {
            HostOs::Linux
        }
    }

    /// The triple assumed for this host when the build names none.
    pub fn fallback(&self) -> (triple: String)
        ensures
            triple@ == fallback_triple(*self),
            triple@.len() > 0,
    {
        proof {
            reveal_strlit("x86_64-pc-windows-msvc");
            reveal_strlit("x86_64-apple-darwin");
            reveal_strlit("x86_64-unknown-linux-gnu");
        }
        match self {
            HostOs::Windows => String::from_str("x86_64-pc-windows-msvc"),
            HostOs::MacOs => String::from_str("x86_64-apple-darwin"),
            HostOs::Linux => String::from_str("x86_64-unknown-linux-gnu"),
        }
    }
}

/// Resolves the triple of the build target.  An explicit triple wins; where
/// none is given, or an empty one, the host decides.
pub fn resolve_triple(explicit: Option<&str>, host: HostOs) -> (triple: String)
    ensures
        triple@ == resolved_triple(
            match explicit {
                Some(given) => Some(given@),
                None => None,
            },
            host,
        ),
        triple@.len() > 0,
{
    match explicit {
        Some(given) => {
            if given.unicode_len() > 0 {
                String::from_str(given)
            } else {
                host.fallback()
            }
        },
        None => host.fallback(),
    }
}

/// Whether `triple` denotes a Windows-like platform.
pub fn windows_like(triple: &str) -> (yes: bool)
    ensures
        yes == is_windows_like(triple@),
{
    contains_text(triple, "windows")
}

/// The suffix of executables on the platform of `triple`: `.exe` on a
/// Windows-like one, nothing elsewhere.
pub fn suffix_for(triple: &str) -> (suffix: String)
    ensures
        suffix@ == executable_suffix(triple@),
{
    if windows_like(triple) {
        String::from_str(".exe")
    } else {
        String::new()
    }
}

/// Where the build names no triple, the host alone decides it: the MSVC
/// triple on Windows, the Darwin triple on macOS, the GNU/Linux triple
/// anywhere else.  Of the three only the first is Windows-like.
pub proof fn absent_triple_follows_host(host: HostOs)
    ensures
        resolved_triple(None, host) == fallback_triple(host),
        resolved_triple(Some(Seq::<char>::empty()), host) == fallback_triple(host),
        host == HostOs::Windows ==> resolved_triple(None, host) == "x86_64-pc-windows-msvc"@,
        host == HostOs::MacOs ==> resolved_triple(None, host) == "x86_64-apple-darwin"@,
        host == HostOs::Linux ==> resolved_triple(None, host) == "x86_64-unknown-linux-gnu"@,
        is_windows_like(resolved_triple(None, host)) <==> host == HostOs::Windows,
{
    reveal_strlit("windows");
    reveal_strlit("x86_64-pc-windows-msvc");
    reveal_strlit("x86_64-apple-darwin");
    reveal_strlit("x86_64-unknown-linux-gnu");
    let triple = fallback_triple(host);
    let needle = "windows"@;
    match host {
        HostOs::Windows => {
            assert(triple.subrange(10, 17) =~= needle);
            assert(occurs_at(triple, needle, 10));
        },
        _ => {
            assert forall|at: int| !occurs_at(triple, needle, at) by {
                if occurs_at(triple, needle, at) {
                    let window = triple.subrange(at, at + needle.len());
                    assert(window[0] == triple[at]);
                    assert(window[1] == triple[at + 1]);
                }
            }
        },
    }
}

} // verus!
