//! The sidecar artifact: where the packaging step looks for the companion
//! executable, and under which name.

use crate::text::{contains, ends_with, occurs_at};
use crate::triple::{executable_suffix, is_windows_like, suffix_for};
use vstd::prelude::*;
use vstd::string::StringExecFns;

verus! {

/// The file the packaging step expects: `{base_name}-{triple}{extension}`
/// inside `directory`, which is relative to the build root.
#[derive(Clone, Debug, PartialEq, Eq)]
pub struct SidecarArtifact {
    pub base_name: String,
    pub triple: String,
    pub extension: String,
    pub directory: String,
}

/// A [`SidecarArtifact`] as plain sequences of characters.
pub struct ArtifactModel {
    pub base_name: Seq<char>,
    pub triple: Seq<char>,
    pub extension: Seq<char>,
    pub directory: Seq<char>,
}

impl View for SidecarArtifact {
    type V = ArtifactModel;

    open spec fn view(&self) -> ArtifactModel {
        ArtifactModel {
            base_name: self.base_name@,
            triple: self.triple@,
            extension: self.extension@,
            directory: self.directory@,
        }
    }
}

/// The name of the artifact's file.
pub open spec fn filename_of(artifact: ArtifactModel) -> Seq<char> {
    artifact.base_name + "-"@ + artifact.triple + artifact.extension
}

/// The artifact's path relative to the build root.
pub open spec fn path_of(artifact: ArtifactModel) -> Seq<char> {
    artifact.directory + "/"@ + filename_of(artifact)
}

/// The sidecar of the launcher for the platform `triple`.
pub open spec fn sidecar_for(triple: Seq<char>) -> ArtifactModel {
    ArtifactModel {
        base_name: "tempest-cli"@,
        triple,
        extension: executable_suffix(triple),
        directory: "binaries"@,
    }
}

impl SidecarArtifact {
    /// The launcher's sidecar for the platform `triple`.
    pub fn for_triple(triple: &str) -> (artifact: SidecarArtifact)
        ensures
            artifact@ == sidecar_for(triple@),
    {
        SidecarArtifact {
            base_name: String::from_str("tempest-cli"),
            triple: String::from_str(triple),
            extension: suffix_for(triple),
            directory: String::from_str("binaries"),
        }
    }

    /// The name of the artifact's file.
    pub fn filename(&self) -> (name: String)
        ensures
            name@ == filename_of(self@),
    {
        let mut name = self.base_name.clone();
        name.append("-");
        name.append(self.triple.as_str());
        name.append(self.extension.as_str());
        name
    }

    /// The artifact's path relative to the build root.
    pub fn path(&self) -> (path: String)
        ensures
            path@ == path_of(self@),
    {
        let name = self.filename();
        let mut path = self.directory.clone();
        path.append("/");
        path.append(name.as_str());
        proof {
            assert(self.directory@ + "/"@ + name@ =~= path_of(self@));
        }
        path
    }
}

/// The file name of every artifact holds its triple, right behind the base
/// name and the hyphen.
pub proof fn filename_holds_triple(artifact: ArtifactModel)
    ensures
        occurs_at(filename_of(artifact), artifact.triple, (artifact.base_name + "-"@).len() as int),
        contains(filename_of(artifact), artifact.triple),
{
    let name = filename_of(artifact);
    let at = (artifact.base_name + "-"@).len() as int;
    assert(name.subrange(at, at + artifact.triple.len()) =~= artifact.triple);
    assert(occurs_at(name, artifact.triple, at));
}

/// The launcher's sidecar is named `.exe` exactly on Windows-like platforms.
/// A triple that itself ends in `.exe` without naming `windows` is left out:
/// its file name ends in `.exe` by the triple alone.
pub proof fn sidecar_suffix_tells_platform(triple: Seq<char>)
    requires
        is_windows_like(triple) || !ends_with(triple, ".exe"@),
    ensures
        ends_with(filename_of(sidecar_for(triple)), ".exe"@) <==> is_windows_like(triple),
{
    reveal_strlit(".exe");
    reveal_strlit("tempest-cli");
    reveal_strlit("-");
    let name = filename_of(sidecar_for(triple));
    let tail = ".exe"@;
    if is_windows_like(triple) {
        assert(name.subrange(name.len() - tail.len(), name.len() as int) =~= tail);
    } else {
        assert(name =~= "tempest-cli"@ + "-"@ + triple);
        if ends_with(name, tail) {
            let window = name.subrange(name.len() - 4, name.len() as int);
            assert(window == tail);
            if triple.len() >= 4 {
                assert(triple.subrange(triple.len() - 4, triple.len() as int) =~= window);
            } else {
                let k = 3 - triple.len();
                assert(window[k] == name[11]);
                assert(name[11] == '-');
                assert(tail[k] != '-');
            }
        }
    }
}

} // verus!
