//! The operating-system family and the snapshot that names it.

use vstd::prelude::*;

verus! {

/// The operating-system families that the integration layer tells apart.
#[derive(Clone, Copy, Debug, PartialEq, Eq, Structural)]
pub enum OsFamily {
    Windows,
    MacOs,
    Linux,
    Other,
}

/// The family that an operating-system name stands for.
pub open spec fn family_of_name(os: Seq<char>) -> OsFamily {
    if os == "windows"@ {
        OsFamily::Windows
    } else if os == "macos"@ {
        OsFamily::MacOs
    } else if os == "linux"@ {
        OsFamily::Linux
    } else {
        OsFamily::Other
    }
}

/// Whether two string slices hold the same text.
pub fn same_text(a: &str, b: &str) -> (same: bool)
    ensures
        same == (a@ == b@),
{
    let left = a.to_owned();
    let right = b.to_owned();
    left == right
}

impl OsFamily {
    /// Resolves an operating-system name, as a build target spells it.
    pub fn from_name(os: &str) -> (family: OsFamily)
        ensures
            family == family_of_name(os@),
    {
        if same_text(os, "windows") {
            OsFamily::Windows
        } else if same_text(os, "macos") {
            OsFamily::MacOs
        } else if same_text(os, "linux") {
            OsFamily::Linux
        } else {
            OsFamily::Other
        }
    }
}

/// What a platform snapshot says, as plain text.
pub struct PlatformInfoView {
    pub os: Seq<char>,
    pub arch: Seq<char>,
}

/// An immutable snapshot of the running platform.
#[derive(Clone, Debug)]
pub struct PlatformInfo {
    pub os: String,
    pub arch: String,
}

impl View for PlatformInfo {
    type V = PlatformInfoView;

    open spec fn view(&self) -> PlatformInfoView {
        PlatformInfoView { os: self.os@, arch: self.arch@ }
    }
}

impl PlatformInfo {
    /// The family that this snapshot's operating system belongs to.
    pub fn family(&self) -> (family: OsFamily)
        ensures
            family == family_of_name(self@.os),
    {
        OsFamily::from_name(self.os.as_str())
    }
}

/// Builds the snapshot from the operating-system and architecture names of
/// the running process. The result depends on the two names alone.
pub fn get_platform_info(os: &str, arch: &str) -> (info: PlatformInfo)
    ensures
        info@ == (PlatformInfoView { os: os@, arch: arch@ }),
{
    PlatformInfo { os: os.to_owned(), arch: arch.to_owned() }
}

/// The three named families are told apart by their names, and every other
/// name falls to `Other`.
pub proof fn lemma_family_names()
    ensures
        family_of_name("windows"@) == OsFamily::Windows,
        family_of_name("macos"@) == OsFamily::MacOs,
        family_of_name("linux"@) == OsFamily::Linux,
        forall|os: Seq<char>|
            os != "windows"@ && os != "macos"@ && os != "linux"@ ==> #[trigger] family_of_name(os)
                == OsFamily::Other,
{
    reveal_strlit("windows");
    reveal_strlit("macos");
    reveal_strlit("linux");
    assert("windows"@.len() == 7);
    assert("macos"@.len() == 5);
    assert("linux"@.len() == 5);
    assert("macos"@[0] == 'm');
    assert("linux"@[0] == 'l');
}

} // verus!
