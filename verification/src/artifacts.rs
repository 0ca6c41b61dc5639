//! Naming the prebuilt native libraries that a build links against.
//!
//! The libraries are published per platform. A build knows its platform by
//! the compiler's target triple; the publisher has names of its own, one for
//! the artifact and one for the directory inside it. Fetching and unpacking
//! an artifact is the build program's work.

use crate::text::same_text;
use vstd::prelude::*;
use vstd::string::StringExecFns;

verus! {

/// The version of the libraries that artifacts are fetched for.
pub const WPILIB_VERSION: &'static str = "2023.4.3";

/// The version of the vendor's own libraries that artifacts are fetched for.
pub const NI_VERSION: &'static str = "2023.3.0";

/// The address under which all artifacts are published.
pub const MAVEN_ROOT: &'static str = "https://frcmaven.wpi.edu/artifactory/release/edu/wpi/first/";

/// How a library is linked.
#[derive(PartialEq, Eq, Debug, Clone, Copy, Structural)]
pub enum Linkage {
    Static,
    Shared,
}

/// One native library that is to be built or fetched.
pub struct Build {
    pub maven_url_name: &'static str,
    pub maven_link_name: &'static str,
    pub version: &'static str,
    pub base_name: &'static str,
    pub srcs: Vec<&'static str>,
    pub headers: &'static str,
    pub headers_env_vars: &'static [&'static str],
}

/// The platforms for which artifacts are published.
#[derive(Debug, Clone, Copy, PartialEq, Eq, Structural)]
pub enum MavenTarget {
    LinuxArm32,
    LinuxArm64,
    LinuxAthena,
    LinuxX86_64,
    OsXUniversal,
    WindowsArm64,
    WindowsX86_64,
}

/// The platform that a target triple is matched to, if any.
pub open spec fn maven_target_of(target: Seq<char>) -> Option<MavenTarget> {
    if target == "aarch64-unknown-linux-gnu"@ {
        Some(MavenTarget::LinuxArm64)
    } else if target == "armv7-unknown-linux-gnueabi"@ {
        Some(MavenTarget::LinuxAthena)
    } else if target == "x86_64-unknown-linux-gnu"@ {
        Some(MavenTarget::LinuxX86_64)
    } else if target == "x86_64-apple-darwin"@ || target == "aarch64-apple-darwin"@ {
        Some(MavenTarget::OsXUniversal)
    } else if target == "aarch64-pc-windows-msvc"@ {
        Some(MavenTarget::WindowsArm64)
    } else if target == "x64_64-pc-windows-msvc"@ {
        Some(MavenTarget::WindowsX86_64)
    } else {
        None
    }
}

impl MavenTarget {
    /// The name of this platform in the name of an artifact.
    pub open spec fn maven_fragment(self) -> Seq<char> {
        match self {
            MavenTarget::LinuxArm32 => "linuxarm32"@,
            MavenTarget::LinuxArm64 => "linuxarm64"@,
            MavenTarget::LinuxAthena => "linuxathena"@,
            MavenTarget::LinuxX86_64 => "linuxx86-64"@,
            MavenTarget::OsXUniversal => "osxuniversal"@,
            MavenTarget::WindowsArm64 => "windowsarm64"@,
            MavenTarget::WindowsX86_64 => "windowsx86-64"@,
        }
    }

    /// The directory of this platform inside an artifact.
    pub open spec fn path_fragment(self) -> Seq<char> {
        match self {
            MavenTarget::LinuxArm32 => "linux/arm32"@,
            MavenTarget::LinuxArm64 => "linux/arm64"@,
            MavenTarget::LinuxAthena => "linux/athena"@,
            MavenTarget::LinuxX86_64 => "linux/x86-64"@,
            MavenTarget::OsXUniversal => "osx/universal"@,
            MavenTarget::WindowsArm64 => "windows/arm64"@,
            MavenTarget::WindowsX86_64 => "windows/x86-64"@,
        }
    }

    /// Whether this platform is one of the Windows platforms.
    pub open spec fn is_windows(self) -> bool {
        self == MavenTarget::WindowsArm64 || self == MavenTarget::WindowsX86_64
    }

    /// Matches a target triple of the compiler to a platform. A triple that
    /// is not in the table has no platform.
    pub fn from_rustc_target(target: &str) -> (platform: Option<Self>)
        ensures
            platform == maven_target_of(target@),
    {
        if same_text(target, "aarch64-unknown-linux-gnu") {
            Some(MavenTarget::LinuxArm64)
        } else if same_text(target, "armv7-unknown-linux-gnueabi") {
            Some(MavenTarget::LinuxAthena)
        } else if same_text(target, "x86_64-unknown-linux-gnu") {
            Some(MavenTarget::LinuxX86_64)
        } else if same_text(target, "x86_64-apple-darwin") || same_text(
            target,
            "aarch64-apple-darwin",
        ) {
            Some(MavenTarget::OsXUniversal)
        } else if same_text(target, "aarch64-pc-windows-msvc") {
            Some(MavenTarget::WindowsArm64)
        } else if same_text(target, "x64_64-pc-windows-msvc") {
            Some(MavenTarget::WindowsX86_64)
        } else {
            None
        }
    }

    /// Gives the name of this platform in the name of an artifact.
    pub fn as_maven_fragment(&self) -> (fragment: &'static str)
        ensures
            fragment@ == self.maven_fragment(),
    {
        match self {
            MavenTarget::LinuxArm32 => "linuxarm32",
            MavenTarget::LinuxArm64 => "linuxarm64",
            MavenTarget::LinuxAthena => "linuxathena",
            MavenTarget::LinuxX86_64 => "linuxx86-64",
            MavenTarget::OsXUniversal => "osxuniversal",
            MavenTarget::WindowsArm64 => "windowsarm64",
            MavenTarget::WindowsX86_64 => "windowsx86-64",
        }
    }

    /// Gives the directory of this platform inside an artifact.
    pub fn as_path_fragment(&self) -> (fragment: &'static str)
        ensures
            fragment@ == self.path_fragment(),
    {
        match self {
            MavenTarget::LinuxArm32 => "linux/arm32",
            MavenTarget::LinuxArm64 => "linux/arm64",
            MavenTarget::LinuxAthena => "linux/athena",
            MavenTarget::LinuxX86_64 => "linux/x86-64",
            MavenTarget::OsXUniversal => "osx/universal",
            MavenTarget::WindowsArm64 => "windows/arm64",
            MavenTarget::WindowsX86_64 => "windows/x86-64",
        }
    }

    /// Gives the name of the C++ standard library to link with on this
    /// platform. The Windows platforms need none.
    pub fn stdcpp_link(&self) -> (library: Option<&'static str>)
        ensures
            library is None <==> self.is_windows(),
            library matches Some(name) ==> name@ == "stdc++"@,
    {
        match self {
            MavenTarget::WindowsArm64 | MavenTarget::WindowsX86_64 => None,
            _ => Some("stdc++"),
        }
    }
}

impl Linkage {
    /// The part of an artifact's name that tells its linkage.
    pub open spec fn suffix(self) -> Seq<char> {
        match self {
            Linkage::Shared => ""@,
            Linkage::Static => "static"@,
        }
    }

    /// The directory of this linkage inside an artifact.
    pub open spec fn directory(self) -> Seq<char> {
        match self {
            Linkage::Shared => "shared"@,
            Linkage::Static => "static"@,
        }
    }

    /// Gives the part of an artifact's name that tells its linkage.
    pub fn as_suffix(&self) -> (suffix: &'static str)
        ensures
            suffix@ == self.suffix(),
    {
        match self {
            Linkage::Shared => "",
            Linkage::Static => "static",
        }
    }

    /// Gives the directory of this linkage inside an artifact.
    pub fn as_directory(&self) -> (directory: &'static str)
        ensures
            directory@ == self.directory(),
    {
        match self {
            Linkage::Shared => "shared",
            Linkage::Static => "static",
        }
    }
}

/// The address of the artifact of library `name` in version `version` for a
/// platform and a linkage, with or without debug information.
pub open spec fn artifact_url_of(
    name: Seq<char>,
    version: Seq<char>,
    target: MavenTarget,
    linkage: Linkage,
    debug: bool,
) -> Seq<char> {
    MAVEN_ROOT@ + name + "/"@ + name + "-cpp/"@ + version + "/"@ + name + "-cpp-"@ + version + "-"@
        + target.maven_fragment() + linkage.suffix() + (if debug {
        "debug"@
    } else {
        ""@
    }) + ".zip"@
}

/// Builds the address of an artifact.
pub fn artifact_url(
    name: &str,
    version: &str,
    target: MavenTarget,
    linkage: Linkage,
    debug: bool,
) -> (url: String)
    ensures
        url@ == artifact_url_of(name@, version@, target, linkage, debug),
{
    let mut url = String::from_str(MAVEN_ROOT);
    url.append(name);
    url.append("/");
    url.append(name);
    url.append("-cpp/");
    url.append(version);
    url.append("/");
    url.append(name);
    url.append("-cpp-");
    url.append(version);
    url.append("-");
    url.append(target.as_maven_fragment());
    url.append(linkage.as_suffix());
    url.append(
        if debug {
            "debug"
        } else {
            ""
        },
    );
    url.append(".zip");
    url
}

/// How a library gets built.
#[derive(Debug, Clone, Copy, PartialEq, Eq, Structural)]
pub enum BuildMethod {
    /// Fetch the prebuilt artifact for this platform.
    Maven(MavenTarget),
    /// Compile the sources.
    FromSource,
}

/// Why no way of building applies.
#[derive(Debug, Clone, Copy, PartialEq, Eq, Structural)]
pub enum NoBuildMethod {
    /// Neither way of building is enabled.
    NoneEnabled,
    /// A way of building is enabled, but none that can be applied here.
    NoneApplicable,
}

/// The way of building that applies. A prebuilt artifact is preferred where
/// fetching is enabled and the platform has one. Compiling the sources is
/// the second choice, and it gives static libraries only.
pub open spec fn build_method_of(
    maven: bool,
    from_source: bool,
    platform: Option<MavenTarget>,
    linkage: Linkage,
) -> Result<BuildMethod, NoBuildMethod> {
    if maven && platform is Some {
        Ok(BuildMethod::Maven(platform->Some_0))
    } else if from_source && linkage == Linkage::Static {
        Ok(BuildMethod::FromSource)
    } else if !maven && !from_source {
        Err(NoBuildMethod::NoneEnabled)
    } else {
        Err(NoBuildMethod::NoneApplicable)
    }
}

impl Build {
    /// Chooses the way in which this library gets built, given which ways
    /// are enabled and what the target triple of the build is.
    pub fn method(&self, maven: bool, from_source: bool, target: &str, linkage: Linkage) -> (chosen:
        Result<BuildMethod, NoBuildMethod>)
        ensures
            chosen == build_method_of(maven, from_source, maven_target_of(target@), linkage),
    {
        let platform = MavenTarget::from_rustc_target(target);
        if maven && platform.is_some() {
            Ok(BuildMethod::Maven(platform.unwrap()))
        } else if from_source && linkage == Linkage::Static {
            Ok(BuildMethod::FromSource)
        } else if !maven && !from_source {
            Err(NoBuildMethod::NoneEnabled)
        } else {
            Err(NoBuildMethod::NoneApplicable)
        }
    }
}

/// Where the objects of one platform are found in the release archives.
pub struct WpilibArtifactInfo {
    pub platform_name: &'static str,
    pub object_path_in_zip: &'static str,
}

/// The platform that the release archives have for a target triple, if any.
/// The 32-bit ARM triple is the robot controller, unless the build is one
/// for simulation.
pub open spec fn release_platform_of(target: Seq<char>, sim: bool) -> Option<MavenTarget> {
    if target == "aarch64-unknown-linux-gnu"@ {
        Some(MavenTarget::LinuxArm64)
    } else if target == "arm-unknown-linux-gnueabi"@ {
        if sim {
            Some(MavenTarget::LinuxArm32)
        } else {
            Some(MavenTarget::LinuxAthena)
        }
    } else if target == "x86_64-unknown-linux-gnu"@ {
        Some(MavenTarget::LinuxX86_64)
    } else if target == "aarch64-apple-darwin"@ || target == "x86_64-apple-darwin"@ {
        Some(MavenTarget::OsXUniversal)
    } else if target == "x86_64-pc-windows-msvc"@ {
        Some(MavenTarget::WindowsX86_64)
    } else {
        None
    }
}

impl WpilibArtifactInfo {
    /// Finds the platform of a target triple in the release archives.
    pub fn platform(target: &str, sim: bool) -> (platform: Option<MavenTarget>)
        ensures
            platform == release_platform_of(target@, sim),
    {
        if same_text(target, "aarch64-unknown-linux-gnu") {
            Some(MavenTarget::LinuxArm64)
        } else if same_text(target, "arm-unknown-linux-gnueabi") {
            if sim {
                Some(MavenTarget::LinuxArm32)
            } else {
                Some(MavenTarget::LinuxAthena)
            }
        } else if same_text(target, "x86_64-unknown-linux-gnu") {
            Some(MavenTarget::LinuxX86_64)
        } else if same_text(target, "aarch64-apple-darwin") || same_text(
            target,
            "x86_64-apple-darwin",
        ) {
            Some(MavenTarget::OsXUniversal)
        } else if same_text(target, "x86_64-pc-windows-msvc") {
            Some(MavenTarget::WindowsX86_64)
        } else {
            None
        }
    }

    /// Says where the objects for a target triple are found. The triple must
    /// be one that the release archives have a platform for;
    /// [`WpilibArtifactInfo::platform`] tells.
    pub fn from_target(target: &str, sim: bool) -> (info: Self)
        requires
            release_platform_of(target@, sim) is Some,
        ensures
            info.platform_name@ == release_platform_of(target@, sim)->Some_0.maven_fragment(),
            info.object_path_in_zip@ == release_platform_of(target@, sim)->Some_0.path_fragment(),
    {
        let platform = Self::platform(target, sim).unwrap();
        Self {
            platform_name: platform.as_maven_fragment(),
            object_path_in_zip: platform.as_path_fragment(),
        }
    }
}

/// What is done with a file of an unpacked archive.
#[derive(Debug, Clone, Copy, PartialEq, Eq, Structural)]
pub enum CleanAction {
    /// Leave the file as it is.
    Keep,
    /// Remove the file: it holds debug information only.
    Remove,
    /// Give the file the first so many bytes of its name as its new name:
    /// a shared object that carries a version behind its name loses it.
    Rename(usize),
}

/// Whether the text `.so` stands at place `at` of a file name.
pub open spec fn so_at(name: Seq<u8>, at: int) -> bool {
    &&& 0 <= at
    &&& at + 3 <= name.len()
    &&& name[at] == 0x2e
    &&& name[at + 1] == 0x73
    &&& name[at + 2] == 0x6f
}

/// Whether `at` is the last place of a file name at which `.so` stands.
pub open spec fn last_so_at(name: Seq<u8>, at: int) -> bool {
    so_at(name, at) && forall|later: int| at < later ==> !so_at(name, later)
}

/// Whether a file name is exactly `.debug`.
pub open spec fn is_debug_name(name: Seq<u8>) -> bool {
    name == seq![0x2eu8, 0x64u8, 0x65u8, 0x62u8, 0x75u8, 0x67u8]
}

/// What is done with the file of the given name. A file named `.debug` is
/// removed. A file in whose name something follows the last `.so` is renamed
/// to what stands before and in that `.so`. Every other file is kept.
pub open spec fn clean_action_of(name: Seq<u8>, action: CleanAction) -> bool {
    if is_debug_name(name) {
        action == CleanAction::Remove
    } else {
        match action {
            CleanAction::Keep => (forall|at: int| !so_at(name, at)) || last_so_at(
                name,
                name.len() - 3,
            ),
            CleanAction::Remove => false,
            CleanAction::Rename(len) => len < name.len() && last_so_at(name, len - 3),
        }
    }
}

/// Finds the last place of a file name at which `.so` stands.
pub fn find_last_so(name: &[u8]) -> (found: Option<usize>)
    ensures
        match found {
            Some(at) => last_so_at(name@, at as int),
            None => forall|at: int| !so_at(name@, at),
        },
{
    if name.len() < 3 {
        return None;
    }
    let mut at: usize = name.len() - 3;
    loop
        invariant
            at + 3 <= name.len(),
            forall|later: int| at < later ==> !so_at(name@, later),
        decreases at,
    {
        if name[at] == 0x2e && name[at + 1] == 0x73 && name[at + 2] == 0x6f {
            return Some(at);
        }
        if at == 0 {
            return None;
        }
        at = at - 1;
    }
}

/// Whether a file name is exactly `.debug`.
pub fn is_debug_file(name: &[u8]) -> (debug: bool)
    ensures
        debug == is_debug_name(name@),
{
    let debug = name.len() == 6 && name[0] == 0x2e && name[1] == 0x64 && name[2] == 0x65 && name[3]
        == 0x62 && name[4] == 0x75 && name[5] == 0x67;
    proof {
        let expected = seq![0x2eu8, 0x64u8, 0x65u8, 0x62u8, 0x75u8, 0x67u8];
        if debug {
            assert(name@ =~= expected);
        } else if name@ == expected {
            assert(expected.len() == 6);
            assert(expected[0] == 0x2e && expected[1] == 0x64 && expected[2] == 0x65
                && expected[3] == 0x62 && expected[4] == 0x75 && expected[5] == 0x67);
        }
    }
    debug
}

/// Decides what is done with a file of an unpacked archive, by its name.
pub fn clean_action(name: &[u8]) -> (action: CleanAction)
    ensures
        clean_action_of(name@, action),
{
    if is_debug_file(name) {
        CleanAction::Remove
    } else {
        let found = find_last_so(name);
        match found {
            None => CleanAction::Keep,
            Some(at) => {
                let len = name.len();
                if at + 3 == len {
                    CleanAction::Keep
                } else {
                    CleanAction::Rename(at + 3)
                }
            },
        }
    }
}

} // verus!
