//! The decisions of self-update: which release asset fits the running
//! platform, whether the latest release is newer than the running build,
//! and where the replacement files are staged.

use std::cmp::Ordering;
use vstd::prelude::*;

use crate::text::{normalized, str_eq};
use crate::trim_version;
use crate::version::{precedence, precedence_cmp, semver_parts, SemVer, VersionError};

verus! {

/// The operating system and processor pairs that releases are built for.
#[derive(Clone, Copy, Debug, PartialEq, Eq, Structural)]
pub enum Platform {
    LinuxX86_64,
    LinuxAarch64,
    MacosX86_64,
    MacosAarch64,
}

/// The platform of an operating system and architecture name, as Rust
/// names them (`"linux"`, `"x86_64"`), or `None` for any other pair.
pub open spec fn platform_of(os: Seq<char>, arch: Seq<char>) -> Option<Platform> {
    if os == "linux"@ && arch == "x86_64"@ {
        Some(Platform::LinuxX86_64)
    } else if os == "linux"@ && arch == "aarch64"@ {
        Some(Platform::LinuxAarch64)
    } else if os == "macos"@ && arch == "x86_64"@ {
        Some(Platform::MacosX86_64)
    } else if os == "macos"@ && arch == "aarch64"@ {
        Some(Platform::MacosAarch64)
    } else {
        None
    }
}

/// Why self-update stopped.
#[derive(Debug)]
pub enum SelfUpdateError {
    /// No release is built for this operating system and architecture.
    UnsupportedPlatform { os: String, arch: String },
    /// The running or the released version is not a semantic version.
    BadVersion(VersionError),
    /// The release has no asset for the running platform.
    NoAsset { platform: Platform },
}

impl Platform {
    /// Name of the release asset built for this platform.
    pub open spec fn asset(self) -> Seq<char> {
        match self {
            Platform::LinuxX86_64 => "uppies-linux-x86_64.tar.gz"@,
            Platform::LinuxAarch64 => "uppies-linux-aarch64.tar.gz"@,
            Platform::MacosX86_64 => "uppies-macos-x86_64.tar.gz"@,
            Platform::MacosAarch64 => "uppies-macos-aarch64.tar.gz"@,
        }
    }

    /// Name of the release asset built for this platform.
    pub fn asset_name(&self) -> (r: &'static str)
        ensures
            r@ == self.asset(),
    {
        match self {
            Platform::LinuxX86_64 => "uppies-linux-x86_64.tar.gz",
            Platform::LinuxAarch64 => "uppies-linux-aarch64.tar.gz",
            Platform::MacosX86_64 => "uppies-macos-x86_64.tar.gz",
            Platform::MacosAarch64 => "uppies-macos-aarch64.tar.gz",
        }
    }

    /// The platform for an operating system and architecture name; an
    /// unsupported pair is an error, never a guess.
    pub fn from_os_arch(os: &str, arch: &str) -> (r: Result<Platform, SelfUpdateError>)
        ensures
            match platform_of(os@, arch@) {
                Some(p) => r == Ok::<Platform, SelfUpdateError>(p),
                None => r matches Err(SelfUpdateError::UnsupportedPlatform { os: o, arch: a })
                    && o@ == os@ && a@ == arch@,
            },
    {
        let linux = str_eq(os, "linux");
        let macos = str_eq(os, "macos");
        let x86 = str_eq(arch, "x86_64");
        let arm = str_eq(arch, "aarch64");
        if linux && x86 {
            Ok(Platform::LinuxX86_64)
        } else if linux && arm {
            Ok(Platform::LinuxAarch64)
        } else if macos && x86 {
            Ok(Platform::MacosX86_64)
        } else if macos && arm {
            Ok(Platform::MacosAarch64)
        } else {
            Err(SelfUpdateError::UnsupportedPlatform { os: os.to_owned(), arch: arch.to_owned() })
        }
    }
}

/// A downloadable file attached to a release.
#[derive(Debug)]
pub struct Asset {
    pub name: String,
    pub browser_download_url: String,
}

/// The latest release: its tag and its assets, in the order listed.
#[derive(Debug)]
pub struct ReleaseInfo {
    pub version: String,
    pub assets: Vec<Asset>,
}

/// The version of this build.
pub open spec fn current_version() -> Seq<char> {
    "0.1.0"@
}

/// The version of this build.
pub fn get_current_version() -> (r: &'static str)
    ensures
        r@ == current_version(),
{
    "0.1.0"
}

/// Position of the first asset named `name`, or `None` where none is.
pub fn find_asset(assets: &Vec<Asset>, name: &str) -> (r: Option<usize>)
    ensures
        match r {
            Some(i) => i < assets@.len() && assets@[i as int].name@ == name@ && forall|j: int|
                0 <= j < i ==> #[trigger] assets@[j].name@ != name@,
            None => forall|j: int| 0 <= j < assets@.len() ==> #[trigger] assets@[j].name@ != name@,
        },
{
    let mut i: usize = 0;
    while i < assets.len()
        invariant
            i <= assets@.len(),
            forall|j: int| 0 <= j < i ==> #[trigger] assets@[j].name@ != name@,
        decreases assets@.len() - i,
    {
        if str_eq(assets[i].name.as_str(), name) {
            return Some(i);
        }
        i = i + 1;
    }
    None
}

/// How the running build stands against the latest release, both versions
/// normalised; `None` where either is not a semantic version.
pub open spec fn release_order(current: Seq<char>, tag: Seq<char>) -> Option<Ordering> {
    match (semver_parts(normalized(current)), semver_parts(normalized(tag))) {
        (Some(c), Some(l)) => Some(precedence(c, l)),
        _ => None,
    }
}

/// What self-update is to do.
#[derive(Debug)]
pub enum SelfUpdatePlan {
    /// The running build is the latest release.
    UpToDate,
    /// The running build is newer than the latest release: no downgrade.
    CurrentNewer,
    /// Download the asset at `url` and install it; `version` is the
    /// normalised release version.
    Install { version: String, url: String, platform: Platform },
}

/// Decides self-update from the running version `current`, the latest
/// release, and the running operating system and architecture. Nothing is
/// to be installed unless the running build precedes the release and the
/// release lists an asset for the platform; the platform is resolved only
/// then, and the first asset of the expected name is taken.
pub fn plan_self_update(current: &str, release: &ReleaseInfo, os: &str, arch: &str) -> (r: Result<
    SelfUpdatePlan,
    SelfUpdateError,
>)
    ensures
        match release_order(current@, release.version@) {
            None => r matches Err(SelfUpdateError::BadVersion(e)) && if semver_parts(
                normalized(current@),
            ) is None {
                e.text@ == normalized(current@)
            } else {
                e.text@ == normalized(release.version@)
            },
            Some(Ordering::Equal) => r == Ok::<SelfUpdatePlan, SelfUpdateError>(
                SelfUpdatePlan::UpToDate,
            ),
            Some(Ordering::Greater) => r == Ok::<SelfUpdatePlan, SelfUpdateError>(
                SelfUpdatePlan::CurrentNewer,
            ),
            Some(Ordering::Less) => match platform_of(os@, arch@) {
                None => r matches Err(SelfUpdateError::UnsupportedPlatform { os: o, arch: a })
                    && o@ == os@ && a@ == arch@,
                Some(p) => if exists|i: int|
                    0 <= i < release.assets@.len() && #[trigger] release.assets@[i].name@
                        == p.asset() {
                    r matches Ok(SelfUpdatePlan::Install { version, url, platform })
                        && platform == p && version@ == normalized(release.version@)
                        && exists|i: int|
                        0 <= i < release.assets@.len() && #[trigger] release.assets@[i].name@
                            == p.asset() && url@ == release.assets@[i].browser_download_url@
                            && forall|j: int|
                            0 <= j < i ==> #[trigger] release.assets@[j].name@ != p.asset()
                } else {
                    r == Err::<SelfUpdatePlan, SelfUpdateError>(
                        SelfUpdateError::NoAsset { platform: p },
                    )
                },
            },
        },
{
    let cur = match SemVer::parse(trim_version(current)) {
        Ok(v) => v,
        Err(e) => {
            return Err(SelfUpdateError::BadVersion(e));
        },
    };
    let tag = trim_version(release.version.as_str());
    let latest = match SemVer::parse(tag) {
        Ok(v) => v,
        Err(e) => {
            return Err(SelfUpdateError::BadVersion(e));
        },
    };
    match precedence_cmp(&cur, &latest) {
        Ordering::Equal => {
            return Ok(SelfUpdatePlan::UpToDate);
        },
        Ordering::Greater => {
            return Ok(SelfUpdatePlan::CurrentNewer);
        },
        Ordering::Less => {},
    }
    let platform = match Platform::from_os_arch(os, arch) {
        Ok(p) => p,
        Err(e) => {
            return Err(e);
        },
    };
    match find_asset(&release.assets, platform.asset_name()) {
        Some(i) => {
            let url = release.assets[i].browser_download_url.clone();
            Ok(SelfUpdatePlan::Install { version: tag.to_owned(), url, platform })
        },
        None => Err(SelfUpdateError::NoAsset { platform }),
    }
}

/// Paths used to replace an executable: the backup of the running one, and
/// the new one staged beside it, on the same file system.
#[derive(Debug)]
pub struct ReplacePaths {
    pub backup: String,
    pub staged: String,
}

/// `exe` followed by `suffix`.
pub fn with_suffix(exe: &str, suffix: &str) -> (r: String)
    ensures
        r@ == exe@ + suffix@,
{
    let mut s = exe.to_owned();
    s.append(suffix);
    s
}

/// The backup path `<exe>.backup` and the staging path `<exe>.new`.
pub fn replace_paths(exe: &str) -> (r: ReplacePaths)
    ensures
        r.backup@ == exe@ + ".backup"@,
        r.staged@ == exe@ + ".new"@,
{
    ReplacePaths { backup: with_suffix(exe, ".backup"), staged: with_suffix(exe, ".new") }
}

/// The file `name` inside the directory `dir`.
pub fn join_path(dir: &str, name: &str) -> (r: String)
    ensures
        r@ == dir@ + "/"@ + name@,
{
    let mut s = dir.to_owned();
    s.append("/");
    s.append(name);
    s
}

/// The address of the latest-release document of the repository `repo`
/// (`owner/name`).
pub fn release_api_url(repo: &str) -> (r: String)
    ensures
        r@ == "https://api.github.com/repos/"@ + repo@ + "/releases/latest"@,
{
    let mut s = "https://api.github.com/repos/".to_owned();
    s.append(repo);
    s.append("/releases/latest");
    s
}

} // verus!
