//! Setting a host up for sandboxes: installing the container runtime and starting it.

use crate::apple::capabilities::MacOsCapabilities;
use crate::codec::{lossy_text, utf8_lossy};
use crate::text::{
    cat2, cat3, cat5, ends, ends_with, first_word, lowercase, opt_view, same, same_ignoring_case,
    starts, strip_prefix, take_first_word, without_prefix,
};
use vstd::prelude::*;

verus! {

/// A release of the container runtime.
#[derive(Debug, Clone, PartialEq, Eq)]
pub struct GitHubRelease {
    pub tag_name: String,
    pub assets: Vec<GitHubAsset>,
}

/// A file of a release.
#[derive(Debug, Clone, PartialEq, Eq)]
pub struct GitHubAsset {
    pub name: String,
    pub browser_download_url: String,
    pub digest: Option<String>,
}

/// The first file that is a signed installer; the number of files where there is none.
pub open spec fn signed_pkg_at(assets: Seq<GitHubAsset>) -> int
    decreases assets.len(),
{
    if assets.len() == 0 || ends(assets[0].name@, "installer-signed.pkg"@) {
        0
    } else {
        1 + signed_pkg_at(assets.subrange(1, assets.len() as int))
    }
}

pub fn pick_signed_pkg_asset(release: &GitHubRelease) -> (r: Option<&GitHubAsset>)
    ensures
        match r {
            Some(asset) => signed_pkg_at(release.assets@) < release.assets@.len() && *asset
                == release.assets@[signed_pkg_at(release.assets@)],
            None => signed_pkg_at(release.assets@) == release.assets@.len(),
        },
{
    let ghost all = release.assets@;
    let mut i: usize = 0;
    assert(all.subrange(0, all.len() as int) =~= all);
    while i < release.assets.len()
        invariant
            all == release.assets@,
            i <= release.assets.len(),
            signed_pkg_at(all) == i + signed_pkg_at(all.subrange(i as int, all.len() as int)),
        decreases release.assets.len() - i,
    {
        let ghost rest = all.subrange(i as int, all.len() as int);
        assert(rest[0] == all[i as int]);
        if ends_with(release.assets[i].name.as_str(), "installer-signed.pkg") {
            return Some(&release.assets[i]);
        }
        assert(rest.subrange(1, rest.len() as int) =~= all.subrange(i + 1, all.len() as int));
        i = i + 1;
    }
    None
}

/// The installer that is picked is signed, by its name.
pub proof fn picked_installers_are_signed(assets: Seq<GitHubAsset>)
    ensures
        0 <= signed_pkg_at(assets) <= assets.len(),
        signed_pkg_at(assets) < assets.len() ==> ends(
            assets[signed_pkg_at(assets)].name@,
            "installer-signed.pkg"@,
        ),
        forall|i: int|
            0 <= i < signed_pkg_at(assets) ==> !ends(
                (#[trigger] assets[i]).name@,
                "installer-signed.pkg"@,
            ),
    decreases assets.len(),
{
    if assets.len() > 0 && !ends(assets[0].name@, "installer-signed.pkg"@) {
        let rest = assets.subrange(1, assets.len() as int);
        picked_installers_are_signed(rest);
        assert forall|i: int| 0 <= i < signed_pkg_at(assets) implies !ends(
            (#[trigger] assets[i]).name@,
            "installer-signed.pkg"@,
        ) by {
            if i > 0 {
                assert(rest[i - 1] == assets[i]);
            }
        }
    }
}

/// The checksum of a file, where its digest is a SHA-256.
pub open spec fn sha256_of(digest: Option<Seq<char>>) -> Option<Seq<char>> {
    match digest {
        Some(d) => if starts(d, "sha256:"@) {
            Some(without_prefix(d, "sha256:"@))
        } else {
            None
        },
        None => None,
    }
}

/// What is wrong with the host, where it cannot be set up.
pub open spec fn host_complaint(os: Seq<char>, caps: MacOsCapabilities) -> Option<Seq<char>> {
    if os != "macos"@ {
        Some("`hyperbox setup` currently supports macOS only"@)
    } else if !caps.is_apple_silicon {
        Some("Apple backend requires Apple Silicon host"@)
    } else if caps.major_version < 26 {
        Some("Apple Containerization runtime requires macOS 26+; detected "@ + caps.version@)
    } else {
        None
    }
}

pub fn check_setup_host(os: &str, caps: &MacOsCapabilities) -> (r: Result<(), String>)
    ensures
        match host_complaint(os@, *caps) {
            Some(m) => r matches Err(e) && e@ == m,
            None => r is Ok,
        },
{
    if !same(os, "macos") {
        return Err("`hyperbox setup` currently supports macOS only".to_owned());
    }
    if !caps.is_apple_silicon {
        return Err("Apple backend requires Apple Silicon host".to_owned());
    }
    if caps.major_version < 26 {
        return Err(
            cat2(
                "Apple Containerization runtime requires macOS 26+; detected ",
                caps.version.as_str(),
            ),
        );
    }
    Ok(())
}

/// Whether the output of `shasum` shows the checksum that is expected.
pub fn check_shasum(stdout: &[u8], expected: &str, path: &str) -> (r: Result<(), String>)
    ensures
        ({
            let actual = first_word(utf8_lossy(stdout@));
            if actual.len() == 0 {
                r matches Err(m) && m@ == "unexpected shasum output"@
            } else if lowercase(actual) == lowercase(expected@) {
                r is Ok
            } else {
                r matches Err(m) && m@ == "checksum mismatch: expected "@ + expected@ + ", got "@
                    + actual + " for "@ + path@
            }
        }),
{
    let text = lossy_text(stdout);
    let actual = take_first_word(text.as_str());
    if actual.as_str().is_empty() {
        return Err("unexpected shasum output".to_owned());
    }
    if same_ignoring_case(actual.as_str(), expected) {
        return Ok(());
    }
    let mut m = cat5("checksum mismatch: expected ", expected, ", got ", actual.as_str(), " for ");
    m.push_str(path);
    Err(m)
}

/// What setting up asks for next.
#[derive(Debug, Clone, PartialEq, Eq)]
pub enum SetupStep {
    /// Find out whether the container program is installed.
    LookForContainer,
    /// Ask which release is the latest.
    FetchRelease,
    /// Download this to the installer file of this tag.
    Download { url: String, tag: String },
    /// Compare the installer's checksum with this one.
    Verify(String),
    /// Run the installer.
    Install,
    /// Start the runtime and check that it runs.
    StartRuntime,
    /// All is done.
    Finished,
    /// Setting up failed.
    Failed(String),
    /// The answer is not to what was asked.
    Stray,
}

/// What came of a step.
#[derive(Debug, Clone, PartialEq, Eq)]
pub enum SetupEvent {
    ContainerFound(bool),
    Release(GitHubRelease),
    Completed,
    Broke(String),
}

/// How far setting up has come.
#[derive(Debug, Clone, PartialEq, Eq)]
pub enum Setup {
    Looking,
    Fetching,
    Downloading(Option<String>),
    Verifying,
    Installing,
    Starting,
    Over,
}

impl Setup {
    pub fn begin(os: &str, caps: &MacOsCapabilities) -> (r: (Self, SetupStep))
        ensures
            match host_complaint(os@, *caps) {
                Some(m) => r.0 is Over && (r.1 matches SetupStep::Failed(e) && e@ == m),
                None => r.0 is Looking && r.1 is LookForContainer,
            },
    {
        match check_setup_host(os, caps) {
            Ok(()) => (Setup::Looking, SetupStep::LookForContainer),
            Err(m) => (Setup::Over, SetupStep::Failed(m)),
        }
    }

    /// What an event leads to. Only a signed installer is downloaded, and where its checksum
    /// is known it is compared before the installer runs.
    pub open spec fn follows(self, event: SetupEvent, next: Self, step: SetupStep) -> bool {
        match (self, event) {
            (Setup::Over, _) => next is Over && step is Stray,
            (_, SetupEvent::Broke(m)) => next is Over && step == SetupStep::Failed(m),
            (Setup::Looking, SetupEvent::ContainerFound(true)) => next is Starting
                && step is StartRuntime,
            (Setup::Looking, SetupEvent::ContainerFound(false)) => next is Fetching
                && step is FetchRelease,
            (Setup::Fetching, SetupEvent::Release(release)) => {
                let k = signed_pkg_at(release.assets@);
                if k < release.assets@.len() {
                    let asset = release.assets@[k];
                    &&& next matches Setup::Downloading(sum)
                    &&& opt_view(sum) == sha256_of(opt_view(asset.digest))
                    &&& step matches SetupStep::Download { url, tag }
                    &&& url@ == asset.browser_download_url@
                    &&& tag@ == release.tag_name@
                } else {
                    &&& next is Over
                    &&& step matches SetupStep::Failed(m)
                    &&& m@ == "latest apple/container release has no signed installer pkg"@
                }
            },
            (Setup::Downloading(Some(sum)), SetupEvent::Completed) => next is Verifying && step
                == SetupStep::Verify(sum),
            (Setup::Downloading(None), SetupEvent::Completed) => next is Installing
                && step is Install,
            (Setup::Verifying, SetupEvent::Completed) => next is Installing && step is Install,
            (Setup::Installing, SetupEvent::Completed) => next is Starting && step is StartRuntime,
            (Setup::Starting, SetupEvent::Completed) => next is Over && step is Finished,
            _ => next == self && step is Stray,
        }
    }

    pub fn resume(self, event: SetupEvent) -> (r: (Self, SetupStep))
        ensures
            self.follows(event, r.0, r.1),
    {
        match (self, event) {
            (Setup::Over, _) => (Setup::Over, SetupStep::Stray),
            (_, SetupEvent::Broke(m)) => (Setup::Over, SetupStep::Failed(m)),
            (Setup::Looking, SetupEvent::ContainerFound(true)) => (
                Setup::Starting,
                SetupStep::StartRuntime,
            ),
            (Setup::Looking, SetupEvent::ContainerFound(false)) => (
                Setup::Fetching,
                SetupStep::FetchRelease,
            ),
            (Setup::Fetching, SetupEvent::Release(release)) => {
                match pick_signed_pkg_asset(&release) {
                    Some(asset) => {
                        let sum = match &asset.digest {
                            Some(d) => strip_prefix(d.as_str(), "sha256:"),
                            None => None,
                        };
                        let url = asset.browser_download_url.clone();
                        let tag = release.tag_name.clone();
                        (Setup::Downloading(sum), SetupStep::Download { url, tag })
                    },
                    None => (
                        Setup::Over,
                        SetupStep::Failed(
                            "latest apple/container release has no signed installer pkg".to_owned(),
                        ),
                    ),
                }
            },
            (Setup::Downloading(Some(sum)), SetupEvent::Completed) => (
                Setup::Verifying,
                SetupStep::Verify(sum),
            ),
            (Setup::Downloading(None), SetupEvent::Completed) => (
                Setup::Installing,
                SetupStep::Install,
            ),
            (Setup::Verifying, SetupEvent::Completed) => (Setup::Installing, SetupStep::Install),
            (Setup::Installing, SetupEvent::Completed) => (
                Setup::Starting,
                SetupStep::StartRuntime,
            ),
            (Setup::Starting, SetupEvent::Completed) => (Setup::Over, SetupStep::Finished),
            (op, _) => (op, SetupStep::Stray),
        }
    }
}

/// An installer whose checksum is known runs only after the checksum was found right.
pub proof fn installers_are_verified_first(
    op: Setup,
    event: SetupEvent,
    next: Setup,
    step: SetupStep,
)
    requires
        op.follows(event, next, step),
    ensures
        step is Install ==> op is Verifying || op == Setup::Downloading(None),
        step is Install ==> event is Completed,
{
}

/// The name of the installer file of a release.
pub fn installer_name(tag: &str) -> (r: String)
    ensures
        r@ == "container-"@ + tag@ + "-installer-signed.pkg"@,
{
    cat3("container-", tag, "-installer-signed.pkg")
}

/// A host can be set up if and only if it is a Mac with Apple silicon and macOS 26 or later. A
/// digest gives a checksum if and only if it says that it is a SHA-256.
pub proof fn hosts_are_set_up_where_containers_run(
    os: Seq<char>,
    caps: MacOsCapabilities,
    sum: Seq<char>,
)
    ensures
        host_complaint(os, caps) is None <==> os == "macos"@ && caps.is_apple_silicon
            && caps.major_version >= 26,
        sha256_of(Some("sha256:"@ + sum)) == Some(sum),
        sha256_of(None) is None,
{
    let digest = "sha256:"@ + sum;
    let n = "sha256:"@.len() as int;
    assert(digest.subrange(0, n) =~= "sha256:"@);
    assert(without_prefix(digest, "sha256:"@) =~= sum);
}

} // verus!
