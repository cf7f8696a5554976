//! Where a release artifact and its checksum are published.
use vstd::prelude::*;
use vstd::string::*;

verus! {

/// Project page under which releases are published.
pub const RELEASE_BASE: &'static str = "https://github.com/yuezk/GlobalProtect-openconnect";

/// Base name of the GUI artifact; the architecture label is appended to it.
pub const ARTIFACT_NAME: &'static str = "gpgui";

/// Which build line an update is taken from.
#[derive(Clone, Copy, Debug, PartialEq, Eq, Structural)]
pub enum ReleaseChannel {
    /// A tagged release: the tag is `v<version>`.
    Release,
    /// The rolling snapshot build, tagged `snapshot`.
    Snapshot,
}

impl ReleaseChannel {
    /// The channel a build follows: snapshot for non-production builds and for
    /// production builds made with the snapshot flag, release otherwise.
    pub fn from_build(debug_build: bool, snapshot_flag: bool) -> (r: ReleaseChannel)
        ensures
            r == (if debug_build || snapshot_flag {
                ReleaseChannel::Snapshot
            } else {
                ReleaseChannel::Release
            }),
    {
        if debug_build || snapshot_flag {
            ReleaseChannel::Snapshot
        } else {
            ReleaseChannel::Release
        }
    }
}

/// What is to be installed: a version, the channel it comes from, and the
/// instruction-set label of the running process.
pub struct UpdateTarget {
    pub version: String,
    pub channel: ReleaseChannel,
    pub arch: String,
}

/// The two URLs of one update: the artifact and its checksum file.
pub struct ArtifactLocation {
    pub artifact_url: String,
    pub checksum_url: String,
}

/// The release tag of a target.
pub open spec fn release_tag_of(version: Seq<char>, channel: ReleaseChannel) -> Seq<char> {
    match channel {
        ReleaseChannel::Snapshot => "snapshot"@,
        ReleaseChannel::Release => "v"@ + version,
    }
}

/// `<base>/releases/download/<tag>/<name>_<arch>.bin.tar.xz`
pub open spec fn artifact_url_of(version: Seq<char>, channel: ReleaseChannel, arch: Seq<char>) -> Seq<char> {
    RELEASE_BASE@ + "/releases/download/"@ + release_tag_of(version, channel) + "/"@
        + ARTIFACT_NAME@ + "_"@ + arch + ".bin.tar.xz"@
}

/// The checksum file sits beside the artifact, with a fixed suffix.
pub open spec fn checksum_url_of(artifact_url: Seq<char>) -> Seq<char> {
    artifact_url + ".sha256"@
}

impl UpdateTarget {
    pub open spec fn artifact_url_spec(&self) -> Seq<char> {
        artifact_url_of(self.version@, self.channel, self.arch@)
    }

    pub fn new(version: String, channel: ReleaseChannel, arch: String) -> (r: UpdateTarget)
        ensures
            r.version@ == version@,
            r.channel == channel,
            r.arch@ == arch@,
    {
        UpdateTarget { version, channel, arch }
    }

    /// The tag under which this target's build is published.
    pub fn release_tag(&self) -> (r: String)
        ensures
            r@ == release_tag_of(self.version@, self.channel),
    {
        match self.channel {
            ReleaseChannel::Snapshot => String::from_str("snapshot"),
            ReleaseChannel::Release => {
                let mut tag = String::from_str("v");
                tag.append(self.version.as_str());
                tag
            },
        }
    }

    /// Resolves the artifact and checksum URLs from the fixed template.
    pub fn location(&self) -> (r: ArtifactLocation)
        ensures
            r.artifact_url@ == self.artifact_url_spec(),
            r.checksum_url@ == checksum_url_of(self.artifact_url_spec()),
    {
        let tag = self.release_tag();
        let mut url = String::from_str(RELEASE_BASE);
        url.append("/releases/download/");
        url.append(tag.as_str());
        url.append("/");
        url.append(ARTIFACT_NAME);
        url.append("_");
        url.append(self.arch.as_str());
        url.append(".bin.tar.xz");
        let mut checksum_url = url.clone();
        checksum_url.append(".sha256");
        ArtifactLocation { artifact_url: url, checksum_url }
    }
}

/// The installer service's update endpoint under a discovered service root.
pub fn install_url(service_endpoint: &str) -> (r: String)
    ensures
        r@ == service_endpoint@ + "/update-gui"@,
{
    let mut url = String::from_str(service_endpoint);
    url.append("/update-gui");
    url
}

} // verus!
