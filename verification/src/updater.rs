//! The rules of the self-update: which release is an update, which of its
//! files serve this platform, and whether a download has the checksum that
//! the release states.

use crate::beatmap::text_view;
use crate::mods::same_text;
use crate::text::{
    lemma_piece_len, lines, piece_len, without_cr, begins_with, chars_of, decimal, ends_with, finishes_with, is_text, lowercase_of, push_decimal,
    push_range, push_text, same_chars, split_words, string_of, to_lowercase, trim, trimmed, views,
    words,
};
use sha2::Digest;
use vstd::prelude::*;
use vstd::string::*;

verus! {

/// A file of a release.
#[derive(Debug, Clone, PartialEq)]
pub struct GitHubAsset {
    pub name: String,
    pub browser_download_url: String,
    pub size: u64,
}

/// A release as the hosting service describes it.
#[derive(Debug, Clone, PartialEq)]
pub struct GitHubRelease {
    pub tag_name: String,
    pub draft: bool,
    pub prerelease: bool,
    pub assets: Vec<GitHubAsset>,
}

/// A version number: three numbers, and the texts of its pre-release and
/// build parts, each empty where the version has none.
#[derive(Debug, Clone, PartialEq)]
pub struct Version {
    pub major: u64,
    pub minor: u64,
    pub patch: u64,
    pub pre: String,
    pub build: String,
}

/// A `Version` as mathematics.
pub struct VersionView {
    pub major: u64,
    pub minor: u64,
    pub patch: u64,
    pub pre: Seq<char>,
    pub build: Seq<char>,
}

impl View for Version {
    type V = VersionView;

    open spec fn view(&self) -> VersionView {
        VersionView {
            major: self.major,
            minor: self.minor,
            patch: self.patch,
            pre: self.pre@,
            build: self.build@,
        }
    }
}

/// An update that can be installed.
#[derive(Debug, Clone, PartialEq)]
pub struct ReleaseInfo {
    pub version: Version,
    pub tag_name: String,
    pub binary_url: String,
    pub binary_name: String,
    pub checksum_url: Option<String>,
    pub checksum_name: Option<String>,
    pub size: u64,
}

/// A `ReleaseInfo` as mathematics.
pub struct ReleaseInfoView {
    pub version: VersionView,
    pub tag_name: Seq<char>,
    pub binary_url: Seq<char>,
    pub binary_name: Seq<char>,
    pub checksum_url: Option<Seq<char>>,
    pub checksum_name: Option<Seq<char>>,
    pub size: u64,
}

impl View for ReleaseInfo {
    type V = ReleaseInfoView;

    open spec fn view(&self) -> ReleaseInfoView {
        ReleaseInfoView {
            version: self.version@,
            tag_name: self.tag_name@,
            binary_url: self.binary_url@,
            binary_name: self.binary_name@,
            checksum_url: text_view(self.checksum_url),
            checksum_name: text_view(self.checksum_name),
            size: self.size,
        }
    }
}

/// The ways in which an update can fail.
#[derive(Debug, Clone, PartialEq)]
pub enum UpdateError {
    Network(String),
    VersionParse(String),
    Io(String),
    ChecksumNotFound,
    ChecksumMismatch,
    UnsupportedPlatform,
    NoReleases,
    Restart(String),
    UserDeclined,
}

/// An `UpdateError` as mathematics.
pub enum UpdateErrorView {
    Network(Seq<char>),
    VersionParse(Seq<char>),
    Io(Seq<char>),
    ChecksumNotFound,
    ChecksumMismatch,
    UnsupportedPlatform,
    NoReleases,
    Restart(Seq<char>),
    UserDeclined,
}

impl View for UpdateError {
    type V = UpdateErrorView;

    open spec fn view(&self) -> UpdateErrorView {
        match self {
            UpdateError::Network(text) => UpdateErrorView::Network(text@),
            UpdateError::VersionParse(text) => UpdateErrorView::VersionParse(text@),
            UpdateError::Io(text) => UpdateErrorView::Io(text@),
            UpdateError::ChecksumNotFound => UpdateErrorView::ChecksumNotFound,
            UpdateError::ChecksumMismatch => UpdateErrorView::ChecksumMismatch,
            UpdateError::UnsupportedPlatform => UpdateErrorView::UnsupportedPlatform,
            UpdateError::NoReleases => UpdateErrorView::NoReleases,
            UpdateError::Restart(text) => UpdateErrorView::Restart(text@),
            UpdateError::UserDeclined => UpdateErrorView::UserDeclined,
        }
    }
}

/// The sentence that describes an update error to a person.
pub open spec fn update_error_text(error: UpdateErrorView) -> Seq<char> {
    match error {
        UpdateErrorView::Network(text) => "Network error: "@ + text,
        UpdateErrorView::VersionParse(text) => "Failed to parse version: "@ + text,
        UpdateErrorView::Io(text) => "IO error: "@ + text,
        UpdateErrorView::ChecksumNotFound => "Checksum not found for binary"@,
        UpdateErrorView::ChecksumMismatch => "Checksum verification failed"@,
        UpdateErrorView::UnsupportedPlatform => "No binary available for this platform"@,
        UpdateErrorView::NoReleases => "No releases found"@,
        UpdateErrorView::Restart(text) => "Failed to restart: "@ + text,
        UpdateErrorView::UserDeclined => "User declined update"@,
    }
}

impl UpdateError {
    /// The sentence that describes this error to a person.
    pub fn to_text(&self) -> (text: String)
        ensures
            text@ == update_error_text(self@),
    {
        match self {
            UpdateError::Network(reason) => String::from_str("Network error: ").concat(
                reason.as_str(),
            ),
            UpdateError::VersionParse(reason) => String::from_str(
                "Failed to parse version: ",
            ).concat(reason.as_str()),
            UpdateError::Io(reason) => String::from_str("IO error: ").concat(reason.as_str()),
            UpdateError::ChecksumNotFound => String::from_str("Checksum not found for binary"),
            UpdateError::ChecksumMismatch => String::from_str("Checksum verification failed"),
            UpdateError::UnsupportedPlatform => String::from_str(
                "No binary available for this platform",
            ),
            UpdateError::NoReleases => String::from_str("No releases found"),
            UpdateError::Restart(reason) => String::from_str("Failed to restart: ").concat(
                reason.as_str(),
            ),
            UpdateError::UserDeclined => String::from_str("User declined update"),
        }
    }
}

/// The platforms that releases are built for.
#[derive(Debug, Clone, Copy, PartialEq, Eq, Structural)]
pub enum Platform {
    Windows,
    Linux,
    /// Any platform without a build.
    Other,
}

/// How the name of this platform's file ends.
pub open spec fn platform_suffix(platform: Platform) -> Option<Seq<char>> {
    match platform {
        Platform::Windows => Some("windows-x86_64.exe"@),
        Platform::Linux => Some("linux-x86_64"@),
        Platform::Other => None,
    }
}

/// What `semver::Version::parse` makes of a text: the version that the text
/// writes, or the parser's complaint.
pub uninterp spec fn semver_parsed(text: Seq<char>) -> Result<VersionView, Seq<char>>;

/// Whether `a` comes behind `b` in the order of `semver::Version`.
pub uninterp spec fn semver_newer(a: VersionView, b: VersionView) -> bool;

/// The digest that SHA-256 gives for `bytes`.
pub uninterp spec fn sha256_of(bytes: Seq<u8>) -> Seq<u8>;

/// Whether the three numbers of `a` come before those of `b`, compared from
/// the left.
pub open spec fn numbers_lower(a: VersionView, b: VersionView) -> bool {
    ||| a.major < b.major
    ||| a.major == b.major && a.minor < b.minor
    ||| a.major == b.major && a.minor == b.minor && a.patch < b.patch
}

/// The view of a parsed version or of the complaint.
pub open spec fn parsed_view(r: Result<Version, String>) -> Result<VersionView, Seq<char>> {
    match r {
        Ok(v) => Ok(v@),
        Err(e) => Err(e@),
    }
}

/// The character that writes the hexadecimal digit `d` in lower case.
pub open spec fn hex_digit_char(d: int) -> char {
    if d < 10 {
        (48 + d) as char
    } else {
        (87 + d) as char
    }
}

/// `bytes` in hexadecimal: two digits in lower case for each byte, the high
/// half first.
pub open spec fn hex_text(bytes: Seq<u8>) -> Seq<char> {
    Seq::new(
        2 * bytes.len(),
        |i: int|
            hex_digit_char(
                if i % 2 == 0 {
                    bytes[i / 2] as int / 16
                } else {
                    bytes[i / 2] as int % 16
                },
            ),
    )
}

/// Parses a version with `semver::Version::parse` and copies its five parts
/// out; a text that is no version yields the parser's complaint. The result
/// is a function of the text alone.
#[verifier::external_body]
fn parse_semver(text: &str) -> (r: Result<Version, String>)
    ensures
        parsed_view(r) == semver_parsed(text@),
{
    match semver::Version::parse(text) {
        Ok(v) => Ok(
            Version {
                major: v.major,
                minor: v.minor,
                patch: v.patch,
                pre: v.pre.as_str().to_string(),
                build: v.build.as_str().to_string(),
            },
        ),
        Err(e) => Err(e.to_string()),
    }
}

/// Compares two versions with the `>` of `semver::Version`, which orders by
/// the three numbers from the left and only then by the pre-release and
/// build parts.
#[verifier::external_body]
fn is_newer(a: &Version, b: &Version) -> (newer: bool)
    ensures
        newer == semver_newer(a@, b@),
        numbers_lower(b@, a@) ==> newer,
        numbers_lower(a@, b@) ==> !newer,
{
    let mut left = semver::Version::new(a.major, a.minor, a.patch);
    left.pre = semver::Prerelease::new(&a.pre).unwrap_or_default();
    left.build = semver::BuildMetadata::new(&a.build).unwrap_or_default();
    let mut right = semver::Version::new(b.major, b.minor, b.patch);
    right.pre = semver::Prerelease::new(&b.pre).unwrap_or_default();
    right.build = semver::BuildMetadata::new(&b.build).unwrap_or_default();
    left > right
}

/// Hashes `bytes` with `sha2::Sha256`; the digest has 32 bytes and is a
/// function of the bytes alone.
#[verifier::external_body]
fn sha256(bytes: &[u8]) -> (digest: Vec<u8>)
    ensures
        digest@ == sha256_of(bytes@),
        digest@.len() == 32,
{
    sha2::Sha256::digest(bytes).to_vec()
}

/// Writes `bytes` in hexadecimal with `hex::encode`: two digits in lower
/// case for each byte.
#[verifier::external_body]
fn hex_encode(bytes: &Vec<u8>) -> (text: String)
    ensures
        text@ == hex_text(bytes@),
{
    hex::encode(bytes)
}

/// The text of a version tag without the `v` that may stand in front.
pub open spec fn without_v(tag: Seq<char>) -> Seq<char> {
    if tag.len() > 0 && tag[0] == 'v' {
        tag.drop_first()
    } else {
        tag
    }
}

/// What reading a version tag yields: the version behind an optional `v`,
/// or the error that it is none.
pub open spec fn version_of_tag(tag: Seq<char>) -> Result<VersionView, UpdateErrorView> {
    match semver_parsed(without_v(tag)) {
        Ok(v) => Ok(v),
        Err(text) => Err(UpdateErrorView::VersionParse(text)),
    }
}

/// Reads a version tag: a version with an optional `v` in front.
pub fn parse_version(version_str: &str) -> (r: Result<Version, UpdateError>)
    ensures
        match r {
            Ok(v) => version_of_tag(version_str@) == Ok::<VersionView, UpdateErrorView>(v@),
            Err(e) => version_of_tag(version_str@) == Err::<VersionView, UpdateErrorView>(e@),
        },
{
    let chars = chars_of(version_str);
    let mut clean: Vec<char> = Vec::new();
    if chars.len() > 0 && chars[0] == 'v' {
        push_range(&mut clean, &chars, 1, chars.len());
        assert(clean@ =~= without_v(version_str@));
    } else {
        push_range(&mut clean, &chars, 0, chars.len());
        assert(clean@ =~= without_v(version_str@));
    }
    match parse_semver(string_of(&clean).as_str()) {
        Ok(v) => Ok(v),
        Err(text) => Err(UpdateError::VersionParse(text)),
    }
}

/// The text that writes a version: the three numbers with dots between
/// them, the pre-release part behind a hyphen, the build part behind a plus
/// sign.
pub open spec fn version_text(v: VersionView) -> Seq<char> {
    let numbers = decimal(v.major as nat) + seq!['.'] + decimal(v.minor as nat) + seq!['.']
        + decimal(v.patch as nat);
    let with_pre = if v.pre.len() > 0 {
        numbers + seq!['-'] + v.pre
    } else {
        numbers
    };
    if v.build.len() > 0 {
        with_pre + seq!['+'] + v.build
    } else {
        with_pre
    }
}

impl Version {
    /// The text that writes this version.
    pub fn to_text(&self) -> (text: String)
        ensures
            text@ == version_text(self@),
    {
        let mut out: Vec<char> = Vec::new();
        push_decimal(&mut out, self.major);
        out.push('.');
        push_decimal(&mut out, self.minor);
        out.push('.');
        push_decimal(&mut out, self.patch);
        let pre = chars_of(self.pre.as_str());
        if pre.len() > 0 {
            out.push('-');
            push_range(&mut out, &pre, 0, pre.len());
            assert(pre@.subrange(0, pre@.len() as int) =~= pre@);
        }
        let build = chars_of(self.build.as_str());
        if build.len() > 0 {
            out.push('+');
            push_range(&mut out, &build, 0, build.len());
            assert(build@.subrange(0, build@.len() as int) =~= build@);
        }
        assert(out@ =~= version_text(self@));
        string_of(&out)
    }
}

/// Entry `i` is the first file of the release whose name ends with
/// `suffix`.
pub open spec fn is_first_ending(assets: Seq<GitHubAsset>, suffix: Seq<char>, i: int) -> bool {
    &&& 0 <= i < assets.len()
    &&& finishes_with(assets[i].name@, suffix)
    &&& forall|j: int| 0 <= j < i ==> !finishes_with((#[trigger] assets[j]).name@, suffix)
}

/// Entry `i` is the first file of the release with the name `name`.
pub open spec fn is_first_named(assets: Seq<GitHubAsset>, name: Seq<char>, i: int) -> bool {
    &&& 0 <= i < assets.len()
    &&& assets[i].name@ == name
    &&& forall|j: int| 0 <= j < i ==> (#[trigger] assets[j]).name@ != name
}

/// The file of a release that is built for `platform`: the first whose name
/// ends as the platform's files do.
pub fn get_platform_asset(release: &GitHubRelease, platform: Platform) -> (found: Option<usize>)
    ensures
        match found {
            Some(i) => platform_suffix(platform) is Some && is_first_ending(
                release.assets@,
                platform_suffix(platform)->0,
                i as int,
            ),
            None => match platform_suffix(platform) {
                Some(suffix) => forall|j: int|
                    0 <= j < release.assets.len() ==> !finishes_with(
                        (#[trigger] release.assets[j]).name@,
                        suffix,
                    ),
                None => true,
            },
        },
{
    let suffix = match platform {
        Platform::Windows => chars_of("windows-x86_64.exe"),
        Platform::Linux => chars_of("linux-x86_64"),
        Platform::Other => {
            return None;
        },
    };
    let mut i: usize = 0;
    while i < release.assets.len()
        invariant
            i <= release.assets.len(),
            platform_suffix(platform) == Some(suffix@),
            forall|j: int|
                0 <= j < i ==> !finishes_with((#[trigger] release.assets[j]).name@, suffix@),
        decreases release.assets.len() - i,
    {
        let name = chars_of(release.assets[i].name.as_str());
        if ends_with(&name, &suffix) {
            return Some(i);
        }
        i += 1;
    }
    None
}

/// The file of a release that holds the checksum of the file `binary_name`:
/// the first that is named like it with `.sha256` behind.
pub fn get_checksum_asset(release: &GitHubRelease, binary_name: &str) -> (found: Option<usize>)
    ensures
        match found {
            Some(i) => is_first_named(release.assets@, binary_name@ + ".sha256"@, i as int),
            None => forall|j: int|
                0 <= j < release.assets.len() ==> (#[trigger] release.assets[j]).name@
                    != binary_name@ + ".sha256"@,
        },
{
    let mut wanted: Vec<char> = Vec::new();
    push_text(&mut wanted, binary_name);
    push_text(&mut wanted, ".sha256");
    assert(wanted@ =~= binary_name@ + ".sha256"@);
    let mut i: usize = 0;
    while i < release.assets.len()
        invariant
            i <= release.assets.len(),
            wanted@ == binary_name@ + ".sha256"@,
            forall|j: int| 0 <= j < i ==> (#[trigger] release.assets[j]).name@ != wanted@,
        decreases release.assets.len() - i,
    {
        let name = chars_of(release.assets[i].name.as_str());
        if same_chars(&name, &wanted) {
            return Some(i);
        }
        i += 1;
    }
    None
}

/// Whether the program looks for updates: only where a source of releases
/// is configured, and unless the user switched it off.
pub fn is_auto_update_enabled(source_configured: bool, setting: Option<bool>) -> (enabled: bool)
    ensures
        enabled == (source_configured && match setting {
            Some(chosen) => chosen,
            None => true,
        }),
{
    source_configured && match setting {
        Some(chosen) => chosen,
        None => true,
    }
}

/// Records whether the user wants updates. The first record stands: a later
/// one changes nothing.
pub fn set_auto_update_enabled(slot: &mut Option<bool>, enabled: bool)
    ensures
        *final(slot) == match *old(slot) {
            Some(first) => Some(first),
            None => Some(enabled),
        },
{
    if slot.is_none() {
        *slot = Some(enabled);
    }
}

/// What is to be done about a release, the versions being read already:
/// nothing for a draft and for a release that is not newer than the running
/// program; an error where no file serves this platform; else the update
/// with its file and, where the release has one, the file of its checksum.
pub open spec fn update_for(
    release: GitHubRelease,
    remote: VersionView,
    newer: bool,
    binary: Option<int>,
    checksum: Option<int>,
) -> Result<Option<ReleaseInfoView>, UpdateErrorView> {
    if !newer {
        Ok(None)
    } else {
        match binary {
            None => Err(UpdateErrorView::UnsupportedPlatform),
            Some(b) => Ok(
                Some(
                    ReleaseInfoView {
                        version: remote,
                        tag_name: release.tag_name@,
                        binary_url: release.assets[b].browser_download_url@,
                        binary_name: release.assets[b].name@,
                        checksum_url: match checksum {
                            Some(c) => Some(release.assets[c].browser_download_url@),
                            None => None,
                        },
                        checksum_name: match checksum {
                            Some(c) => Some(release.assets[c].name@),
                            None => None,
                        },
                        size: release.assets[b].size,
                    },
                ),
            ),
        }
    }
}

/// The view of what was decided about a release.
pub open spec fn decision_view(r: Result<Option<ReleaseInfo>, UpdateError>) -> Result<
    Option<ReleaseInfoView>,
    UpdateErrorView,
> {
    match r {
        Ok(Some(info)) => Ok(Some(info@)),
        Ok(None) => Ok(None),
        Err(e) => Err(e@),
    }
}

/// Decides what is to be done about the latest release, `current` being the
/// version of the running program. A draft is no update. A tag or a current
/// version that is no version is an error. A release that is not newer than
/// the running program is no update. A newer release without a file for
/// this platform is an error.
pub fn select_update(release: &GitHubRelease, current: &str, platform: Platform) -> (r: Result<
    Option<ReleaseInfo>,
    UpdateError,
>)
    ensures
        release.draft ==> decision_view(r) == Ok::<Option<ReleaseInfoView>, UpdateErrorView>(None),
        !release.draft ==> match (version_of_tag(release.tag_name@), version_of_tag(current@)) {
            (Err(e), _) => decision_view(r) == Err::<Option<ReleaseInfoView>, UpdateErrorView>(e),
            (Ok(_), Err(e)) => decision_view(r) == Err::<Option<ReleaseInfoView>, UpdateErrorView>(
                e,
            ),
            (Ok(remote), Ok(running)) => {
                if !semver_newer(remote, running) {
                    decision_view(r) == Ok::<Option<ReleaseInfoView>, UpdateErrorView>(None)
                } else {
                    match platform_suffix(platform) {
                        None => decision_view(r) == Err::<
                            Option<ReleaseInfoView>,
                            UpdateErrorView,
                        >(UpdateErrorView::UnsupportedPlatform),
                        Some(suffix) => {
                            if forall|j: int|
                                0 <= j < release.assets.len() ==> !finishes_with(
                                    (#[trigger] release.assets[j]).name@,
                                    suffix,
                                ) {
                                decision_view(r) == Err::<Option<ReleaseInfoView>, UpdateErrorView>(
                                    UpdateErrorView::UnsupportedPlatform,
                                )
                            } else {
                                exists|b: int, c: Option<int>|
                                    {
                                        &&& is_first_ending(release.assets@, suffix, b)
                                        &&& match c {
                                            Some(i) => is_first_named(
                                                release.assets@,
                                                release.assets[b].name@ + ".sha256"@,
                                                i,
                                            ),
                                            None => forall|j: int|
                                                0 <= j < release.assets.len() ==> (
                                                #[trigger] release.assets[j]).name@
                                                    != release.assets[b].name@ + ".sha256"@,
                                        }
                                        &&& decision_view(r) == update_for(
                                            *release,
                                            remote,
                                            true,
                                            Some(b),
                                            c,
                                        )
                                    }
                            }
                        },
                    }
                }
            },
        },
{
    if release.draft {
        return Ok(None);
    }
    let remote = parse_version(release.tag_name.as_str())?;
    let running = parse_version(current)?;
    if !is_newer(&remote, &running) {
        return Ok(None);
    }
    let b = match get_platform_asset(release, platform) {
        Some(b) => b,
        None => {
            return Err(UpdateError::UnsupportedPlatform);
        },
    };
    let binary = &release.assets[b];
    let c = get_checksum_asset(release, binary.name.as_str());
    let (checksum_url, checksum_name) = match c {
        Some(i) => (
            Some(release.assets[i].browser_download_url.clone()),
            Some(release.assets[i].name.clone()),
        ),
        None => (None, None),
    };
    let info = ReleaseInfo {
        version: remote,
        tag_name: release.tag_name.clone(),
        binary_url: binary.browser_download_url.clone(),
        binary_name: binary.name.clone(),
        checksum_url,
        checksum_name,
        size: binary.size,
    };
    proof {
        let ci: Option<int> = match c {
            Some(i) => Some(i as int),
            None => None,
        };
        assert(info@ == update_for(*release, remote@, true, Some(b as int), ci)->Ok_0->0);
    }
    Ok(Some(info))
}

/// The checksum that the first fitting line of `rows` states for the file
/// `filename`: a line fits where its second word is the file's name, and
/// its first word, in lower case, is the checksum.
pub open spec fn checksum_among(rows: Seq<Seq<char>>, filename: Seq<char>) -> Option<Seq<char>>
    decreases rows.len(),
{
    if rows.len() == 0 {
        None
    } else {
        let parts = words(rows[0]);
        if parts.len() >= 2 && parts[1] == filename {
            Some(lowercase_of(parts[0]))
        } else {
            checksum_among(rows.drop_first(), filename)
        }
    }
}

/// Finds the checksum that a checksum file states for the file `filename`.
pub fn parse_checksum_file(content: &str, filename: &str) -> (checksum: Option<String>)
    ensures
        text_view(checksum) == checksum_among(lines(content@), filename@),
{
    let s = chars_of(content);
    let wanted = chars_of(filename);
    let n: usize = s.len();
    let mut start: usize = 0;
    proof {
        assert(s@.subrange(0, n as int) =~= s@);
    }
    while start < n
        invariant
            start <= n,
            n == s.len(),
            s@ == content@,
            wanted@ == filename@,
            checksum_among(lines(s@.subrange(start as int, n as int)), filename@)
                == checksum_among(lines(content@), filename@),
        decreases n - start,
    {
        let ghost rest = s@.subrange(start as int, n as int);
        let mut end: usize = start;
        while end < n && s[end] != '\n'
            invariant
                start <= end <= n,
                n == s.len(),
                forall|k: int| start <= k < end ==> #[trigger] s@[k] != '\n',
            decreases n - end,
        {
            end += 1;
        }
        proof {
            assert forall|k: int| 0 <= k < end - start implies #[trigger] rest[k] != '\n' by {
                assert(rest[k] == s@[start + k]);
            }
            if end < n {
                assert(rest[end - start] == s@[end as int]);
            }
            lemma_piece_len(rest, '\n', end - start);
            assert(rest.subrange(0, end - start) =~= s@.subrange(start as int, end as int));
        }
        let stop: usize = if end < n && end > start && s[end - 1] == '\r' {
            end - 1
        } else {
            end
        };
        let mut line: Vec<char> = Vec::new();
        push_range(&mut line, &s, start, stop);
        proof {
            let raw = s@.subrange(start as int, end as int);
            if end < n {
                assert(line@ =~= without_cr(raw));
                assert(rest.subrange(end - start + 1, rest.len() as int) =~= s@.subrange(
                    end + 1,
                    n as int,
                ));
                assert(lines(rest) =~= seq![without_cr(raw)] + lines(
                    s@.subrange(end + 1, n as int),
                ));
                assert(lines(rest)[0] == line@);
                assert(lines(rest).drop_first() =~= lines(s@.subrange(end + 1, n as int)));
            } else {
                assert(line@ =~= rest);
                assert(lines(rest) =~= seq![rest]);
                assert(lines(rest).drop_first() =~= Seq::<Seq<char>>::empty());
            }
        }
        let parts = split_words(&line);
        if parts.len() >= 2 && same_chars(&parts[1], &wanted) {
            assert(views(parts@)[1] == parts@[1]@);
            assert(views(parts@)[0] == parts@[0]@);
            let first = string_of(&parts[0]);
            return Some(to_lowercase(first.as_str()));
        }
        proof {
            if parts.len() >= 2 {
                assert(views(parts@)[1] == parts@[1]@);
            }
        }
        if end >= n {
            proof {
                assert(lines(rest)[0] == line@);
                assert(checksum_among(lines(rest).drop_first(), filename@) is None);
            }
            return None;
        }
        start = end + 1;
    }
    proof {
        assert(s@.subrange(n as int, n as int) =~= Seq::<char>::empty());
    }
    None
}

/// The SHA-256 checksum of `bytes`, in hexadecimal.
pub fn calculate_sha256(bytes: &[u8]) -> (checksum: String)
    ensures
        checksum@ == hex_text(sha256_of(bytes@)),
{
    let digest = sha256(bytes);
    hex_encode(&digest)
}

/// Whether two checksums are the same, whatever the case of their letters.
pub fn same_checksum(actual: &str, expected: &str) -> (same: bool)
    ensures
        same == (lowercase_of(actual@) == lowercase_of(expected@)),
{
    let a = to_lowercase(actual);
    let b = to_lowercase(expected);
    same_text(&a, &b)
}

/// Whether `bytes` have the checksum `expected_hash`.
pub fn verify_checksum(bytes: &[u8], expected_hash: &str) -> (verified: bool)
    ensures
        verified == (lowercase_of(hex_text(sha256_of(bytes@))) == lowercase_of(expected_hash@)),
{
    let actual = calculate_sha256(bytes);
    same_checksum(actual.as_str(), expected_hash)
}

/// Whether an answer to a yes-or-no question, in lower case and without
/// white space around it, says yes: nothing at all, `y` and `yes` do.
pub open spec fn says_yes(answer: Seq<char>) -> bool {
    answer.len() == 0 || answer == "y"@ || answer == "yes"@
}

/// Whether an answer that is already in lower case and without white space
/// around it says yes.
pub fn is_yes(answer: &str) -> (yes: bool)
    ensures
        yes == says_yes(answer@),
{
    let word = chars_of(answer);
    word.len() == 0 || is_text(&word, "y") || is_text(&word, "yes")
}

/// Whether what the user typed says yes: white space around it and the case
/// of its letters do not count.
pub fn accepts(input: &str) -> (yes: bool)
    ensures
        yes == says_yes(lowercase_of(trimmed(input@))),
{
    let tidy = trim(&chars_of(input));
    let lower = to_lowercase(string_of(&tidy).as_str());
    is_yes(lower.as_str())
}

} // verus!
