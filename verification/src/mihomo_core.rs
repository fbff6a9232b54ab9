//! The mihomo core: comparing its version with the latest release, choosing
//! the release asset for the machine's architecture, reading its version
//! output, and what `core install` reports.
use vstd::prelude::*;
use vstd::string::StringExecFns;
use crate::i18n::{message_text, Language, Message};
use crate::lines::{lines, split_lines, views};
use crate::paths::display_path;
use crate::text::{
    ascii_lowercase, concat2, concat3, concat4, concat5, contains, contains_str, ends_with,
    ends_with_str, is_blank, owned, text_eq, to_ascii_lowercase, trim, trim_start_by,
    trim_start_class, trim_str, CharClass,
};

verus! {

// ---------------------------------------------------------------------
// Versions
// ---------------------------------------------------------------------

/// A version text without surrounding white space and leading `v`s, in
/// ASCII lower case.
pub open spec fn normalized_version(v: Seq<char>) -> Seq<char> {
    ascii_lowercase(trim_start_by(trim(v), CharClass::Exactly('v')))
}

/// A version text without surrounding white space and leading `v`s, in
/// ASCII lower case.
pub fn normalize_version_text(value: &str) -> (r: String)
    ensures
        r@ == normalized_version(value@),
{
    let t = trim_str(value);
    let t = trim_start_class(t.as_str(), CharClass::Exactly('v'));
    to_ascii_lowercase(t.as_str())
}

/// The installed core's version output names the latest release.
pub open spec fn same_version(current: Seq<char>, latest: Seq<char>) -> bool {
    normalized_version(latest).len() != 0 && contains(
        normalized_version(current),
        normalized_version(latest),
    )
}

/// Whether the installed core's version output names the latest release.
pub fn versions_match(current: &str, latest: &str) -> (r: bool)
    ensures
        r == same_version(current@, latest@),
{
    let c = normalize_version_text(current);
    let l = normalize_version_text(latest);
    !l.as_str().is_empty() && contains_str(c.as_str(), l.as_str())
}

/// The first line of the core's version output that is not blank, trimmed:
/// from its standard output, or from its error output when that is blank.
pub open spec fn version_line_of(stdout: Seq<char>, stderr: Seq<char>) -> Option<Seq<char>> {
    let text = if trim(stdout).len() == 0 {
        trim(stderr)
    } else {
        trim(stdout)
    };
    first_filled_line(lines(text))
}

/// The first line that is not blank, trimmed.
pub open spec fn first_filled_line(ls: Seq<Seq<char>>) -> Option<Seq<char>>
    decreases ls.len(),
{
    if ls.len() == 0 {
        None
    } else if trim(ls[0]).len() != 0 {
        Some(trim(ls[0]))
    } else {
        first_filled_line(ls.drop_first())
    }
}

/// The version line of the core's output.
pub fn core_version_line(stdout: &str, stderr: &str) -> (r: Option<String>)
    ensures
        match r {
            Some(l) => version_line_of(stdout@, stderr@) == Some(l@),
            None => version_line_of(stdout@, stderr@) is None,
        },
{
    let text = if is_blank(stdout) {
        trim_str(stderr)
    } else {
        trim_str(stdout)
    };
    let ls = split_lines(text.as_str());
    let mut i: usize = 0;
    assert(views(ls@).skip(0) == views(ls@));
    while i < ls.len()
        invariant
            i <= ls@.len(),
            version_line_of(stdout@, stderr@) == first_filled_line(views(ls@).skip(i as int)),
        decreases ls@.len() - i,
    {
        let ghost rest = views(ls@).skip(i as int);
        assert(rest[0] == ls@[i as int]@);
        assert(rest.drop_first() == views(ls@).skip(i + 1));
        if !is_blank(ls[i].as_str()) {
            return Some(trim_str(ls[i].as_str()));
        }
        i += 1;
    }
    None
}

/// The error for a core whose version output is empty.
pub fn empty_version_message(core: &str) -> (r: String)
    ensures
        r@ == "mihomo version output was empty for "@ + core@,
{
    concat2("mihomo version output was empty for ", core)
}

/// The error for a core whose version command failed.
pub fn version_failed_message(core: &str) -> (r: String)
    ensures
        r@ == "mihomo version command failed for "@ + core@,
{
    concat2("mihomo version command failed for ", core)
}

// ---------------------------------------------------------------------
// Finding the core
// ---------------------------------------------------------------------

/// The core used: the managed one when it is an executable file, else a
/// `mihomo` found on the search path.
pub fn find_core(managed: &str, managed_is_executable: bool, on_path: Option<&str>) -> (r: Option<
    String,
>)
    ensures
        managed_is_executable ==> (r matches Some(c) && c@ == managed@),
        !managed_is_executable ==> match on_path {
            Some(p) => r matches Some(c) && c@ == p@,
            None => r is None,
        },
{
    if managed_is_executable {
        Some(owned(managed))
    } else {
        match on_path {
            Some(p) => Some(owned(p)),
            None => None,
        }
    }
}

/// The error for a missing core, naming where the managed core belongs.
pub open spec fn core_missing_text(managed: Seq<char>) -> Seq<char> {
    "mihomo core is missing. Run 'starail core install' first. Expected managed core: "@ + managed
}

/// The core to run, or the error that it is missing.
pub fn require_core(found: Option<&str>, managed: &str) -> (r: Result<String, String>)
    ensures
        match found {
            Some(c) => r matches Ok(p) && p@ == c@,
            None => r matches Err(e) && e@ == core_missing_text(managed@),
        },
{
    match found {
        Some(c) => Ok(owned(c)),
        None => Err(
            concat2(
                "mihomo core is missing. Run 'starail core install' first. Expected managed core: ",
                managed,
            ),
        ),
    }
}

/// What the status shows of the core: its path, or `missing`.
pub fn describe(found: Option<&str>) -> (r: String)
    ensures
        match found {
            Some(c) => r@ == c@,
            None => r@ == "missing"@,
        },
{
    match found {
        Some(c) => display_path(c),
        None => owned("missing"),
    }
}

// ---------------------------------------------------------------------
// The latest release
// ---------------------------------------------------------------------

/// One downloadable file of a release.
#[derive(Debug)]
pub struct ReleaseAsset {
    pub name: String,
    pub browser_download_url: String,
}

/// A mihomo release: its tag and files.
#[derive(Debug)]
pub struct Release {
    pub tag_name: String,
    pub assets: Vec<ReleaseAsset>,
}

/// The file chosen to install, with the release it belongs to.
#[derive(Debug)]
pub struct CoreAsset {
    pub release_version: String,
    pub url: String,
}

/// The address of the latest mihomo release's metadata.
pub fn latest_release_url() -> (r: String)
    ensures
        r@ == "https://api.github.com/repos/MetaCubeX/mihomo/releases/latest"@,
{
    owned("https://api.github.com/repos/MetaCubeX/mihomo/releases/latest")
}

/// The user agent of Starail's own requests.
pub fn core_user_agent(version: &str) -> (r: String)
    ensures
        r@ == "starail/"@ + version@,
{
    concat2("starail/", version)
}

/// The asset names to look for on a machine of the given architecture (as
/// `uname -m` names it), most preferred first.
pub open spec fn patterns_of(arch: Seq<char>) -> Option<Seq<Seq<char>>> {
    if arch == "x86_64"@ || arch == "amd64"@ {
        Some(seq!["linux-amd64-compatible"@, "linux-amd64"@])
    } else if arch == "aarch64"@ || arch == "arm64"@ {
        Some(seq!["linux-arm64"@])
    } else if arch == "armv7l"@ || arch == "armv7"@ {
        Some(seq!["linux-armv7"@])
    } else if arch == "armv6l"@ || arch == "armv6"@ {
        Some(seq!["linux-armv6"@])
    } else if arch == "i386"@ || arch == "i686"@ || arch == "x86"@ {
        Some(seq!["linux-386"@])
    } else {
        None
    }
}

fn one(a: &str) -> (r: Vec<String>)
    ensures
        views(r@) == seq![a@],
{
    let mut r = Vec::new();
    r.push(owned(a));
    assert(views(r@) =~= seq![a@]);
    r
}

/// The asset names to look for on a machine of the given architecture.
pub fn architecture_patterns(arch: &str) -> (r: Result<Vec<String>, String>)
    ensures
        match patterns_of(arch@) {
            Some(ps) => r matches Ok(v) && views(v@) == ps,
            None => r matches Err(e) && e@
                == "unsupported CPU architecture for automatic core install: "@ + arch@,
        },
{
    if text_eq(arch, "x86_64") || text_eq(arch, "amd64") {
        let mut r = Vec::new();
        r.push(owned("linux-amd64-compatible"));
        r.push(owned("linux-amd64"));
        assert(views(r@) =~= seq!["linux-amd64-compatible"@, "linux-amd64"@]);
        Ok(r)
    } else if text_eq(arch, "aarch64") || text_eq(arch, "arm64") {
        Ok(one("linux-arm64"))
    } else if text_eq(arch, "armv7l") || text_eq(arch, "armv7") {
        Ok(one("linux-armv7"))
    } else if text_eq(arch, "armv6l") || text_eq(arch, "armv6") {
        Ok(one("linux-armv6"))
    } else if text_eq(arch, "i386") || text_eq(arch, "i686") || text_eq(arch, "x86") {
        Ok(one("linux-386"))
    } else {
        Err(concat2("unsupported CPU architecture for automatic core install: ", arch))
    }
}

/// An asset fits a pattern: its name holds the pattern and not `go`, and its
/// address ends in `.gz`.
pub open spec fn asset_fits(name: Seq<char>, url: Seq<char>, pattern: Seq<char>) -> bool {
    contains(name, pattern) && ends_with(url, ".gz"@) && !contains(name, "go"@)
}

/// The index of the first asset that fits the pattern.
pub open spec fn first_fit(assets: Seq<ReleaseAsset>, pattern: Seq<char>) -> Option<int>
    decreases assets.len(),
{
    if assets.len() == 0 {
        None
    } else if asset_fits(assets[0].name@, assets[0].browser_download_url@, pattern) {
        Some(0)
    } else {
        match first_fit(assets.drop_first(), pattern) {
            Some(i) => Some(i + 1),
            None => None,
        }
    }
}

/// The asset chosen: for the first pattern that some asset fits, the first
/// asset that fits it.
pub open spec fn chosen_asset(assets: Seq<ReleaseAsset>, patterns: Seq<Seq<char>>) -> Option<int>
    decreases patterns.len(),
{
    if patterns.len() == 0 {
        None
    } else {
        match first_fit(assets, patterns[0]) {
            Some(i) => Some(i),
            None => chosen_asset(assets, patterns.drop_first()),
        }
    }
}

proof fn lemma_first_fit_bounds(assets: Seq<ReleaseAsset>, pattern: Seq<char>)
    ensures
        first_fit(assets, pattern) matches Some(i) ==> 0 <= i < assets.len(),
    decreases assets.len(),
{
    if assets.len() > 0 {
        lemma_first_fit_bounds(assets.drop_first(), pattern);
    }
}

fn asset_fits_exec(asset: &ReleaseAsset, pattern: &str) -> (r: bool)
    ensures
        r == asset_fits(asset.name@, asset.browser_download_url@, pattern@),
{
    contains_str(asset.name.as_str(), pattern) && ends_with_str(
        asset.browser_download_url.as_str(),
        ".gz",
    ) && !contains_str(asset.name.as_str(), "go")
}

fn first_fit_exec(assets: &Vec<ReleaseAsset>, pattern: &str) -> (r: Option<usize>)
    ensures
        match r {
            Some(i) => first_fit(assets@, pattern@) == Some(i as int),
            None => first_fit(assets@, pattern@) is None,
        },
{
    let mut i: usize = 0;
    assert(assets@.skip(0) == assets@);
    assert(match first_fit(assets@, pattern@) {
        Some(j) => Some(j + 0),
        None => None::<int>,
    } == first_fit(assets@, pattern@));
    while i < assets.len()
        invariant
            i <= assets@.len(),
            first_fit(assets@, pattern@) == match first_fit(assets@.skip(i as int), pattern@) {
                Some(j) => Some(j + i),
                None => None,
            },
        decreases assets@.len() - i,
    {
        let ghost rest = assets@.skip(i as int);
        assert(rest[0] == assets@[i as int]);
        assert(rest.drop_first() == assets@.skip(i + 1));
        if asset_fits_exec(&assets[i], pattern) {
            return Some(i);
        }
        i += 1;
    }
    None
}

/// The asset to install from a release, for the given patterns.
pub fn select_core_asset(release: &Release, patterns: &Vec<String>) -> (r: Result<CoreAsset, String>)
    ensures
        match chosen_asset(release.assets@, views(patterns@)) {
            Some(i) => r matches Ok(a) && a.release_version@ == release.tag_name@ && a.url@
                == release.assets@[i].browser_download_url@,
            None => r matches Err(e) && e@
                == "could not find a linux mihomo .gz asset for this architecture in the latest release"@,
        },
{
    let mut k: usize = 0;
    assert(views(patterns@).skip(0) == views(patterns@));
    while k < patterns.len()
        invariant
            k <= patterns@.len(),
            chosen_asset(release.assets@, views(patterns@)) == chosen_asset(
                release.assets@,
                views(patterns@).skip(k as int),
            ),
        decreases patterns@.len() - k,
    {
        let ghost rest = views(patterns@).skip(k as int);
        assert(rest[0] == patterns@[k as int]@);
        assert(rest.drop_first() == views(patterns@).skip(k + 1));
        if let Some(i) = first_fit_exec(&release.assets, patterns[k].as_str()) {
            proof {
                lemma_first_fit_bounds(release.assets@, patterns@[k as int]@);
            }
            return Ok(
                CoreAsset {
                    release_version: release.tag_name.clone(),
                    url: release.assets[i].browser_download_url.clone(),
                },
            );
        }
        k += 1;
    }
    Err(
        owned(
            "could not find a linux mihomo .gz asset for this architecture in the latest release",
        ),
    )
}

// ---------------------------------------------------------------------
// What `core install` reports
// ---------------------------------------------------------------------

/// The lines `core install` prints before downloading, and whether it
/// downloads: an up-to-date core is left alone, an older one updated, a
/// missing one installed.
pub open spec fn install_report_of(language: Language, current: Option<Seq<char>>, latest: Seq<
    char,
>) -> (Seq<Seq<char>>, bool) {
    match current {
        Some(c) => {
            let head = seq![
                message_text(language, Message::InstalledMihomoCoreLabel) + " "@ + c,
                message_text(language, Message::LatestMihomoReleaseLabel) + " "@ + latest,
            ];
            if same_version(c, latest) {
                (head.push(message_text(language, Message::MihomoCoreUpToDate)), false)
            } else {
                (
                    head.push(
                        message_text(language, Message::UpdatingMihomoCore) + ": "@ + c + " -> "@
                            + latest + "."@,
                    ),
                    true,
                )
            }
        },
        None => (
            seq![
                message_text(language, Message::ManagedCoreMissingInstalling) + " "@ + latest
                    + "."@,
            ],
            true,
        ),
    }
}

/// The lines `core install` prints before downloading, and whether it
/// downloads, given the installed core's version (if any) and the latest
/// release's.
pub fn install_report(language: Language, current: Option<&str>, latest: &str) -> (r: (
    Vec<String>,
    bool,
))
    ensures
        (views(r.0@), r.1) == install_report_of(
            language,
            match current {
                Some(c) => Some(c@),
                None => None,
            },
            latest@,
        ),
{
    let mut lines: Vec<String> = Vec::new();
    match current {
        Some(c) => {
            lines.push(concat3(language.tr(Message::InstalledMihomoCoreLabel), " ", c));
            lines.push(concat3(language.tr(Message::LatestMihomoReleaseLabel), " ", latest));
            if versions_match(c, latest) {
                lines.push(owned(language.tr(Message::MihomoCoreUpToDate)));
                assert(views(lines@) =~= seq![lines@[0]@, lines@[1]@, lines@[2]@]);
                (lines, false)
            } else {
                lines.push(
                    concat5(language.tr(Message::UpdatingMihomoCore), ": ", c, " -> ", latest).concat(
                        ".",
                    ),
                );
                assert(views(lines@) =~= seq![lines@[0]@, lines@[1]@, lines@[2]@]);
                (lines, true)
            }
        },
        None => {
            lines.push(
                concat4(language.tr(Message::ManagedCoreMissingInstalling), " ", latest, "."),
            );
            assert(views(lines@) =~= seq![lines@[0]@]);
            (lines, true)
        },
    }
}

// ---------------------------------------------------------------------
// The downloaded archive
// ---------------------------------------------------------------------

/// What `flate2::read::GzDecoder` reads to the end from gzip data: the bytes
/// of its first member, or the text of the error met reading them.
pub uninterp spec fn gunzipped(data: Seq<u8>) -> Result<Seq<u8>, Seq<char>>;

/// Reads gzip data to the end through `flate2::read::GzDecoder`.
#[verifier::external_body]
fn gunzip(data: &[u8]) -> (r: Result<Vec<u8>, String>)
    ensures
        match r {
            Ok(b) => gunzipped(data@) == Ok::<Seq<u8>, Seq<char>>(b@),
            Err(e) => gunzipped(data@) == Err::<Seq<u8>, Seq<char>>(e@),
        },
{
    let mut out = Vec::new();
    match std::io::Read::read_to_end(&mut flate2::read::GzDecoder::new(data), &mut out) {
        Ok(_) => Ok(out),
        Err(e) => Err(e.to_string()),
    }
}

/// The error for an archive that could not be unpacked, with its cause.
pub open spec fn unpack_error_text(cause: Seq<char>) -> Seq<char> {
    "failed to unpack downloaded mihomo archive: "@ + cause
}

/// The error for an archive that could not be unpacked, with its cause.
pub fn unpack_error_message(cause: &str) -> (r: String)
    ensures
        r@ == unpack_error_text(cause@),
{
    concat2("failed to unpack downloaded mihomo archive: ", cause)
}

/// The core binary in a downloaded `.gz` release asset, or the error that it
/// could not be unpacked.
pub fn unpack_core_archive(data: &[u8]) -> (r: Result<Vec<u8>, String>)
    ensures
        match gunzipped(data@) {
            Ok(b) => r matches Ok(v) && v@ == b,
            Err(e) => r matches Err(m) && m@ == unpack_error_text(e),
        },
{
    match gunzip(data) {
        Ok(b) => Ok(b),
        Err(e) => Err(unpack_error_message(e.as_str())),
    }
}

// ---------------------------------------------------------------------
// Laws
// ---------------------------------------------------------------------

/// A core whose version output is the latest release's tag itself counts as
/// up to date, whenever the tag holds more than `v`s and white space.
pub proof fn lemma_release_tag_matches_itself(tag: Seq<char>)
    requires
        normalized_version(tag).len() != 0,
    ensures
        same_version(tag, tag),
{
    let n = normalized_version(tag);
    assert(n.subrange(0, n.len() as int) == n);
    assert(crate::text::occurs_at(n, n, 0));
}

proof fn lemma_first_fit_fits(assets: Seq<ReleaseAsset>, pattern: Seq<char>)
    ensures
        first_fit(assets, pattern) matches Some(i) ==> 0 <= i < assets.len() && asset_fits(
            assets[i].name@,
            assets[i].browser_download_url@,
            pattern,
        ),
    decreases assets.len(),
{
    if assets.len() > 0 {
        lemma_first_fit_fits(assets.drop_first(), pattern);
        if let Some(i) = first_fit(assets.drop_first(), pattern) {
            assert(assets.drop_first()[i] == assets[i + 1]);
        }
    }
}

/// The asset chosen for install is a `.gz` file of the release whose name
/// holds one of the architecture's patterns and not `go`.
pub proof fn lemma_chosen_asset_fits(assets: Seq<ReleaseAsset>, patterns: Seq<Seq<char>>)
    ensures
        chosen_asset(assets, patterns) matches Some(i) ==> 0 <= i < assets.len() && exists|k: int|
            0 <= k < patterns.len() && asset_fits(
                assets[i].name@,
                assets[i].browser_download_url@,
                #[trigger] patterns[k],
            ),
    decreases patterns.len(),
{
    if patterns.len() > 0 {
        lemma_first_fit_fits(assets, patterns[0]);
        lemma_chosen_asset_fits(assets, patterns.drop_first());
        match first_fit(assets, patterns[0]) {
            Some(i) => {
                assert(asset_fits(assets[i].name@, assets[i].browser_download_url@, patterns[0]));
            },
            None => {
                if let Some(i) = chosen_asset(assets, patterns.drop_first()) {
                    let k = choose|k: int|
                        0 <= k < patterns.drop_first().len() && asset_fits(
                            assets[i].name@,
                            assets[i].browser_download_url@,
                            #[trigger] patterns.drop_first()[k],
                        );
                    assert(patterns.drop_first()[k] == patterns[k + 1]);
                }
            },
        }
    }
}

} // verus!
