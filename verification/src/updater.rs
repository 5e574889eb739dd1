//! Self-update decisions: comparing release versions, choosing the release
//! asset for the platform, the update prompt's text, and taking the new
//! binary out of the downloaded archive.
use crate::numbers::{in_range, parse_u32_chars, unsigned_decimal};
use crate::text::{chars_of, str_eq, string_from_chars, strip_prefix_all, strip_prefix_all_chars};
use vstd::prelude::*;

verus! {

/// The operating system a build runs on, as far as updating cares.
#[derive(Clone, Copy, PartialEq, Eq, Debug, Structural)]
pub enum TargetOs {
    Windows,
    Unix,
}

/// The release asset holding the build for `os`.
pub open spec fn asset_name_of(os: TargetOs) -> Seq<char> {
    match os {
        TargetOs::Windows => "deadlock-rpc-setup-windows-x86_64.zip"@,
        TargetOs::Unix => "deadlock-rpc-setup-linux-x86_64.zip"@,
    }
}

/// The path of the executable inside the release archive for `os`.
pub open spec fn zip_binary_path_of(os: TargetOs) -> Seq<char> {
    match os {
        TargetOs::Windows => "deadlock-rpc/deadlock-rpc.exe"@,
        TargetOs::Unix => "deadlock-rpc/deadlock-rpc"@,
    }
}

pub fn asset_name(os: TargetOs) -> (r: &'static str)
    ensures
        r@ == asset_name_of(os),
{
    match os {
        TargetOs::Windows => "deadlock-rpc-setup-windows-x86_64.zip",
        TargetOs::Unix => "deadlock-rpc-setup-linux-x86_64.zip",
    }
}

pub fn zip_binary_path(os: TargetOs) -> (r: &'static str)
    ensures
        r@ == zip_binary_path_of(os),
{
    match os {
        TargetOs::Windows => "deadlock-rpc/deadlock-rpc.exe",
        TargetOs::Unix => "deadlock-rpc/deadlock-rpc",
    }
}

/// The index of the first `.` in `s`.
pub open spec fn first_dot(s: Seq<char>) -> Option<int>
    decreases s.len(),
{
    if s.len() == 0 {
        None
    } else if s[0] == '.' {
        Some(0)
    } else {
        match first_dot(s.drop_first()) {
            Some(i) => Some(i + 1),
            None => None,
        }
    }
}

/// `s` up to its first `.` (all of it when there is none).
pub open spec fn before_dot(s: Seq<char>) -> Seq<char> {
    match first_dot(s) {
        Some(i) => s.take(i),
        None => s,
    }
}

/// What follows the first `.` of `s`, if there is one.
pub open spec fn after_dot(s: Seq<char>) -> Option<Seq<char>> {
    match first_dot(s) {
        Some(i) => Some(s.skip(i + 1)),
        None => None,
    }
}

/// A version component read as a `u32`, 0 when it is missing or not a number.
pub open spec fn component(piece: Option<Seq<char>>) -> u32 {
    match piece {
        Some(p) => match in_range(unsigned_decimal(p), 0, u32::MAX as int) {
            Some(v) => v as u32,
            None => 0,
        },
        None => 0,
    }
}

/// The (major, minor, patch) triple of a version string: the text is split
/// into at most three pieces at its first two dots (the last piece keeps any
/// further dots), and each piece is read as a number.
pub open spec fn version_triple(s: Seq<char>) -> (u32, u32, u32) {
    let p1 = before_dot(s);
    let r1 = after_dot(s);
    let p2 = match r1 {
        Some(r) => Some(before_dot(r)),
        None => None,
    };
    let p3 = match r1 {
        Some(r) => after_dot(r),
        None => None,
    };
    (component(Some(p1)), component(p2), component(p3))
}

/// Lexicographic order on triples.
pub open spec fn triple_gt(a: (u32, u32, u32), b: (u32, u32, u32)) -> bool {
    a.0 > b.0 || (a.0 == b.0 && (a.1 > b.1 || (a.1 == b.1 && a.2 > b.2)))
}

/// A release tag names a newer version than `current`: the tag without its
/// leading `v`s, read as a version triple, is greater.
pub open spec fn tag_is_newer(tag: Seq<char>, current: Seq<char>) -> bool {
    triple_gt(version_triple(strip_prefix_all(tag, seq!['v'])), version_triple(current))
}

fn first_dot_exec(s: &[char]) -> (r: Option<usize>)
    ensures
        match r {
            Some(i) => first_dot(s@) == Some(i as int) && i < s.len(),
            None => first_dot(s@) is None,
        },
{
    let mut i: usize = 0;
    while i < s.len()
        invariant
            i <= s.len(),
            forall|j: int| 0 <= j < i ==> s@[j] != '.',
        decreases s.len() - i,
    {
        if s[i] == '.' {
            proof {
                lemma_first_dot_at(s@, i as int);
            }
            return Some(i);
        }
        i = i + 1;
    }
    proof {
        lemma_no_dot(s@);
    }
    None
}

proof fn lemma_first_dot_at(s: Seq<char>, i: int)
    requires
        0 <= i < s.len(),
        s[i] == '.',
        forall|j: int| 0 <= j < i ==> s[j] != '.',
    ensures
        first_dot(s) == Some(i),
    decreases i,
{
    if i > 0 {
        lemma_first_dot_at(s.drop_first(), i - 1);
    }
}

proof fn lemma_no_dot(s: Seq<char>)
    requires
        forall|j: int| 0 <= j < s.len() ==> s[j] != '.',
    ensures
        first_dot(s) is None,
    decreases s.len(),
{
    if s.len() > 0 {
        lemma_no_dot(s.drop_first());
    }
}

fn slice_range(s: &[char], from: usize, to: usize) -> (r: Vec<char>)
    requires
        from <= to <= s.len(),
    ensures
        r@ == s@.subrange(from as int, to as int),
{
    let mut out: Vec<char> = Vec::new();
    let mut k = from;
    while k < to
        invariant
            from <= k <= to <= s.len(),
            out@ == s@.subrange(from as int, k as int),
        decreases to - k,
    {
        out.push(s[k]);
        assert(s@.subrange(from as int, k + 1) =~= s@.subrange(from as int, k as int).push(s@[k as int]));
        k = k + 1;
    }
    out
}

fn component_of(piece: Option<&Vec<char>>) -> (r: u32)
    ensures
        r == component(match piece {
            Some(p) => Some(p@),
            None => None,
        }),
{
    match piece {
        Some(p) => match parse_u32_chars(p.as_slice()) {
            Some(v) => v,
            None => 0,
        },
        None => 0,
    }
}

/// Splits `s` at its first dot.
fn split_dot(s: &[char]) -> (r: (Vec<char>, Option<Vec<char>>))
    ensures
        r.0@ == before_dot(s@),
        match r.1 {
            Some(v) => after_dot(s@) == Some(v@),
            None => after_dot(s@) is None,
        },
{
    match first_dot_exec(s) {
        Some(i) => {
            let a = slice_range(s, 0, i);
            let b = slice_range(s, i + 1, s.len());
            assert(a@ =~= s@.take(i as int));
            assert(b@ =~= s@.skip(i + 1));
            (a, Some(b))
        },
        None => {
            let a = slice_range(s, 0, s.len());
            assert(a@ =~= s@);
            (a, None)
        },
    }
}

/// The version triple of `s`.
pub fn parse_version(s: &[char]) -> (r: (u32, u32, u32))
    ensures
        r == version_triple(s@),
{
    let (p1, r1) = split_dot(s);
    let a = component_of(Some(&p1));
    match r1 {
        Some(rest) => {
            let (p2, r2) = split_dot(rest.as_slice());
            let b = component_of(Some(&p2));
            let c = match &r2 {
                Some(p3) => component_of(Some(p3)),
                None => component_of(None),
            };
            (a, b, c)
        },
        None => (a, component_of(None), component_of(None)),
    }
}

/// Whether the release `tag` (such as `v1.2.3`) is newer than `current`.
pub fn is_newer(tag: &str, current: &str) -> (r: bool)
    ensures
        r == tag_is_newer(tag@, current@),
{
    let t = chars_of(tag);
    let mut v: Vec<char> = Vec::new();
    v.push('v');
    let stripped = strip_prefix_all_chars(t.as_slice(), v.as_slice());
    let a = parse_version(stripped.as_slice());
    let c = chars_of(current);
    let b = parse_version(c.as_slice());
    a.0 > b.0 || (a.0 == b.0 && (a.1 > b.1 || (a.1 == b.1 && a.2 > b.2)))
}

/// The version a release tag offers: the tag without its leading `v`s.
pub fn offered_version(tag: &str) -> (r: String)
    ensures
        r@ == strip_prefix_all(tag@, seq!['v']),
{
    let t = chars_of(tag);
    let mut v: Vec<char> = Vec::new();
    v.push('v');
    let stripped = strip_prefix_all_chars(t.as_slice(), v.as_slice());
    string_from_chars(stripped.as_slice())
}

/// The text of the question whether to install version `new_version`.
pub open spec fn prompt_text(new_version: Seq<char>, current: Seq<char>, os: TargetOs) -> Seq<char> {
    "v"@ + new_version + " is available (you have v"@ + current + (match os {
        TargetOs::Windows => ").\r\nDownload and install now?"@,
        TargetOs::Unix => ").\nDownload and install now?"@,
    })
}

/// The text of the question whether to install version `new_version`.
pub fn update_prompt_text(new_version: &str, current: &str, os: TargetOs) -> (r: String)
    ensures
        r@ == prompt_text(new_version@, current@, os),
{
    let s = String::from_str("v");
    let s = s.concat(new_version);
    let s = s.concat(" is available (you have v");
    let s = s.concat(current);
    match os {
        TargetOs::Windows => s.concat(").\r\nDownload and install now?"),
        TargetOs::Unix => s.concat(").\nDownload and install now?"),
    }
}

/// One downloadable file of a release.
#[derive(Debug)]
pub struct ReleaseAsset {
    pub name: String,
    pub browser_download_url: String,
}

/// Why an update could not be carried out.
#[derive(Debug)]
pub enum UpdateError {
    /// The release has no asset for this platform.
    AssetNotFound,
    /// The downloaded archive could not be read, or lacks the executable.
    Archive(zip::result::ZipError),
}

#[verifier::external_type_specification]
#[verifier::external_body]
pub struct ExZipError(zip::result::ZipError);

/// The text of a zip error, as its `Display` implementation writes it
/// (`ToString::to_string`). Nothing is promised of the text.
#[verifier::external_body]
fn zip_error_text(e: &zip::result::ZipError) -> (r: String) {
    e.to_string()
}

/// The message of a missing asset.
pub open spec fn asset_not_found_message() -> Seq<char> {
    "release asset not found for this platform"@
}

impl UpdateError {
    /// The error's message: for a missing asset the fixed text, for an
    /// unreadable archive the zip error's own text.
    pub fn message(&self) -> (r: String)
        ensures
            self is AssetNotFound ==> r@ == asset_not_found_message(),
    {
        match self {
            UpdateError::AssetNotFound => String::from_str("release asset not found for this platform"),
            UpdateError::Archive(e) => zip_error_text(e),
        }
    }
}

/// The download address of the first asset named for `os`.
pub open spec fn asset_url(assets: Seq<ReleaseAsset>, os: TargetOs) -> Option<Seq<char>>
    decreases assets.len(),
{
    if assets.len() == 0 {
        None
    } else if assets[0].name@ == asset_name_of(os) {
        Some(assets[0].browser_download_url@)
    } else {
        asset_url(assets.skip(1), os)
    }
}

/// The download address of the release asset for `os`: that of the first
/// asset with the platform's asset name.
pub fn find_asset_url(assets: &Vec<ReleaseAsset>, os: TargetOs) -> (r: Result<String, UpdateError>)
    ensures
        match r {
            Ok(url) => asset_url(assets@, os) == Some(url@),
            Err(e) => e is AssetNotFound && asset_url(assets@, os) is None,
        },
{
    let wanted = asset_name(os);
    let mut i: usize = 0;
    assert(assets@.skip(0) =~= assets@);
    while i < assets.len()
        invariant
            i <= assets@.len(),
            wanted@ == asset_name_of(os),
            asset_url(assets@, os) == asset_url(assets@.skip(i as int), os),
        decreases assets@.len() - i,
    {
        assert(assets@.skip(i as int)[0] == assets@[i as int]);
        if str_eq(assets[i].name.as_str(), wanted) {
            return Ok(assets[i].browser_download_url.clone());
        }
        assert(assets@.skip(i as int).skip(1) =~= assets@.skip(i + 1));
        i = i + 1;
    }
    Err(UpdateError::AssetNotFound)
}

pub uninterp spec fn zip_entry_contents(archive: Seq<u8>, name: Seq<char>) -> Option<Seq<u8>>;

/// Reads the member `name` of the zip archive `archive` with
/// `zip::ZipArchive::new`, `ZipArchive::by_name` and `Read::read_to_end`.
/// Trusted: the contents are named `zip_entry_contents(archive@, name@)`, a
/// function of the archive's bytes and the member's name alone; an error
/// (unreadable archive, missing member, failed decompression) corresponds to
/// `None`. Which error is returned is left unsaid.
#[verifier::external_body]
fn read_zip_entry(archive: &[u8], name: &str) -> (r: Result<Vec<u8>, zip::result::ZipError>)
    ensures
        match r {
            Ok(v) => zip_entry_contents(archive@, name@) == Some(v@),
            Err(_) => zip_entry_contents(archive@, name@) is None,
        },
{
    let mut zip = zip::ZipArchive::new(std::io::Cursor::new(archive))?;
    let mut file = zip.by_name(name)?;
    let mut out = Vec::new();
    std::io::Read::read_to_end(&mut file, &mut out)?;
    Ok(out)
}

/// Takes the executable for `os` out of the downloaded release archive.
pub fn extract_binary(zip_bytes: &[u8], os: TargetOs) -> (r: Result<Vec<u8>, UpdateError>)
    ensures
        match r {
            Ok(v) => zip_entry_contents(zip_bytes@, zip_binary_path_of(os)) == Some(v@),
            Err(e) => e is Archive && zip_entry_contents(zip_bytes@, zip_binary_path_of(os)) is None,
        },
{
    match read_zip_entry(zip_bytes, zip_binary_path(os)) {
        Ok(v) => Ok(v),
        Err(e) => Err(UpdateError::Archive(e)),
    }
}

/// Where the start-up update check stands.
#[derive(Clone, Copy, PartialEq, Eq, Debug, Structural)]
pub enum UpdatePhase {
    /// Waiting for the latest release's description.
    FetchingRelease,
    /// Waiting for the user's answer to the update question.
    AwaitingAnswer,
    /// Waiting for the release archive.
    Downloading,
    /// Waiting for the new executable to be put in place.
    Installing,
    /// The check is over.
    Done,
}

/// How the update check ended.
#[derive(Debug)]
pub enum UpdateOutcome {
    /// No newer release exists.
    UpToDate,
    /// The user declined the update.
    Skipped,
    /// The new executable is in place.
    Updated,
    /// The update failed: for the reason given, or a network or file error
    /// that the caller saw.
    Failed(Option<UpdateError>),
}

/// What the outside world reports to the update check.
#[derive(Debug)]
pub enum UpdateEvent {
    /// The latest release: its tag and its assets.
    Release { tag: String, assets: Vec<ReleaseAsset> },
    /// The user's answer to the update question.
    Answer { accepted: bool },
    /// The downloaded release archive.
    Archive { bytes: Vec<u8> },
    /// The new executable has been written in place of the running one.
    Installed,
    /// A network or file operation failed.
    Failed,
}

/// What the application does next for the update check.
#[derive(Debug)]
pub enum UpdateAction {
    /// Ask whether to install `version`, with the question `prompt`.
    Ask { version: String, prompt: String },
    /// Download the release archive at `url`.
    Download { url: String },
    /// Put `binary` in place of the running executable.
    Install { binary: Vec<u8> },
    /// The check is over; start-up continues.
    Finish { outcome: UpdateOutcome },
}

/// The start-up update check: it is told what the network, the user and the
/// file system answered, and says what to do next.
#[derive(Debug)]
pub struct UpdateCheck {
    pub phase: UpdatePhase,
    /// The running version.
    pub current: String,
    pub os: TargetOs,
    /// The assets of the release being offered.
    pub assets: Vec<ReleaseAsset>,
}

/// How far the check has come: every step moves it further, so it ends after
/// at most four steps.
pub open spec fn stage(phase: UpdatePhase) -> nat {
    match phase {
        UpdatePhase::FetchingRelease => 0,
        UpdatePhase::AwaitingAnswer => 1,
        UpdatePhase::Downloading => 2,
        UpdatePhase::Installing => 3,
        UpdatePhase::Done => 4,
    }
}

/// Whether the check, in `phase`, is waiting for `event`.
pub open spec fn expects(phase: UpdatePhase, event: UpdateEvent) -> bool {
    match event {
        UpdateEvent::Release { .. } => phase == UpdatePhase::FetchingRelease,
        UpdateEvent::Answer { .. } => phase == UpdatePhase::AwaitingAnswer,
        UpdateEvent::Archive { .. } => phase == UpdatePhase::Downloading,
        UpdateEvent::Installed => phase == UpdatePhase::Installing,
        UpdateEvent::Failed => phase != UpdatePhase::Done,
    }
}

/// The check ends with `outcome`.
pub open spec fn finishes(r: UpdateAction, phase: UpdatePhase, outcome: UpdateOutcome) -> bool {
    phase == UpdatePhase::Done && match (r, outcome) {
        (UpdateAction::Finish { outcome: UpdateOutcome::UpToDate }, UpdateOutcome::UpToDate) => true,
        (UpdateAction::Finish { outcome: UpdateOutcome::Skipped }, UpdateOutcome::Skipped) => true,
        (UpdateAction::Finish { outcome: UpdateOutcome::Updated }, UpdateOutcome::Updated) => true,
        (UpdateAction::Finish { outcome: UpdateOutcome::Failed(a) }, UpdateOutcome::Failed(b)) => (
        a is None) == (b is None) && (a is Some ==> (a->0 is AssetNotFound) == (b->0 is AssetNotFound)),
        _ => false,
    }
}

impl UpdateCheck {
    /// A check of the running version `current` on `os`, about to fetch the
    /// latest release.
    pub fn new(current: &str, os: TargetOs) -> (r: Self)
        ensures
            r.phase == UpdatePhase::FetchingRelease,
            r.current@ == current@,
            r.os == os,
            r.assets@.len() == 0,
    {
        UpdateCheck {
            phase: UpdatePhase::FetchingRelease,
            current: String::from_str(current),
            os,
            assets: Vec::new(),
        }
    }

    /// Whether the check is waiting for `event`.
    pub fn expects(&self, event: &UpdateEvent) -> (r: bool)
        ensures
            r == expects(self.phase, *event),
    {
        match event {
            UpdateEvent::Release { .. } => self.phase == UpdatePhase::FetchingRelease,
            UpdateEvent::Answer { .. } => self.phase == UpdatePhase::AwaitingAnswer,
            UpdateEvent::Archive { .. } => self.phase == UpdatePhase::Downloading,
            UpdateEvent::Installed => self.phase == UpdatePhase::Installing,
            UpdateEvent::Failed => self.phase != UpdatePhase::Done,
        }
    }

    /// Takes in what the outside world answered and decides the next step: a
    /// newer release is offered to the user; an accepted offer downloads the
    /// platform's asset; the executable is taken out of the archive and
    /// installed. Anything missing or failing ends the check.
    pub fn step(&mut self, event: UpdateEvent) -> (r: UpdateAction)
        requires
            expects(old(self).phase, event),
        ensures
            final(self).current == old(self).current,
            final(self).os == old(self).os,
            match event {
                UpdateEvent::Release { tag, assets } => if tag_is_newer(tag@, old(self).current@) {
                    &&& final(self).phase == UpdatePhase::AwaitingAnswer
                    &&& final(self).assets@ == assets@
                    &&& r matches UpdateAction::Ask { version, prompt }
                    &&& version@ == strip_prefix_all(tag@, seq!['v'])
                    &&& prompt@ == prompt_text(version@, old(self).current@, old(self).os)
                } else {
                    finishes(r, final(self).phase, UpdateOutcome::UpToDate)
                },
                UpdateEvent::Answer { accepted } => if !accepted {
                    finishes(r, final(self).phase, UpdateOutcome::Skipped)
                } else {
                    match asset_url(old(self).assets@, old(self).os) {
                        Some(u) => {
                            &&& final(self).phase == UpdatePhase::Downloading
                            &&& r matches UpdateAction::Download { url }
                            &&& url@ == u
                        },
                        None => finishes(
                            r,
                            final(self).phase,
                            UpdateOutcome::Failed(Some(UpdateError::AssetNotFound)),
                        ),
                    }
                },
                UpdateEvent::Archive { bytes } => match zip_entry_contents(
                    bytes@,
                    zip_binary_path_of(old(self).os),
                ) {
                    Some(b) => {
                        &&& final(self).phase == UpdatePhase::Installing
                        &&& r matches UpdateAction::Install { binary }
                        &&& binary@ == b
                    },
                    None => final(self).phase == UpdatePhase::Done && r matches UpdateAction::Finish {
                        outcome: UpdateOutcome::Failed(Some(UpdateError::Archive(_))),
                    },
                },
                UpdateEvent::Installed => finishes(r, final(self).phase, UpdateOutcome::Updated),
                UpdateEvent::Failed => finishes(r, final(self).phase, UpdateOutcome::Failed(None)),
            },
            r is Download ==> (event matches UpdateEvent::Answer { accepted } && accepted),
            r is Install ==> event is Archive,
            stage(final(self).phase) > stage(old(self).phase),
            r is Finish <==> final(self).phase == UpdatePhase::Done,
    {
        match event {
            UpdateEvent::Release { tag, assets } => {
                if is_newer(tag.as_str(), self.current.as_str()) {
                    let version = offered_version(tag.as_str());
                    let prompt = update_prompt_text(version.as_str(), self.current.as_str(), self.os);
                    self.assets = assets;
                    self.phase = UpdatePhase::AwaitingAnswer;
                    UpdateAction::Ask { version, prompt }
                } else {
                    self.phase = UpdatePhase::Done;
                    UpdateAction::Finish { outcome: UpdateOutcome::UpToDate }
                }
            },
            UpdateEvent::Answer { accepted } => {
                if !accepted {
                    self.phase = UpdatePhase::Done;
                    return UpdateAction::Finish { outcome: UpdateOutcome::Skipped };
                }
                match find_asset_url(&self.assets, self.os) {
                    Ok(url) => {
                        self.phase = UpdatePhase::Downloading;
                        UpdateAction::Download { url }
                    },
                    Err(e) => {
                        self.phase = UpdatePhase::Done;
                        UpdateAction::Finish { outcome: UpdateOutcome::Failed(Some(e)) }
                    },
                }
            },
            UpdateEvent::Archive { bytes } => {
                match extract_binary(bytes.as_slice(), self.os) {
                    Ok(binary) => {
                        self.phase = UpdatePhase::Installing;
                        UpdateAction::Install { binary }
                    },
                    Err(e) => {
                        self.phase = UpdatePhase::Done;
                        UpdateAction::Finish { outcome: UpdateOutcome::Failed(Some(e)) }
                    },
                }
            },
            UpdateEvent::Installed => {
                self.phase = UpdatePhase::Done;
                UpdateAction::Finish { outcome: UpdateOutcome::Updated }
            },
            UpdateEvent::Failed => {
                self.phase = UpdatePhase::Done;
                UpdateAction::Finish { outcome: UpdateOutcome::Failed(None) }
            },
        }
    }
}

/// A release is never newer than itself.
pub proof fn law_version_not_newer_than_itself(v: Seq<char>)
    requires
        v.len() == 0 || v[0] != 'v',
    ensures
        !tag_is_newer(v, v),
{
    assert(strip_prefix_all(v, seq!['v']) == v) by {
        if v.len() > 0 {
            assert(v.take(1)[0] == v[0]);
        }
    }
}

/// Of two versions, at most one is newer than the other.
pub proof fn law_newer_is_asymmetric(a: Seq<char>, b: Seq<char>)
    requires
        a.len() == 0 || a[0] != 'v',
        b.len() == 0 || b[0] != 'v',
    ensures
        !(tag_is_newer(a, b) && tag_is_newer(b, a)),
{
    assert(strip_prefix_all(a, seq!['v']) == a) by {
        if a.len() > 0 {
            assert(a.take(1)[0] == a[0]);
        }
    }
    assert(strip_prefix_all(b, seq!['v']) == b) by {
        if b.len() > 0 {
            assert(b.take(1)[0] == b[0]);
        }
    }
}

/// Being newer is transitive: a release newer than one that is newer than
/// the running version is newer than the running version too.
pub proof fn law_newer_is_transitive(a: Seq<char>, b: Seq<char>, c: Seq<char>)
    requires
        b.len() == 0 || b[0] != 'v',
        tag_is_newer(a, b),
        tag_is_newer(b, c),
    ensures
        tag_is_newer(a, c),
{
    assert(strip_prefix_all(b, seq!['v']) == b) by {
        if b.len() > 0 {
            assert(b.take(1)[0] == b[0]);
        }
    }
}

/// A version written as three decimal numbers joined by dots.
pub open spec fn version_text(a: nat, b: nat, c: nat) -> Seq<char> {
    crate::numbers::decimal(a) + seq!['.'] + crate::numbers::decimal(b) + seq!['.']
        + crate::numbers::decimal(c)
}

/// `x + "." + y` for a run of digits `x`: split at its first dot.
proof fn lemma_split_digits(x: Seq<char>, y: Seq<char>)
    requires
        crate::numbers::all_digits(x),
    ensures
        before_dot(x + seq!['.'] + y) == x,
        after_dot(x + seq!['.'] + y) == Some(y),
{
    let t = x + seq!['.'] + y;
    assert forall|j: int| 0 <= j < x.len() implies t[j] != '.' by {
        assert(t[j] == x[j]);
        assert(crate::numbers::is_ascii_digit(x[j]));
    }
    assert(t[x.len() as int] == '.');
    lemma_first_dot_at(t, x.len() as int);
    assert(t.take(x.len() as int) =~= x);
    assert(t.skip(x.len() as int + 1) =~= y);
}

/// A run of digits has no dot.
proof fn lemma_digits_no_dot(x: Seq<char>)
    requires
        crate::numbers::all_digits(x),
    ensures
        before_dot(x) == x,
        after_dot(x) is None,
{
    assert forall|j: int| 0 <= j < x.len() implies x[j] != '.' by {
        assert(crate::numbers::is_ascii_digit(x[j]));
    }
    lemma_no_dot(x);
}

/// A version written as three numbers is read back as exactly those numbers,
/// each in full (so `1.10.0` is major 1, minor 10, patch 0).
pub proof fn law_version_read_exactly(a: u32, b: u32, c: u32)
    ensures
        version_triple(version_text(a as nat, b as nat, c as nat)) == (a, b, c),
{
    let da = crate::numbers::decimal(a as nat);
    let db = crate::numbers::decimal(b as nat);
    let dc = crate::numbers::decimal(c as nat);
    crate::numbers::lemma_decimal(a as nat);
    crate::numbers::lemma_decimal(b as nat);
    crate::numbers::lemma_decimal(c as nat);
    let rest = db + seq!['.'] + dc;
    assert(version_text(a as nat, b as nat, c as nat) =~= da + seq!['.'] + rest);
    lemma_split_digits(da, rest);
    lemma_split_digits(db, dc);
    lemma_digits_no_dot(dc);
}

/// A release is newer than the running version exactly when its major number
/// is larger, or it is equal and the minor number is larger, or both are
/// equal and the patch number is larger: the numbers compare as whole
/// numbers, with or without a leading `v` on the tag.
pub proof fn law_newer_compares_numbers(a1: u32, b1: u32, c1: u32, a2: u32, b2: u32, c2: u32, v: bool)
    ensures
        tag_is_newer(
            if v {
                seq!['v'] + version_text(a1 as nat, b1 as nat, c1 as nat)
            } else {
                version_text(a1 as nat, b1 as nat, c1 as nat)
            },
            version_text(a2 as nat, b2 as nat, c2 as nat),
        ) <==> (a1 > a2 || (a1 == a2 && (b1 > b2 || (b1 == b2 && c1 > c2)))),
{
    law_version_read_exactly(a1, b1, c1);
    law_version_read_exactly(a2, b2, c2);
    let t = version_text(a1 as nat, b1 as nat, c1 as nat);
    crate::numbers::lemma_decimal(a1 as nat);
    assert(t[0] == crate::numbers::decimal(a1 as nat)[0]);
    assert(crate::numbers::is_ascii_digit(t[0]));
    assert(strip_prefix_all(t, seq!['v']) == t) by {
        assert(t.take(1)[0] == t[0]);
    }
    if v {
        let vt = seq!['v'] + t;
        assert(vt.take(1) =~= seq!['v']);
        assert(vt.skip(1) =~= t);
        assert(strip_prefix_all(vt, seq!['v']) == strip_prefix_all(t, seq!['v']));
    }
}

} // verus!
