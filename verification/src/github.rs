//! What is asked of GitHub and what is made of its answers.
use vstd::prelude::*;
use vstd::string::StringExecFns;
use crate::digest;
use crate::digest::FileHasher;
use crate::error;
use crate::error::{AppError, AppResult};
use crate::models;
use crate::models::{OperationEvent, ReleaseInfo};
use crate::text;

verus! {

/// No file of a release is larger.
pub const MAX_DOWNLOAD_BYTES: u64 = 512 * 1024 * 1024;

/// Mission scripts are text; a larger archive is not the scripts repository.
pub const MAX_SOURCE_BYTES: u64 = 64 * 1024 * 1024;

/// A release as GitHub describes it.
#[derive(Debug)]
pub struct ApiRelease {
    pub tag_name: String,
    pub assets: Vec<ApiAsset>,
}

/// A file of a release as GitHub describes it.
#[derive(Debug)]
pub struct ApiAsset {
    pub name: String,
    pub browser_download_url: String,
    pub size: u64,
    pub digest: Option<String>,
}

/// A commit as GitHub describes it.
#[derive(Debug)]
pub struct ApiCommit {
    pub sha: String,
}

/// An HTTP status that tells of success.
pub open spec fn is_success(status: u16) -> bool {
    200 <= status < 300
}

/// The name of a repository with its owner.
pub open spec fn full_name(owner: Seq<char>, repository: Seq<char>) -> Seq<char> {
    owner + "/"@ + repository
}

/// What is said of a status that does not tell of success.
pub open spec fn status_message(status: u16, doing: Seq<char>) -> Seq<char> {
    "GitHub returned HTTP "@ + text::decimal_digits(status as nat) + " while "@ + doing + "."@
}

/// The address that describes the latest release of a repository.
pub fn latest_release_url(owner: &str, repository: &str) -> (r: String)
    ensures
        r@ == "https://api.github.com/repos/"@ + full_name(owner@, repository@)
            + "/releases/latest"@,
{
    let mut url = "https://api.github.com/repos/".to_owned();
    url.append(owner);
    url.append("/");
    url.append(repository);
    url.append("/releases/latest");
    url
}

/// The address that describes the latest commit of a branch.
pub fn latest_commit_url(owner: &str, repository: &str, branch: &str) -> (r: String)
    ensures
        r@ == "https://api.github.com/repos/"@ + full_name(owner@, repository@) + "/commits/"@
            + branch@,
{
    let mut url = "https://api.github.com/repos/".to_owned();
    url.append(owner);
    url.append("/");
    url.append(repository);
    url.append("/commits/");
    url.append(branch);
    url
}

/// The address of the source archive of a commit.
pub fn source_url(owner: &str, repository: &str, commit: &str) -> (r: String)
    ensures
        r@ == "https://codeload.github.com/"@ + full_name(owner@, repository@) + "/zip/"@ + commit@,
{
    let mut url = "https://codeload.github.com/".to_owned();
    url.append(owner);
    url.append("/");
    url.append(repository);
    url.append("/zip/");
    url.append(commit);
    url
}

/// Whether an HTTP status tells of success; the error that says what was being done if it does
/// not.
pub fn check_status(status: u16, doing: &str) -> (r: AppResult<()>)
    ensures
        match r {
            Ok(()) => is_success(status),
            Err(error) => !is_success(status) && error::is_message(
                error,
                status_message(status, doing@),
            ),
        },
{
    if 200 <= status && status < 300 {
        return Ok(());
    }
    let mut message = "GitHub returned HTTP ".to_owned();
    message.append(text::decimal(status as u64).as_str());
    message.append(" while ");
    message.append(doing);
    message.append(".");
    Err(AppError::message(message))
}

/// A text and the name of a repository after it.
fn named(before: &str, owner: &str, repository: &str) -> (r: String)
    ensures
        r@ == before@ + full_name(owner@, repository@),
{
    let mut name = before.to_owned();
    name.append(owner);
    name.append("/");
    name.append(repository);
    name
}

/// Whether the answer to a question about a repository can be read.
pub fn check_query_status(owner: &str, repository: &str, status: u16) -> (r: AppResult<()>)
    ensures
        match r {
            Ok(()) => is_success(status),
            Err(error) => !is_success(status) && error::is_message(
                error,
                status_message(status, "checking "@ + full_name(owner@, repository@)),
            ),
        },
{
    check_status(status, named("checking ", owner, repository).as_str())
}

/// Whether the answer to the question for the latest release can be read. Where there is no
/// release, GitHub answers with the status 404.
pub fn check_release_status(owner: &str, repository: &str, status: u16) -> (r: AppResult<()>)
    ensures
        match r {
            Ok(()) => is_success(status),
            Err(error) => !is_success(status) && error::is_message(
                error,
                if status == 404 {
                    "No published release was found for "@ + full_name(owner@, repository@) + "."@
                } else {
                    status_message(status, "checking "@ + full_name(owner@, repository@))
                },
            ),
        },
{
    if status == 404 {
        let mut message = named("No published release was found for ", owner, repository);
        message.append(".");
        return Err(AppError::message(message));
    }
    check_query_status(owner, repository, status)
}

/// The first file of a release that has this name, in capital or small letters, is number `at`.
pub open spec fn is_first_asset(assets: Seq<ApiAsset>, name: Seq<char>, at: int) -> bool {
    &&& 0 <= at < assets.len()
    &&& text::same_ignoring_ascii_case(assets[at].name@, name)
    &&& forall|i: int|
        0 <= i < at ==> !text::same_ignoring_ascii_case(#[trigger] assets[i].name@, name)
}

/// A release has a file of this name.
pub open spec fn has_asset(assets: Seq<ApiAsset>, name: Seq<char>) -> bool {
    exists|i: int|
        0 <= i < assets.len() && text::same_ignoring_ascii_case(#[trigger] assets[i].name@, name)
}

/// A size that a file to be downloaded can have.
pub open spec fn is_download_size(size: u64) -> bool {
    0 < size <= MAX_DOWNLOAD_BYTES
}

/// The file of a release that is to be downloaded: the first one of this name.
pub fn select_release(release: ApiRelease, asset_name: &str) -> (r: AppResult<ReleaseInfo>)
    ensures
        !has_asset(release.assets@, asset_name@) ==> (r matches Err(error) && error::is_message(
            error,
            "Release "@ + release.tag_name@ + " does not include "@ + asset_name@ + "."@,
        )),
        has_asset(release.assets@, asset_name@) ==> exists|at: int|
            is_first_asset(release.assets@, asset_name@, at),
        forall|at: int| #[trigger]
            is_first_asset(release.assets@, asset_name@, at) ==> {
                let asset = release.assets@[at];
                if is_download_size(asset.size) {
                    r == AppResult::<ReleaseInfo>::Ok(
                        ReleaseInfo {
                            tag: release.tag_name,
                            asset_name: asset.name,
                            download_url: asset.browser_download_url,
                            size: asset.size,
                            digest: asset.digest,
                        },
                    )
                } else {
                    r matches Err(error) && error::is_message(
                        error,
                        asset.name@ + " has an unexpected download size."@,
                    )
                }
            },
{
    let mut assets = release.assets;
    let ghost given = assets@;
    let mut i: usize = 0;
    while i < assets.len()
        invariant
            assets@ == given,
            i <= assets.len(),
            forall|k: int|
                0 <= k < i ==> !text::same_ignoring_ascii_case(
                    #[trigger] given[k].name@,
                    asset_name@,
                ),
        ensures
            i < assets.len() ==> text::same_ignoring_ascii_case(given[i as int].name@, asset_name@),
        decreases assets.len() - i,
    {
        if text::eq_ignore_ascii_case(assets[i].name.as_str(), asset_name) {
            break;
        }
        i = i + 1;
    }
    if i >= assets.len() {
        let mut message = "Release ".to_owned();
        message.append(release.tag_name.as_str());
        message.append(" does not include ");
        message.append(asset_name);
        message.append(".");
        return Err(AppError::message(message));
    }
    assert(is_first_asset(given, asset_name@, i as int));
    assert forall|at: int| is_first_asset(given, asset_name@, at) implies at == i by {
        if at < i {
            assert(!text::same_ignoring_ascii_case(given[at].name@, asset_name@));
        }
        if i < at {
            assert(!text::same_ignoring_ascii_case(given[i as int].name@, asset_name@));
        }
    }
    let asset = assets.swap_remove(i);
    if asset.size == 0 || asset.size > MAX_DOWNLOAD_BYTES {
        let mut message = asset.name;
        message.append(" has an unexpected download size.");
        return Err(AppError::message(message));
    }
    Ok(
        ReleaseInfo {
            tag: release.tag_name,
            asset_name: asset.name,
            download_url: asset.browser_download_url,
            size: asset.size,
            digest: asset.digest,
        },
    )
}

/// A hexadecimal digit, with a capital or a small letter.
pub open spec fn is_hex_digit(c: char) -> bool {
    '0' <= c <= '9' || 'a' <= c <= 'f' || 'A' <= c <= 'F'
}

/// The name that git gives a commit: forty hexadecimal digits.
pub open spec fn is_commit(sha: Seq<char>) -> bool {
    sha.len() == 40 && forall|i: int| 0 <= i < sha.len() ==> is_hex_digit(#[trigger] sha[i])
}

/// Whether a text is the name of a commit.
fn is_commit_name(sha: &str) -> (r: bool)
    ensures
        r == is_commit(sha@),
{
    let name = text::chars_of(sha);
    if name.len() != 40 {
        return false;
    }
    let mut i: usize = 0;
    while i < name.len()
        invariant
            name@ == sha@,
            i <= name.len(),
            forall|k: int| 0 <= k < i ==> is_hex_digit(#[trigger] sha@[k]),
        decreases name.len() - i,
    {
        let c = name[i];
        if !(('0' <= c && c <= '9') || ('a' <= c && c <= 'f') || ('A' <= c && c <= 'F')) {
            assert(!is_hex_digit(sha@[i as int]));
            return false;
        }
        i = i + 1;
    }
    true
}

/// The name of the commit that GitHub described.
pub fn commit_name(commit: ApiCommit, owner: &str, repository: &str) -> (r: AppResult<String>)
    ensures
        match r {
            Ok(sha) => is_commit(commit.sha@) && sha == commit.sha,
            Err(error) => !is_commit(commit.sha@) && error::is_message(
                error,
                "GitHub returned an invalid commit for "@ + full_name(owner@, repository@) + "."@,
            ),
        },
{
    if !is_commit_name(commit.sha.as_str()) {
        let mut message = named("GitHub returned an invalid commit for ", owner, repository);
        message.append(".");
        return Err(AppError::message(message));
    }
    Ok(commit.sha)
}

/// What a digest that GitHub published says of a file.
pub enum DigestCheck {
    Unpublished,
    Unsupported,
    Mismatch,
    Match,
}

/// The hexadecimal text of a published digest, if it is one of SHA-256.
pub open spec fn published_sha256(digest: Seq<char>) -> Option<Seq<char>> {
    if "sha256:"@.is_prefix_of(digest) {
        Some(digest.skip("sha256:"@.len() as int))
    } else if "SHA256:"@.is_prefix_of(digest) {
        Some(digest.skip("SHA256:"@.len() as int))
    } else {
        None
    }
}

/// What a published digest says of a file with this digest.
pub open spec fn digest_check(digest: Option<Seq<char>>, actual: Seq<char>) -> DigestCheck {
    match digest {
        None => DigestCheck::Unpublished,
        Some(digest) => match published_sha256(digest) {
            None => DigestCheck::Unsupported,
            Some(expected) => if text::same_ignoring_ascii_case(expected, actual) {
                DigestCheck::Match
            } else {
                DigestCheck::Mismatch
            },
        },
    }
}

/// `r` is what a check of a digest answers.
pub open spec fn is_digest_answer(check: DigestCheck, r: AppResult<()>) -> bool {
    match check {
        DigestCheck::Unpublished | DigestCheck::Match => r is Ok,
        DigestCheck::Unsupported => r matches Err(error) && error::is_message(
            error,
            "GitHub supplied an unsupported asset digest."@,
        ),
        DigestCheck::Mismatch => r matches Err(error) && error::is_message(
            error,
            "The downloaded file failed its SHA-256 check."@,
        ),
    }
}

/// Holds the digest of a downloaded file against the published one, if one was published.
pub fn verify_digest(digest: Option<&str>, actual: &str) -> (r: AppResult<()>)
    ensures
        is_digest_answer(digest_check(text::str_view(digest), actual@), r),
{
    let digest = match digest {
        Some(digest) => digest,
        None => return Ok(()),
    };
    let expected = match text::strip_prefix(digest, "sha256:") {
        Some(expected) => expected,
        None => match text::strip_prefix(digest, "SHA256:") {
            Some(expected) => expected,
            None => return Err(
                AppError::message("GitHub supplied an unsupported asset digest.".to_owned()),
            ),
        },
    };
    if !text::eq_ignore_ascii_case(expected, actual) {
        return Err(AppError::message("The downloaded file failed its SHA-256 check.".to_owned()));
    }
    Ok(())
}

/// The count of bytes after one more piece. It is held in 64 bits, whose largest value stands for
/// all larger ones.
pub open spec fn counted(downloaded: u64, length: int) -> u64 {
    if downloaded + length > u64::MAX {
        u64::MAX
    } else {
        (downloaded + length) as u64
    }
}

/// How much of a source archive was downloaded. GitHub publishes such an archive without a size
/// or digest.
pub struct SourceDownload {
    downloaded: u64,
}

impl View for SourceDownload {
    type V = u64;

    closed spec fn view(&self) -> u64 {
        self.downloaded
    }
}

impl SourceDownload {
    /// Nothing was downloaded yet.
    pub fn new() -> (r: Self)
        ensures
            r@ == 0,
    {
        SourceDownload { downloaded: 0 }
    }

    /// Whether the answer to the request for the archive holds it.
    pub fn check_status(owner: &str, repository: &str, status: u16) -> (r: AppResult<()>)
        ensures
            match r {
                Ok(()) => is_success(status),
                Err(error) => !is_success(status) && error::is_message(
                    error,
                    status_message(status, "downloading "@ + full_name(owner@, repository@)),
                ),
            },
    {
        check_status(status, named("downloading ", owner, repository).as_str())
    }

    /// Counts the next piece, before it is written. More than the safety limit is refused.
    pub fn accept(&mut self, length: usize) -> (r: AppResult<()>)
        ensures
            final(self)@ == counted(old(self)@, length as int),
            match r {
                Ok(()) => old(self)@ + length <= MAX_SOURCE_BYTES,
                Err(error) => {
                    &&& old(self)@ + length > MAX_SOURCE_BYTES
                    &&& error::is_message(error, "The download is larger than the safety limit."@)
                },
            },
    {
        self.downloaded = self.downloaded.saturating_add(length as u64);
        if self.downloaded > MAX_SOURCE_BYTES {
            return Err(
                AppError::message("The download is larger than the safety limit.".to_owned()),
            );
        }
        Ok(())
    }
}

/// How much of a file was downloaded, from 0 to 100.
pub open spec fn percent_done(downloaded: u64, size: u64) -> int {
    if size == 0 {
        0
    } else {
        let hundredfold = if downloaded * 100 > u64::MAX {
            u64::MAX as int
        } else {
            downloaded * 100
        };
        if hundredfold / (size as int) > 100 {
            100
        } else {
            hundredfold / (size as int)
        }
    }
}

/// The progress of the operation that a download is a part of: the part goes from `start` to
/// `end`. The product is held in a byte, whose largest value stands for all larger ones.
pub open spec fn overall_percent(start: u8, end: u8, done: int) -> int {
    let product = if (end - start) * done > u8::MAX {
        u8::MAX as int
    } else {
        (end - start) * done
    };
    if start + product / 100 > u8::MAX {
        u8::MAX as int
    } else {
        start + product / 100
    }
}

/// A download of a file of a release.
pub struct ReleaseDownload {
    asset_name: String,
    size: u64,
    digest: Option<String>,
    stage: String,
    start_percent: u8,
    end_percent: u8,
    downloaded: u64,
    hasher: FileHasher,
}

/// What a download knows: what is downloaded, which part of the operation it is, how many bytes
/// came and which of them were accepted.
pub struct DownloadView {
    pub asset_name: Seq<char>,
    pub size: u64,
    pub digest: Option<Seq<char>>,
    pub stage: Seq<char>,
    pub start_percent: u8,
    pub end_percent: u8,
    pub downloaded: u64,
    pub bytes: Seq<u8>,
}

impl View for ReleaseDownload {
    type V = DownloadView;

    closed spec fn view(&self) -> DownloadView {
        DownloadView {
            asset_name: self.asset_name@,
            size: self.size,
            digest: models::text_view(self.digest),
            stage: self.stage@,
            start_percent: self.start_percent,
            end_percent: self.end_percent,
            downloaded: self.downloaded,
            bytes: self.hasher@,
        }
    }
}

/// A download of which every piece was accepted.
pub open spec fn is_sound(download: DownloadView) -> bool {
    download.start_percent <= download.end_percent && download.downloaded == download.bytes.len()
}

/// A piece of this length can still be accepted. A file may be a little longer than its
/// published size before it is refused.
pub open spec fn has_room(download: DownloadView, length: int) -> bool {
    &&& download.downloaded + length <= MAX_DOWNLOAD_BYTES
    &&& download.downloaded + length <= download.size + 1024
}

/// A download with one more accepted piece.
pub open spec fn with_piece(download: DownloadView, piece: Seq<u8>) -> DownloadView {
    DownloadView {
        downloaded: (download.downloaded + piece.len()) as u64,
        bytes: download.bytes + piece,
        ..download
    }
}

/// `event` tells of the progress of a download.
pub open spec fn is_progress(event: OperationEvent, download: DownloadView) -> bool {
    let done = percent_done(download.downloaded, download.size);
    match event {
        OperationEvent::Progress { stage, message, percent } => {
            &&& stage@ == download.stage
            &&& message@ == "Downloading "@ + download.asset_name + "… "@ + text::decimal_digits(
                done as nat,
            ) + "%"@
            &&& percent == overall_percent(download.start_percent, download.end_percent, done)
        },
    }
}

/// How much of a file was downloaded, from 0 to 100.
pub fn download_ratio(downloaded: u64, size: u64) -> (r: u8)
    ensures
        r == percent_done(downloaded, size),
        r <= 100,
{
    if size == 0 {
        return 0;
    }
    let hundredfold: u64 = match downloaded.checked_mul(100) {
        Some(product) => product,
        None => u64::MAX,
    };
    let ratio: u64 = hundredfold / size;
    if ratio > 100 {
        100
    } else {
        ratio as u8
    }
}

/// The progress of the operation that a download is a part of.
pub fn operation_percent(start_percent: u8, end_percent: u8, ratio: u8) -> (r: u8)
    requires
        start_percent <= end_percent,
    ensures
        r == overall_percent(start_percent, end_percent, ratio as int),
{
    let product: u8 = match (end_percent - start_percent).checked_mul(ratio) {
        Some(product) => product,
        None => u8::MAX,
    };
    start_percent.saturating_add(product / 100)
}

impl ReleaseDownload {
    /// Begins a download with GitHub's answer to the request for the file: its status and the
    /// length that it announces.
    pub fn begin(
        release: &ReleaseInfo,
        status: u16,
        content_length: Option<u64>,
        stage: &str,
        start_percent: u8,
        end_percent: u8,
    ) -> (r: AppResult<Self>)
        requires
            start_percent <= end_percent,
        ensures
            match r {
                Ok(download) => {
                    &&& is_success(status)
                    &&& content_length matches Some(length) ==> length <= MAX_DOWNLOAD_BYTES
                    &&& download@ == (DownloadView {
                        asset_name: release.asset_name@,
                        size: release.size,
                        digest: models::text_view(release.digest),
                        stage: stage@,
                        start_percent,
                        end_percent,
                        downloaded: 0,
                        bytes: Seq::empty(),
                    })
                    &&& is_sound(download@)
                },
                Err(error) => if is_success(status) {
                    &&& content_length matches Some(length) && length > MAX_DOWNLOAD_BYTES
                    &&& error::is_message(error, "The download is larger than the safety limit."@)
                } else {
                    error::is_message(
                        error,
                        status_message(status, "downloading "@ + release.asset_name@),
                    )
                },
            },
    {
        let mut doing = "downloading ".to_owned();
        doing.append(release.asset_name.as_str());
        match check_status(status, doing.as_str()) {
            Ok(()) => {},
            Err(error) => return Err(error),
        }
        if let Some(length) = content_length {
            if length > MAX_DOWNLOAD_BYTES {
                return Err(
                    AppError::message("The download is larger than the safety limit.".to_owned()),
                );
            }
        }
        Ok(
            ReleaseDownload {
                asset_name: release.asset_name.clone(),
                size: release.size,
                digest: match &release.digest {
                    Some(digest) => Some(digest.clone()),
                    None => None,
                },
                stage: stage.to_owned(),
                start_percent,
                end_percent,
                downloaded: 0,
                hasher: FileHasher::new(),
            },
        )
    }

    /// Takes the next piece of the file, before it is written. The event is to be sent once the
    /// piece is written.
    pub fn accept(&mut self, piece: &[u8]) -> (r: AppResult<OperationEvent>)
        requires
            is_sound(old(self)@),
        ensures
            match r {
                Ok(event) => {
                    &&& has_room(old(self)@, piece@.len() as int)
                    &&& final(self)@ == with_piece(old(self)@, piece@)
                    &&& is_sound(final(self)@)
                    &&& is_progress(event, final(self)@)
                },
                Err(error) => {
                    &&& !has_room(old(self)@, piece@.len() as int)
                    &&& final(self)@ == (DownloadView {
                        downloaded: counted(old(self)@.downloaded, piece@.len() as int),
                        ..old(self)@
                    })
                    &&& error::is_message(error, "The download exceeded its published size."@)
                },
            },
    {
        self.downloaded = self.downloaded.saturating_add(piece.len() as u64);
        if self.downloaded > MAX_DOWNLOAD_BYTES || self.downloaded > self.size.saturating_add(
            1024,
        ) {
            return Err(AppError::message("The download exceeded its published size.".to_owned()));
        }
        self.hasher.update(piece);
        let ratio = download_ratio(self.downloaded, self.size);
        let percent = operation_percent(self.start_percent, self.end_percent, ratio);
        let mut message = "Downloading ".to_owned();
        message.append(self.asset_name.as_str());
        message.append("… ");
        message.append(text::decimal(ratio as u64).as_str());
        message.append("%");
        Ok(OperationEvent::Progress { stage: self.stage.clone(), message, percent })
    }

    /// Ends the download after its last piece: the digest of the file, if the file is whole and
    /// has the published digest.
    pub fn finish(self) -> (r: AppResult<String>)
        requires
            is_sound(self@),
        ensures
            ({
                let actual = digest::file_digest(self@.bytes);
                if self@.bytes.len() != self@.size {
                    r matches Err(error) && error::is_message(
                        error,
                        "The download was incomplete (expected "@ + text::decimal_digits(
                            self@.size as nat,
                        ) + ", received "@ + text::decimal_digits(self@.bytes.len()) + " bytes)."@,
                    )
                } else {
                    match r {
                        Ok(sha256) => {
                            &&& sha256@ == actual
                            &&& is_digest_answer(digest_check(self@.digest, actual), Ok(()))
                        },
                        Err(error) => is_digest_answer(
                            digest_check(self@.digest, actual),
                            Err(error),
                        ),
                    }
                }
            }),
    {
        if self.downloaded != self.size {
            let mut message = "The download was incomplete (expected ".to_owned();
            message.append(text::decimal(self.size).as_str());
            message.append(", received ");
            message.append(text::decimal(self.downloaded).as_str());
            message.append(" bytes).");
            return Err(AppError::message(message));
        }
        let actual = self.hasher.finish();
        let checked = match &self.digest {
            Some(digest) => verify_digest(Some(digest.as_str()), actual.as_str()),
            None => verify_digest(None, actual.as_str()),
        };
        match checked {
            Ok(()) => Ok(actual),
            Err(error) => Err(error),
        }
    }
}

/// A published digest says the same of a file whether its hexadecimal text is in capital or in
/// small letters, on either side.
pub proof fn law_case_of_a_digest_is_ignored(
    expected: Seq<char>,
    other_expected: Seq<char>,
    actual: Seq<char>,
    other_actual: Seq<char>,
)
    requires
        text::same_ignoring_ascii_case(expected, other_expected),
        text::same_ignoring_ascii_case(actual, other_actual),
    ensures
        digest_check(Some("sha256:"@ + expected), actual) == digest_check(
            Some("sha256:"@ + other_expected),
            other_actual,
        ),
        digest_check(Some("sha256:"@ + expected), actual) == digest_check(
            Some("SHA256:"@ + other_expected),
            other_actual,
        ),
{
    lemma_published_text(expected);
    lemma_published_text(other_expected);
    assert(text::same_ignoring_ascii_case(expected, actual) <==> text::same_ignoring_ascii_case(
        other_expected,
        other_actual,
    )) by {
        if text::same_ignoring_ascii_case(expected, actual) {
            assert forall|i: int| 0 <= i < other_expected.len() implies text::ascii_lower(
                other_expected[i],
            ) == text::ascii_lower(other_actual[i]) by {
                assert(text::ascii_lower(expected[i]) == text::ascii_lower(actual[i]));
            }
        }
        if text::same_ignoring_ascii_case(other_expected, other_actual) {
            assert forall|i: int| 0 <= i < expected.len() implies text::ascii_lower(expected[i])
                == text::ascii_lower(actual[i]) by {
                assert(text::ascii_lower(other_expected[i]) == text::ascii_lower(other_actual[i]));
            }
        }
    }
}

/// What follows either name of the algorithm is the hexadecimal text of the digest.
proof fn lemma_published_text(expected: Seq<char>)
    ensures
        published_sha256("sha256:"@ + expected) == Some(expected),
        published_sha256("SHA256:"@ + expected) == Some(expected),
{
    reveal_strlit("sha256:");
    reveal_strlit("SHA256:");
    let small = "sha256:"@ + expected;
    let capital = "SHA256:"@ + expected;
    assert(small.subrange(0, 7) =~= "sha256:"@);
    assert(small.skip(7) =~= expected);
    assert(capital.subrange(0, 7) =~= "SHA256:"@);
    assert(capital.skip(7) =~= expected);
    assert(capital[0] == 'S');
    if "sha256:"@.is_prefix_of(capital) {
        assert(capital.subrange(0, 7)[0] == 's');
    }
}

/// A file whose published digest is its own passes the check, and a file with another digest
/// does not.
pub proof fn law_only_the_published_file_passes(published: Seq<u8>, downloaded: Seq<u8>)
    ensures
        digest_check(
            Some("sha256:"@ + digest::file_digest(published)),
            digest::file_digest(downloaded),
        ) == (if digest::sha256(published) == digest::sha256(downloaded) {
            DigestCheck::Match
        } else {
            DigestCheck::Mismatch
        }),
{
    let expected = digest::file_digest(published);
    let actual = digest::file_digest(downloaded);
    lemma_published_text(expected);
    digest::law_hexadecimal_has_two_digits_for_a_byte(digest::sha256(published));
    digest::law_hexadecimal_has_two_digits_for_a_byte(digest::sha256(downloaded));
    if text::same_ignoring_ascii_case(expected, actual) {
        assert forall|i: int| 0 <= i < expected.len() implies expected[i] == actual[i] by {
            assert(digest::is_small_hex_digit(expected[i]));
            assert(digest::is_small_hex_digit(actual[i]));
            assert(text::ascii_lower(expected[i]) == text::ascii_lower(actual[i]));
        }
        assert(expected =~= actual);
        digest::law_hexadecimal_tells_bytes_apart(
            digest::sha256(published),
            digest::sha256(downloaded),
        );
    }
}

/// A file of a release is found by its name in capital or small letters alike.
pub proof fn law_case_of_an_asset_name_is_ignored(
    assets: Seq<ApiAsset>,
    name: Seq<char>,
    other_name: Seq<char>,
    at: int,
)
    requires
        text::same_ignoring_ascii_case(name, other_name),
        is_first_asset(assets, name, at),
    ensures
        is_first_asset(assets, other_name, at),
{
    assert forall|i: int| 0 <= i < assets.len() implies text::same_ignoring_ascii_case(
        #[trigger] assets[i].name@,
        name,
    ) == text::same_ignoring_ascii_case(assets[i].name@, other_name) by {
        let asset = assets[i].name@;
        if text::same_ignoring_ascii_case(asset, name) {
            assert forall|k: int| 0 <= k < asset.len() implies text::ascii_lower(asset[k])
                == text::ascii_lower(other_name[k]) by {
                assert(text::ascii_lower(asset[k]) == text::ascii_lower(name[k]));
            }
        }
        if text::same_ignoring_ascii_case(asset, other_name) {
            assert forall|k: int| 0 <= k < asset.len() implies text::ascii_lower(asset[k])
                == text::ascii_lower(name[k]) by {
                assert(text::ascii_lower(asset[k]) == text::ascii_lower(other_name[k]));
            }
        }
    }
}

/// It does not matter how a file is cut into pieces: a piece that is accepted is accepted in two
/// parts as well, and the other way round, with the same outcome.
pub proof fn law_pieces_do_not_matter(download: DownloadView, first: Seq<u8>, second: Seq<u8>)
    requires
        is_sound(download),
    ensures
        has_room(download, (first + second).len() as int) <==> has_room(
            download,
            first.len() as int,
        ) && has_room(with_piece(download, first), second.len() as int),
        has_room(download, (first + second).len() as int) ==> with_piece(download, first + second)
            == with_piece(with_piece(download, first), second),
{
    if has_room(download, (first + second).len() as int) {
        assert(download.bytes + (first + second) =~= download.bytes + first + second);
    }
}

/// No accepted piece takes a download past the safety limit, or past its published size by more
/// than the tolerance.
pub proof fn law_downloads_stay_within_limits(download: DownloadView, piece: Seq<u8>)
    requires
        is_sound(download),
        has_room(download, piece.len() as int),
    ensures
        is_sound(with_piece(download, piece)),
        with_piece(download, piece).bytes.len() <= MAX_DOWNLOAD_BYTES,
        with_piece(download, piece).bytes.len() <= download.size + 1024,
{
}

/// The reported progress stays within the part of the operation that the download is.
pub proof fn law_progress_stays_in_its_part(start: u8, end: u8, downloaded: u64, size: u64)
    requires
        start <= end,
    ensures
        0 <= percent_done(downloaded, size) <= 100,
        start <= overall_percent(start, end, percent_done(downloaded, size)) <= end,
{
    let done = percent_done(downloaded, size);
    assert(0 <= done <= 100) by {
        if size > 0 {
            let hundredfold = if downloaded * 100 > u64::MAX {
                u64::MAX as int
            } else {
                downloaded * 100
            };
            assert(0 <= hundredfold / (size as int)) by (nonlinear_arith)
                requires
                    0 <= hundredfold,
                    size > 0,
            ;
        }
    }
    let part = end - start;
    assert(0 <= part * done <= part * 100) by (nonlinear_arith)
        requires
            0 <= part,
            0 <= done <= 100,
    ;
}

/// The reported progress never goes back while bytes arrive.
pub proof fn law_progress_never_goes_back(
    start: u8,
    end: u8,
    size: u64,
    earlier: u64,
    later: u64,
)
    requires
        start <= end,
        earlier <= later,
    ensures
        percent_done(earlier, size) <= percent_done(later, size),
        overall_percent(start, end, percent_done(earlier, size)) <= overall_percent(
            start,
            end,
            percent_done(later, size),
        ),
{
    let a = percent_done(earlier, size);
    let b = percent_done(later, size);
    assert(a <= b) by {
        if size > 0 {
            let x = if earlier * 100 > u64::MAX {
                u64::MAX as int
            } else {
                earlier * 100
            };
            let y = if later * 100 > u64::MAX {
                u64::MAX as int
            } else {
                later * 100
            };
            assert(x / (size as int) <= y / (size as int)) by (nonlinear_arith)
                requires
                    0 <= x <= y,
                    size > 0,
            ;
        }
    }
    let part = end - start;
    assert(part * a <= part * b) by (nonlinear_arith)
        requires
            0 <= part,
            a <= b,
    ;
}

/// A whole download reads as a hundred percent, and only a whole one does.
pub proof fn law_whole_downloads_are_complete(downloaded: u64, size: u64)
    requires
        0 < size <= MAX_DOWNLOAD_BYTES,
        downloaded <= MAX_DOWNLOAD_BYTES,
    ensures
        percent_done(downloaded, size) == 100 <==> downloaded >= size,
{
    let n = downloaded * 100;
    let q = n / (size as int);
    assert(q >= 100 <==> downloaded >= size) by (nonlinear_arith)
        requires
            n == downloaded * 100,
            q == n / (size as int),
            size > 0,
    ;
}

} // verus!
