//! Laws of GitHub's answers and of downloads.
use vstd::prelude::*;
use crate::digest;
use crate::digest::FileHasher;
use crate::error;
use crate::error::AppResult;
use crate::github;
use crate::github::{ApiCommit, ApiRelease, DownloadView, ReleaseDownload, SourceDownload};
use crate::models;
use crate::models::{OperationEvent, ReleaseInfo};
use crate::laws;
use crate::text;

verus! {

/// The addresses name the owner, the repository and the branch or commit, and nothing else.
pub proof fn law_addresses(
    owner: &str,
    repository: &str,
    name: &str,
    release: String,
    commit: String,
    source: String,
)
    requires
        call_ensures(github::latest_release_url, (owner, repository), release),
        call_ensures(github::latest_commit_url, (owner, repository, name), commit),
        call_ensures(github::source_url, (owner, repository, name), source),
    ensures
        release@ == "https://api.github.com/repos/"@ + owner@ + "/"@ + repository@
            + "/releases/latest"@,
        commit@ == "https://api.github.com/repos/"@ + owner@ + "/"@ + repository@ + "/commits/"@
            + name@,
        source@ == "https://codeload.github.com/"@ + owner@ + "/"@ + repository@ + "/zip/"@ + name@,
{
    assert(release@ =~= "https://api.github.com/repos/"@ + owner@ + "/"@ + repository@
        + "/releases/latest"@);
    assert(commit@ =~= "https://api.github.com/repos/"@ + owner@ + "/"@ + repository@
        + "/commits/"@ + name@);
    assert(source@ =~= "https://codeload.github.com/"@ + owner@ + "/"@ + repository@ + "/zip/"@
        + name@);
}

/// `r` is good exactly if the status is one of success, and otherwise reads as it should.
pub open spec fn tells_of_status(status: u16, r: AppResult<()>, words: Seq<char>) -> bool {
    &&& r is Ok <==> 200 <= status && status <= 299
    &&& r matches Err(error) ==> error::is_message(error, words)
}

/// An answer is read exactly if its status is from 200 to 299; any other is an error that names the
/// status and what was asked for, and a release that is not there is told of as such.
pub proof fn law_statuses(
    owner: &str,
    repository: &str,
    status: u16,
    query: AppResult<()>,
    release: AppResult<()>,
    source: AppResult<()>,
)
    requires
        call_ensures(github::check_query_status, (owner, repository, status), query),
        call_ensures(github::check_release_status, (owner, repository, status), release),
        call_ensures(SourceDownload::check_status, (owner, repository, status), source),
    ensures
        ({
            let number = text::decimal_digits(status as nat);
            let name = owner@ + "/"@ + repository@;
            &&& tells_of_status(
                status,
                query,
                "GitHub returned HTTP "@ + number + " while "@ + ("checking "@ + name) + "."@,
            )
            &&& tells_of_status(
                status,
                source,
                "GitHub returned HTTP "@ + number + " while "@ + ("downloading "@ + name) + "."@,
            )
            &&& status != 404 ==> tells_of_status(
                status,
                release,
                "GitHub returned HTTP "@ + number + " while "@ + ("checking "@ + name) + "."@,
            )
            &&& status == 404 ==> tells_of_status(
                status,
                release,
                "No published release was found for "@ + name + "."@,
            )
        }),
{
}

/// The file of a release that is taken is the first of its name, in capital or small letters, and
/// it is taken exactly if it has from 1 to 536870912 bytes; nothing of it is changed.
pub proof fn law_selecting_a_file(
    release: ApiRelease,
    name: &str,
    r: AppResult<ReleaseInfo>,
    at: int,
)
    requires
        call_ensures(github::select_release, (release, name), r),
        0 <= at < release.assets@.len(),
        text::same_ignoring_ascii_case(release.assets@[at].name@, name@),
        forall|i: int|
            0 <= i < at ==> !text::same_ignoring_ascii_case(
                #[trigger] release.assets@[i].name@,
                name@,
            ),
    ensures
        r is Ok <==> 1 <= release.assets@[at].size && release.assets@[at].size <= 536870912,
        r matches Ok(info) ==> {
            let asset = release.assets@[at];
            &&& info.tag == release.tag_name
            &&& info.asset_name == asset.name
            &&& info.download_url == asset.browser_download_url
            &&& info.size == asset.size
            &&& info.digest == asset.digest
        },
        r matches Err(error) ==> error::is_message(
            error,
            release.assets@[at].name@ + " has an unexpected download size."@,
        ),
{
    assert(github::is_first_asset(release.assets@, name@, at));
}

/// A release without a file of the name is an error that names both.
pub proof fn law_releases_without_the_file(
    release: ApiRelease,
    name: &str,
    r: AppResult<ReleaseInfo>,
)
    requires
        call_ensures(github::select_release, (release, name), r),
        forall|i: int|
            0 <= i < release.assets@.len() ==> !text::same_ignoring_ascii_case(
                #[trigger] release.assets@[i].name@,
                name@,
            ),
    ensures
        r matches Err(error) && error::is_message(
            error,
            "Release "@ + release.tag_name@ + " does not include "@ + name@ + "."@,
        ),
{
    assert(!github::has_asset(release.assets@, name@));
}

/// A commit is taken exactly if its name is forty hexadecimal digits, and then as it is.
pub proof fn law_commits(
    commit: ApiCommit,
    owner: &str,
    repository: &str,
    r: AppResult<String>,
)
    requires
        call_ensures(github::commit_name, (commit, owner, repository), r),
    ensures
        r is Ok <==> commit.sha@.len() == 40 && forall|i: int|
            0 <= i < 40 ==> {
                let code = #[trigger] commit.sha@[i] as int;
                48 <= code <= 57 || 97 <= code <= 102 || 65 <= code <= 70
            },
        r matches Ok(sha) ==> sha@ == commit.sha@,
        r matches Err(error) ==> error::is_message(
            error,
            "GitHub returned an invalid commit for "@ + (owner@ + "/"@ + repository@) + "."@,
        ),
{
    let sha = commit.sha@;
    if sha.len() == 40 && forall|i: int|
        0 <= i < 40 ==> {
            let code = #[trigger] sha[i] as int;
            48 <= code <= 57 || 97 <= code <= 102 || 65 <= code <= 70
        } {
        assert forall|i: int| 0 <= i < sha.len() implies github::is_hex_digit(#[trigger] sha[i]) by {
            let code = sha[i] as int;
            assert(48 <= code <= 57 || 97 <= code <= 102 || 65 <= code <= 70);
        }
    }
    if github::is_commit(sha) {
        assert forall|i: int| 0 <= i < 40 implies {
            let code = #[trigger] sha[i] as int;
            48 <= code <= 57 || 97 <= code <= 102 || 65 <= code <= 70
        } by {
            assert(github::is_hex_digit(sha[i]));
        }
    }
}

/// A file without a published digest passes. One with a published SHA-256 passes exactly if its
/// digest is that one, in capital or small letters. A digest of any other kind is not supported.
pub proof fn law_digests(digest: Option<&str>, actual: &str, r: AppResult<()>, hex: Seq<char>)
    requires
        call_ensures(github::verify_digest, (digest, actual), r),
    ensures
        digest is None ==> r is Ok,
        (digest matches Some(digest) && (digest@ == "sha256:"@ + hex || digest@ == "SHA256:"@ + hex))
            ==> (r is Ok <==> text::same_ignoring_ascii_case(hex, actual@)) && (r matches Err(error)
            ==> error::is_message(error, "The downloaded file failed its SHA-256 check."@)),
        (digest matches Some(digest) && !"sha256:"@.is_prefix_of(digest@)
            && !"SHA256:"@.is_prefix_of(digest@)) ==> (r matches Err(error) && error::is_message(
            error,
            "GitHub supplied an unsupported asset digest."@,
        )),
{
    if let Some(digest) = digest {
        lemma_published(hex);
    }
}

/// What follows either name of the algorithm.
proof fn lemma_published(hex: Seq<char>)
    ensures
        github::published_sha256("sha256:"@ + hex) == Some(hex),
        github::published_sha256("SHA256:"@ + hex) == Some(hex),
{
    reveal_strlit("sha256:");
    reveal_strlit("SHA256:");
    laws::text::lemma_prefix("sha256:"@, hex);
    laws::text::lemma_prefix("SHA256:"@, hex);
    let capital = "SHA256:"@ + hex;
    if "sha256:"@.is_prefix_of(capital) {
        assert(capital.subrange(0, 7)[0] == 's');
        assert(capital[0] == 'S');
    }
}

/// A piece of a source archive is taken exactly if the archive has at most 67108864 bytes with it,
/// and each piece counts.
pub proof fn law_source_archives(
    download: &mut SourceDownload,
    length: usize,
    r: AppResult<()>,
    start: SourceDownload,
)
    requires
        call_ensures(SourceDownload::new, (), start),
        call_ensures(SourceDownload::accept, (download, length), r),
    ensures
        start@ == 0,
        r is Ok <==> old(download)@ + length <= 67108864,
        r is Ok ==> final(download)@ == old(download)@ + length,
        r is Err ==> final(download)@ > 67108864,
        r matches Err(error) ==> error::is_message(
            error,
            "The download is larger than the safety limit."@,
        ),
{
}

/// How much of a file is there is the whole part of a hundred times the bytes by the size, and a
/// hundred at most; of an empty file nothing is there. A hundred times the bytes is held in 64
/// bits.
pub proof fn law_ratios(downloaded: u64, size: u64, r: u8)
    requires
        call_ensures(github::download_ratio, (downloaded, size), r),
    ensures
        size == 0 ==> r == 0,
        size > 0 ==> {
            let n = if downloaded * 100 > 18446744073709551615 {
                18446744073709551615
            } else {
                downloaded * 100
            };
            &&& n >= 100 * size ==> r == 100
            &&& n < 100 * size ==> r * size <= n && n < (r + 1) * size
        },
        downloaded <= 536870912 && size > 0 && downloaded >= size ==> r == 100,
{
    if size > 0 {
        let n = if downloaded * 100 > 18446744073709551615 {
            18446744073709551615
        } else {
            downloaded * 100
        };
        let q = n / (size as int);
        assert(q * size <= n && n < (q + 1) * size) by (nonlinear_arith)
            requires
                q == n / (size as int),
                size > 0,
                n >= 0,
        ;
        if n >= 100 * size {
            assert(q >= 100) by (nonlinear_arith)
                requires
                    n < (q + 1) * size,
                    n >= 100 * size,
                    size > 0,
            ;
        } else {
            assert(q < 100) by (nonlinear_arith)
                requires
                    q * size <= n,
                    n < 100 * size,
                    size > 0,
            ;
        }
    }
}

/// The progress of the whole is the start of the part and the hundredth of the part times the
/// ratio, where that product fits in a byte, and two more than the start where it does not.
pub proof fn law_percents(start: u8, end: u8, ratio: u8, r: u8)
    requires
        call_ensures(github::operation_percent, (start, end, ratio), r),
        start <= end,
    ensures
        (end - start) * ratio <= 255 && start <= 253 ==> 100 * (r - start) <= (end - start) * ratio
            && (end - start) * ratio < 100 * (r - start) + 100,
        (end - start) * ratio > 255 ==> r == start + 2,
        ratio <= 100 ==> start <= r <= end,
        start <= r,
{
    let part = end - start;
    assert(0 <= part * ratio) by (nonlinear_arith)
        requires
            0 <= part,
            0 <= ratio,
    ;
    if ratio <= 100 {
        assert(part * ratio <= part * 100) by (nonlinear_arith)
            requires
                0 <= part,
                ratio <= 100,
        ;
    }
    if part * ratio > 255 && part <= 1 {
        assert(part * ratio <= 255) by (nonlinear_arith)
            requires
                0 <= part <= 1,
                0 <= ratio <= 255,
        ;
    }
}

/// Any answer is read exactly if its status is from 200 to 299.
pub proof fn law_any_status(status: u16, doing: &str, r: AppResult<()>)
    requires
        call_ensures(github::check_status, (status, doing), r),
    ensures
        tells_of_status(
            status,
            r,
            "GitHub returned HTTP "@ + text::decimal_digits(status as nat) + " while "@ + doing@
                + "."@,
        ),
{
}

/// A download begins exactly if the status is from 200 to 299 and no length over 536870912 is
/// announced, and then with nothing of the file taken.
pub proof fn law_beginning_a_download(
    release: ReleaseInfo,
    status: u16,
    length: Option<u64>,
    stage: &str,
    start: u8,
    end: u8,
    r: AppResult<ReleaseDownload>,
)
    requires
        call_ensures(ReleaseDownload::begin, (&release, status, length, stage, start, end), r),
        start <= end,
    ensures
        r is Ok <==> 200 <= status && status <= 299 && (length is None || length->0 <= 536870912),
        r matches Ok(download) ==> {
            &&& download@.asset_name == release.asset_name@
            &&& download@.size == release.size
            &&& download@.digest == models::text_view(release.digest)
            &&& download@.stage == stage@
            &&& download@.start_percent == start
            &&& download@.end_percent == end
            &&& download@.downloaded == 0
            &&& download@.bytes.len() == 0
        },
        r matches Err(error) ==> error::is_message(
            error,
            if 200 <= status && status <= 299 {
                "The download is larger than the safety limit."@
            } else {
                "GitHub returned HTTP "@ + text::decimal_digits(status as nat) + " while "@ + (
                "downloading "@ + release.asset_name@) + "."@
            },
        ),
{
}

/// A piece is taken exactly if the file has with it at most 536870912 bytes and at most 1024 more
/// than its published size. A piece that is taken is added to the file as it is, and what is told
/// of it is the stage, the name and the progress.
pub proof fn law_taking_a_piece(
    download: &mut ReleaseDownload,
    piece: &[u8],
    r: AppResult<OperationEvent>,
    ratio: u8,
    percent: u8,
)
    requires
        call_ensures(ReleaseDownload::accept, (download, piece), r),
        github::is_sound(old(download)@),
        call_ensures(
            github::download_ratio,
            (final(download)@.downloaded, old(download)@.size),
            ratio,
        ),
        call_ensures(
            github::operation_percent,
            (old(download)@.start_percent, old(download)@.end_percent, ratio),
            percent,
        ),
    ensures
        r is Ok <==> old(download)@.bytes.len() + piece@.len() <= 536870912
            && old(download)@.bytes.len() + piece@.len() <= old(download)@.size + 1024,
        r matches Ok(event) ==> {
            &&& final(download)@.bytes == old(download)@.bytes + piece@
            &&& final(download)@.downloaded == final(download)@.bytes.len()
            &&& final(download)@.asset_name == old(download)@.asset_name
            &&& final(download)@.size == old(download)@.size
            &&& final(download)@.digest == old(download)@.digest
            &&& final(download)@.stage == old(download)@.stage
            &&& final(download)@.start_percent == old(download)@.start_percent
            &&& final(download)@.end_percent == old(download)@.end_percent
            &&& event matches OperationEvent::Progress { stage, message, percent: told }
            &&& stage@ == old(download)@.stage
            &&& message@ == "Downloading "@ + old(download)@.asset_name + "… "@
                + text::decimal_digits(ratio as nat) + "%"@
            &&& told == percent
        },
        r matches Err(error) ==> final(download)@.bytes == old(download)@.bytes
            && error::is_message(error, "The download exceeded its published size."@),
{
}

/// All the pieces of a file, one after the other.
pub open spec fn joined(pieces: Seq<Seq<u8>>) -> Seq<u8>
    decreases pieces.len(),
{
    if pieces.len() == 0 {
        seq![]
    } else {
        joined(pieces.drop_last()) + pieces.last()
    }
}

/// A download after these pieces, if each was taken.
pub open spec fn after_pieces(download: DownloadView, pieces: Seq<Seq<u8>>) -> Option<DownloadView>
    decreases pieces.len(),
{
    if pieces.len() == 0 {
        Some(download)
    } else {
        match after_pieces(download, pieces.drop_last()) {
            Some(before) => if github::has_room(before, pieces.last().len() as int) {
                Some(github::with_piece(before, pieces.last()))
            } else {
                None
            },
            None => None,
        }
    }
}

/// A file of at most its published size and 536870912 bytes is taken whole, however it is cut into
/// pieces.
pub proof fn law_whole_files_are_taken(download: DownloadView, pieces: Seq<Seq<u8>>)
    requires
        github::is_sound(download),
        download.bytes.len() + joined(pieces).len() <= download.size,
        download.bytes.len() + joined(pieces).len() <= 536870912,
    ensures
        after_pieces(download, pieces) matches Some(after) && after.bytes == download.bytes
            + joined(pieces) && github::is_sound(after) && after.size == download.size
            && after.digest == download.digest,
    decreases pieces.len(),
{
    if pieces.len() > 0 {
        law_whole_files_are_taken(download, pieces.drop_last());
        let before = after_pieces(download, pieces.drop_last())->0;
        assert(before.bytes + pieces.last() =~= download.bytes + joined(pieces));
    } else {
        assert(download.bytes + joined(pieces) =~= download.bytes);
    }
}

/// A download ends well exactly if all bytes of the published size came and the published digest,
/// if there is one, is that of the bytes; then its SHA-256 in hexadecimal is given.
pub proof fn law_ending_a_download(
    download: ReleaseDownload,
    r: AppResult<String>,
    hex: Seq<char>,
)
    requires
        call_ensures(ReleaseDownload::finish, (download,), r),
        github::is_sound(download@),
    ensures
        ({
            let actual = digest::hex_digits(digest::sha256(download@.bytes));
            &&& r matches Ok(sha256) ==> sha256@ == actual && download@.bytes.len()
                == download@.size
            &&& download@.bytes.len() == download@.size && download@.digest is None ==> r is Ok
            &&& download@.bytes.len() == download@.size && (download@.digest == Some(
                "sha256:"@ + hex,
            ) || download@.digest == Some("SHA256:"@ + hex)) ==> (r is Ok
                <==> text::same_ignoring_ascii_case(hex, actual))
            &&& download@.bytes.len() == download@.size && (download@.digest == Some(
                "sha256:"@ + hex,
            ) || download@.digest == Some("SHA256:"@ + hex)) ==> (r matches Err(error)
                ==> error::is_message(error, "The downloaded file failed its SHA-256 check."@))
            &&& download@.bytes.len() == download@.size && (download@.digest matches Some(digest)
                && !"sha256:"@.is_prefix_of(digest) && !"SHA256:"@.is_prefix_of(digest)) ==> (
            r matches Err(error) && error::is_message(
                error,
                "GitHub supplied an unsupported asset digest."@,
            ))
            &&& download@.bytes.len() != download@.size ==> (r matches Err(error)
                && error::is_message(
                error,
                "The download was incomplete (expected "@ + text::decimal_digits(
                    download@.size as nat,
                ) + ", received "@ + text::decimal_digits(download@.bytes.len()) + " bytes)."@,
            ))
        }),
{
    lemma_published(hex);
}

/// The digest of a file is that of all its pieces together, in order.
pub proof fn law_hashing(
    start: FileHasher,
    hasher: &mut FileHasher,
    piece: &[u8],
    finished: FileHasher,
    r: String,
)
    requires
        call_ensures(FileHasher::new, (), start),
        call_ensures(FileHasher::update, (hasher, piece), ()),
        call_ensures(FileHasher::finish, (finished,), r),
    ensures
        start@.len() == 0,
        final(hasher)@ == old(hasher)@ + piece@,
        r@ == digest::hex_digits(digest::sha256(finished@)),
        r@.len() == 64,
{
}

/// The value of a hexadecimal digit.
pub open spec fn digit_value(c: char) -> int {
    if c as int <= 57 {
        c as int - 48
    } else {
        c as int - 87
    }
}

/// In hexadecimal each byte is two digits, the first for its sixteens and the second for its ones.
pub proof fn law_hexadecimal(bytes: Seq<u8>, i: int)
    requires
        0 <= i < bytes.len(),
    ensures
        digest::hex_digits(bytes).len() == 2 * bytes.len(),
        16 * digit_value(digest::hex_digits(bytes)[2 * i]) + digit_value(
            digest::hex_digits(bytes)[2 * i + 1],
        ) == bytes[i],
        0 <= digit_value(digest::hex_digits(bytes)[2 * i]) < 16,
        0 <= digit_value(digest::hex_digits(bytes)[2 * i + 1]) < 16,
    decreases bytes.len(),
{
    digest::law_hexadecimal_has_two_digits_for_a_byte(bytes);
    let start = bytes.drop_last();
    digest::law_hexadecimal_has_two_digits_for_a_byte(start);
    let last = bytes.last();
    let digits = digest::hex_digits(bytes);
    assert(digits == digest::hex_digits(start).push(digest::hex_digit(last / 16)).push(
        digest::hex_digit(last % 16),
    ));
    if i < start.len() {
        law_hexadecimal(start, i);
    } else {
        assert(bytes[i] == last);
    }
}

} // verus!
