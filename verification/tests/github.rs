use sunrise_launcher::digest::FileHasher;
use sunrise_launcher::github::{
    check_query_status, check_release_status, check_status, commit_name, download_ratio,
    latest_commit_url, latest_release_url, operation_percent, select_release, source_url,
    verify_digest, ApiAsset, ApiCommit, ApiRelease, ReleaseDownload, SourceDownload,
    MAX_DOWNLOAD_BYTES, MAX_SOURCE_BYTES,
};
use sunrise_launcher::models::{OperationEvent, ReleaseInfo};

const ABC_SHA256: &str = "ba7816bf8f01cfea414140de5dae2223b00361a396177a9cb410ff61f20015ad";

fn asset(name: &str, size: u64) -> ApiAsset {
    ApiAsset {
        name: name.into(),
        browser_download_url: format!("https://example.org/{name}"),
        size,
        digest: None,
    }
}

fn release(size: u64, digest: Option<&str>) -> ReleaseInfo {
    ReleaseInfo {
        tag: "v1".into(),
        asset_name: "a.dll".into(),
        download_url: "https://example.org/a.dll".into(),
        size,
        digest: digest.map(|digest| digest.to_string()),
    }
}

fn begin(release: &ReleaseInfo) -> ReleaseDownload {
    match ReleaseDownload::begin(release, 200, None, "sunrise", 10, 12) {
        Ok(download) => download,
        Err(error) => panic!("{}", error.text()),
    }
}

fn progress(event: OperationEvent) -> (String, String, u8) {
    match event {
        OperationEvent::Progress { stage, message, percent } => (stage, message, percent),
    }
}

#[test]
fn accepts_matching_github_digest() {
    assert!(verify_digest(Some("sha256:aabb"), "AABB").is_ok());
}

#[test]
fn rejects_mismatched_github_digest() {
    assert!(verify_digest(Some("sha256:aabb"), "ccdd").is_err());
}

#[test]
fn digests_are_compared_by_kind() {
    assert!(verify_digest(None, "aabb").is_ok());
    assert!(verify_digest(Some("SHA256:AABB"), "aabb").is_ok());
    assert_eq!(
        verify_digest(Some("md5:aabb"), "aabb").expect_err("unsupported").text(),
        "GitHub supplied an unsupported asset digest."
    );
    assert_eq!(
        verify_digest(Some("Sha256:aabb"), "aabb").expect_err("unsupported").text(),
        "GitHub supplied an unsupported asset digest."
    );
    assert_eq!(
        verify_digest(Some("sha256:aabb"), "aab").expect_err("mismatch").text(),
        "The downloaded file failed its SHA-256 check."
    );
}

#[test]
fn addresses_are_built() {
    assert_eq!(
        latest_release_url("o", "r"),
        "https://api.github.com/repos/o/r/releases/latest"
    );
    assert_eq!(
        latest_commit_url("o", "r", "main"),
        "https://api.github.com/repos/o/r/commits/main"
    );
    assert_eq!(source_url("o", "r", "c"), "https://codeload.github.com/o/r/zip/c");
}

#[test]
fn statuses_are_checked() {
    assert!(check_status(200, "x").is_ok());
    assert!(check_status(299, "x").is_ok());
    assert!(check_status(199, "x").is_err());
    assert_eq!(
        check_status(300, "x").expect_err("status").text(),
        "GitHub returned HTTP 300 while x."
    );
    assert_eq!(
        check_release_status("o", "r", 404).expect_err("status").text(),
        "No published release was found for o/r."
    );
    assert_eq!(
        check_release_status("o", "r", 500).expect_err("status").text(),
        "GitHub returned HTTP 500 while checking o/r."
    );
    assert!(check_release_status("o", "r", 200).is_ok());
    assert_eq!(
        check_query_status("o", "r", 404).expect_err("status").text(),
        "GitHub returned HTTP 404 while checking o/r."
    );
    assert_eq!(
        SourceDownload::check_status("o", "r", 403).expect_err("status").text(),
        "GitHub returned HTTP 403 while downloading o/r."
    );
}

#[test]
fn the_first_asset_of_the_name_is_selected() {
    let api = ApiRelease {
        tag_name: "v2".into(),
        assets: vec![asset("other.dll", 1), asset("A.DLL", 5), asset("a.dll", 6)],
    };
    let info = match select_release(api, "a.dll") {
        Ok(info) => info,
        Err(error) => panic!("{}", error.text()),
    };
    assert_eq!(info.tag, "v2");
    assert_eq!(info.asset_name, "A.DLL");
    assert_eq!(info.download_url, "https://example.org/A.DLL");
    assert_eq!(info.size, 5);
    assert_eq!(info.digest, None);
}

#[test]
fn unusable_releases_are_refused() {
    let api = |assets| ApiRelease { tag_name: "v2".into(), assets };
    assert_eq!(
        select_release(api(vec![asset("b", 1)]), "a").expect_err("missing").text(),
        "Release v2 does not include a."
    );
    for size in [0, MAX_DOWNLOAD_BYTES + 1] {
        assert_eq!(
            select_release(api(vec![asset("a", size)]), "a").expect_err("size").text(),
            "a has an unexpected download size."
        );
    }
    assert!(select_release(api(vec![asset("a", MAX_DOWNLOAD_BYTES)]), "a").is_ok());
}

#[test]
fn commits_are_forty_digits() {
    let name = "0123456789abcdefABCDEF0123456789abcdef01";
    assert_eq!(
        commit_name(ApiCommit { sha: name.into() }, "o", "r").expect("commit"),
        name
    );
    for sha in ["", &name[1..], "0123456789abcdefABCDEF0123456789abcdef0g"] {
        assert_eq!(
            commit_name(ApiCommit { sha: sha.into() }, "o", "r").expect_err("invalid").text(),
            "GitHub returned an invalid commit for o/r."
        );
    }
}

#[test]
fn source_downloads_are_limited() {
    let mut download = SourceDownload::new();
    assert!(download.accept(MAX_SOURCE_BYTES as usize).is_ok());
    assert!(download.accept(0).is_ok());
    assert_eq!(
        download.accept(1).expect_err("limit").text(),
        "The download is larger than the safety limit."
    );
    assert!(SourceDownload::new().accept(usize::MAX).is_err());
}

#[test]
fn downloads_report_progress_and_their_digest() {
    let info = release(3, Some(&format!("sha256:{}", ABC_SHA256.to_uppercase())));
    let mut download = begin(&info);
    assert_eq!(
        progress(download.accept(b"a").expect("piece")),
        ("sunrise".into(), "Downloading a.dll… 33%".into(), 10)
    );
    assert_eq!(
        progress(download.accept(b"bc").expect("piece")),
        ("sunrise".into(), "Downloading a.dll… 100%".into(), 12)
    );
    assert_eq!(download.finish().expect("digest"), ABC_SHA256);
}

#[test]
fn pieces_do_not_matter() {
    let info = release(3, None);
    for pieces in [vec!["abc"], vec!["a", "b", "c"], vec!["", "ab", "c"]] {
        let mut download = begin(&info);
        for piece in pieces {
            assert!(download.accept(piece.as_bytes()).is_ok());
        }
        assert_eq!(download.finish().expect("digest"), ABC_SHA256);
    }
}

#[test]
fn wrong_downloads_are_refused() {
    let info = release(4, None);
    let mut download = begin(&info);
    assert!(download.accept(b"abc").is_ok());
    assert_eq!(
        download.finish().expect_err("short").text(),
        "The download was incomplete (expected 4, received 3 bytes)."
    );

    let info = release(1, None);
    let mut download = begin(&info);
    assert!(download.accept(&[0; 1025]).is_ok());
    assert_eq!(
        download.accept(&[0]).expect_err("long").text(),
        "The download exceeded its published size."
    );

    let info = release(3, Some("sha256:00"));
    let mut download = begin(&info);
    assert!(download.accept(b"abc").is_ok());
    assert_eq!(
        download.finish().expect_err("digest").text(),
        "The downloaded file failed its SHA-256 check."
    );
}

#[test]
fn announced_lengths_and_statuses_are_checked() {
    let info = release(3, None);
    let too_long = Some(MAX_DOWNLOAD_BYTES + 1);
    let message = |result: Result<ReleaseDownload, sunrise_launcher::error::AppError>| match result {
        Ok(_) => panic!("not refused"),
        Err(error) => error.text(),
    };
    assert_eq!(
        message(ReleaseDownload::begin(&info, 200, too_long, "s", 0, 0)),
        "The download is larger than the safety limit."
    );
    assert_eq!(
        message(ReleaseDownload::begin(&info, 503, too_long, "s", 0, 0)),
        "GitHub returned HTTP 503 while downloading a.dll."
    );
    assert!(ReleaseDownload::begin(&info, 200, Some(MAX_DOWNLOAD_BYTES), "s", 0, 0).is_ok());
}

#[test]
fn progress_is_computed_in_bytes() {
    assert_eq!(download_ratio(0, 0), 0);
    assert_eq!(download_ratio(1, 3), 33);
    assert_eq!(download_ratio(7, 3), 100);
    assert_eq!(download_ratio(u64::MAX, u64::MAX), 1);
    assert_eq!(operation_percent(10, 12, 50), 11);
    assert_eq!(operation_percent(10, 90, 100), 12);
    assert_eq!(operation_percent(200, 255, 100), 202);
    assert_eq!(operation_percent(5, 5, 100), 5);
}

#[test]
fn files_are_hashed_piece_by_piece() {
    let mut hasher = FileHasher::new();
    assert_eq!(
        FileHasher::new().finish(),
        "e3b0c44298fc1c149afbf4c8996fb92427ae41e4649b934ca495991b7852b855"
    );
    hasher.update(b"ab");
    hasher.update(b"c");
    assert_eq!(hasher.finish(), ABC_SHA256);
}
