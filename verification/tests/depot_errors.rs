use sunrise_launcher::depot_errors::{
    classify_authentication, classify_result, os_message, os_messages, os_messages_of, DepotFailure,
    DepotFailureScanner, Platform, LOW_SPACE_BYTES,
};

fn scan(lines: &[&str]) -> Option<DepotFailure> {
    let mut scanner = DepotFailureScanner::default();
    for line in lines {
        scanner.observe_line(line);
    }
    scanner.failure()
}

#[test]
fn wrong_password_is_named_before_the_generic_lines() {
    assert_eq!(
        scan(&[
            "Failed to authenticate with Steam: Authentication failed with result InvalidPassword.",
            "Unable to get steam3 credentials.",
            "Error: InitializeSteam failed",
        ]),
        Some(DepotFailure::WrongPassword)
    );
}

#[test]
fn steam_guard_and_confirmation_expiry_are_separate() {
    assert_eq!(
        scan(&[
            "Failed to authenticate with Steam: Failed to send steam guard code with result Expired."
        ]),
        Some(DepotFailure::SteamGuardExpired)
    );
    assert_eq!(
        scan(&[
            "Failed to authenticate with Steam: Failed to poll status with result FileNotFound."
        ]),
        Some(DepotFailure::SignInExpired)
    );
}

#[test]
fn rate_limit_and_saved_token_are_classified() {
    assert_eq!(
        scan(&[
            "Failed to authenticate with Steam: Authentication failed with result RateLimitExceeded."
        ]),
        Some(DepotFailure::RateLimited)
    );
    assert_eq!(
        scan(&["Access token was rejected (Expired)."]),
        Some(DepotFailure::SavedSignInRejected)
    );
    assert_eq!(
        scan(&["Unable to login to Steam3: ServiceUnavailable"]),
        Some(DepotFailure::SteamUnavailable)
    );
}

#[test]
fn unknown_authentication_text_keeps_its_detail() {
    assert_eq!(
        scan(&["Failed to authenticate with Steam: There are no allowed confirmations"]),
        Some(DepotFailure::SignInFailed(
            "There are no allowed confirmations".into()
        ))
    );
}

#[test]
fn ownership_and_content_failures_are_classified() {
    assert_eq!(
        scan(&["Depot 1085661 is not available from this account."]),
        Some(DepotFailure::NotOwned)
    );
    assert_eq!(
        scan(&["Encountered 404 for depot manifest 1085661 123. Aborting."]),
        Some(DepotFailure::ContentUnavailable)
    );
    assert_eq!(
        scan(&["Could not connect to Steam after 10 tries"]),
        Some(DepotFailure::ConnectionFailed)
    );
}

#[test]
fn disk_and_lock_failures_are_classified() {
    assert_eq!(
        scan(&[
            "Failed to allocate file D:\\Game\\a.pkg: There is not enough space on the disk. : 'D:\\Game\\a.pkg'"
        ]),
        Some(DepotFailure::DiskFull)
    );
    assert_eq!(
        scan(&[
            "Download failed to due to an unhandled exception: No space left on device : '/game/a.pkg'"
        ]),
        Some(DepotFailure::DiskFull)
    );
    assert_eq!(
        scan(&[
            "Failed to allocate file D:\\Game\\a.pkg: The process cannot access the file 'D:\\Game\\a.pkg' because it is being used by another process."
        ]),
        Some(DepotFailure::FileLocked)
    );
    assert_eq!(
        scan(&["Failed to allocate file D:\\Game\\a.pkg: Access to the path is denied."]),
        Some(DepotFailure::FileWriteFailed)
    );
}

#[test]
fn retried_and_informational_lines_are_not_failures() {
    assert_eq!(
        scan(&[
            "Connection to Steam failed. Trying again (#1)...",
            "Encountered error downloading chunk abc: ServiceUnavailable",
            "Connection timeout downloading depot manifest 1 2. Retrying.",
            "The previous 2-factor auth code you have provided is incorrect.",
            "This account is protected by Steam Guard.",
            "Download failed to due to an unhandled exception: Object reference not set",
        ]),
        None
    );
}

#[test]
fn the_first_failure_is_kept() {
    assert_eq!(
        scan(&[
            "Downloading depot 1085661",
            "Unable to get license list: Timeout",
            "Access token was rejected (Expired).",
        ]),
        Some(DepotFailure::SteamUnavailable)
    );
}

#[test]
fn space_around_a_line_is_ignored() {
    assert_eq!(
        scan(&["\t \u{a0}No valid depot key for 1085661\r\n"]),
        Some(DepotFailure::NotOwned)
    );
    assert_eq!(
        scan(&["Unable to login to Steam3:   Busy  "]),
        Some(DepotFailure::SteamUnavailable)
    );
}

#[test]
fn other_content_failures_are_classified() {
    for line in [
        "Couldn't find any depots to download for app 1085660",
        "Depot 7 not listed for app 1085660",
        "Depot 7 missing public subsection or manifest section.",
        "Encountered 404 for chunk abc. Aborting.",
    ] {
        assert_eq!(scan(&[line]), Some(DepotFailure::ContentUnavailable));
    }
    assert_eq!(
        scan(&["Failed to find any server with chunk abc"]),
        Some(DepotFailure::ConnectionFailed)
    );
    assert_eq!(scan(&["Encountered 404 for chunk abc. Retrying."]), None);
    assert_eq!(scan(&["The Depot 7 not listed for app 1085660"]), None);
}

#[test]
fn file_errors_are_told_apart() {
    let scanner = DepotFailureScanner::with_words(
        vec!["le disque est plein".to_string()],
        vec!["occupé".to_string()],
    );
    assert_eq!(
        scanner.classify_io("LE DISQUE EST PLEIN", false),
        Some(DepotFailure::DiskFull)
    );
    assert_eq!(
        scanner.classify_io("Le fichier est OCCUPÉ.", false),
        Some(DepotFailure::FileLocked)
    );
    assert_eq!(
        scanner.classify_io("System.IO.IOException: x", false),
        Some(DepotFailure::FileWriteFailed)
    );
    assert_eq!(
        scanner.classify_io("System.UnauthorizedAccessException: x", false),
        Some(DepotFailure::FileWriteFailed)
    );
    assert_eq!(scanner.classify_io("x", false), None);
    assert_eq!(
        scanner.classify_io("x", true),
        Some(DepotFailure::FileWriteFailed)
    );
    assert_eq!(
        scanner.classify_lowered_io("NO SPACE LEFT ON DEVICE", false),
        None
    );
    assert_eq!(
        scanner.classify("Failed to resize file to expected size a: x"),
        Some(DepotFailure::FileWriteFailed)
    );
    assert_eq!(
        scanner.classify("Unhandled exception. System.IO.IOException: x"),
        Some(DepotFailure::FileWriteFailed)
    );
    assert_eq!(
        scanner.classify("Error: Unable to create install directories!"),
        Some(DepotFailure::FileWriteFailed)
    );
}

#[test]
fn result_codes_are_classified() {
    for (code, failure) in [
        ("AccountNotFound", DepotFailure::WrongPassword),
        ("InvalidName", DepotFailure::WrongPassword),
        ("AccountLoginDeniedThrottle", DepotFailure::RateLimited),
        ("LimitExceeded", DepotFailure::RateLimited),
        ("AccountDisabled", DepotFailure::AccountRestricted("AccountDisabled".into())),
        ("AccountLockedDown", DepotFailure::AccountRestricted("AccountLockedDown".into())),
        ("Suspended", DepotFailure::AccountRestricted("Suspended".into())),
        ("Banned", DepotFailure::AccountRestricted("Banned".into())),
        ("Revoked", DepotFailure::AccountRestricted("Revoked".into())),
        ("Timeout", DepotFailure::SteamUnavailable),
        ("TryAnotherCM", DepotFailure::SteamUnavailable),
        ("NoConnection", DepotFailure::ConnectionFailed),
        ("ConnectFailed", DepotFailure::ConnectionFailed),
        ("RemoteDisconnect", DepotFailure::ConnectionFailed),
        ("Expired", DepotFailure::SignInExpired),
        ("Fail", DepotFailure::SignInFailed("Fail".into())),
        ("", DepotFailure::SignInFailed("".into())),
    ] {
        assert_eq!(classify_result(code), failure);
    }
}

#[test]
fn authentication_uses_the_last_result() {
    assert_eq!(
        classify_authentication("a with result Banned with result InvalidPassword..."),
        DepotFailure::WrongPassword
    );
    assert_eq!(
        classify_authentication("Failed to send steam guard code with result Expired with result Busy"),
        DepotFailure::SteamUnavailable
    );
    assert_eq!(
        classify_authentication("  no code  "),
        DepotFailure::SignInFailed("no code".into())
    );
}

#[test]
fn messages_read_as_written() {
    assert_eq!(
        DepotFailure::WrongPassword.message(),
        "Steam did not accept the username or password. Check both and try again."
    );
    assert_eq!(
        DepotFailure::AccountRestricted("Banned".into()).message(),
        "Steam refused to sign in to this account (Banned). Check the account on the Steam website."
    );
    assert_eq!(
        DepotFailure::SignInFailed("Fail".into()).message(),
        "Steam sign-in failed (Fail). Try again."
    );
    assert_eq!(
        DepotFailure::DiskFull.message(),
        "The install drive is full. Free up space and try again."
    );
}

#[test]
fn failed_writes_on_a_full_drive_are_refined() {
    assert_eq!(
        DepotFailure::FileWriteFailed.refine(Some(LOW_SPACE_BYTES - 1)),
        DepotFailure::DiskFull
    );
    assert_eq!(
        DepotFailure::FileWriteFailed.refine(Some(LOW_SPACE_BYTES)),
        DepotFailure::FileWriteFailed
    );
    assert_eq!(
        DepotFailure::FileWriteFailed.refine(None),
        DepotFailure::FileWriteFailed
    );
    assert_eq!(
        DepotFailure::FileLocked.refine(Some(0)),
        DepotFailure::FileLocked
    );
    assert_eq!(LOW_SPACE_BYTES, 1_073_741_824);
}

#[test]
fn system_words_are_normalised() {
    assert_eq!(
        os_message("No Space left on device. (os error 28)"),
        Some("no space left on device".to_string())
    );
    assert_eq!(os_message(" ... (os error 1)"), None);
    assert_eq!(
        os_messages_of(&vec!["A".to_string(), " (os error 3)".to_string(), "B..".to_string()]),
        vec!["a".to_string(), "b".to_string()]
    );
}

#[test]
fn the_running_system_has_words_for_a_full_disk() {
    let platform = Platform::of_separator(std::path::MAIN_SEPARATOR);
    let words = os_messages(&platform.disk_full_os_errors());
    assert!(!words.is_empty());
    let mut scanner = DepotFailureScanner::for_platform(platform);
    scanner.observe_line(&format!(
        "Unhandled exception. System.Exception: {}",
        words[0].to_uppercase()
    ));
    assert_eq!(scanner.failure(), Some(DepotFailure::DiskFull));
    assert_eq!(Platform::Windows.disk_full_os_errors(), vec![112, 39]);
    assert_eq!(Platform::Windows.file_locked_os_errors(), vec![32, 33]);
    assert_eq!(Platform::Other.disk_full_os_errors(), vec![28]);
    assert!(Platform::Other.file_locked_os_errors().is_empty());
    assert_eq!(Platform::of_separator('\\'), Platform::Windows);
    assert_eq!(Platform::of_separator('/'), Platform::Other);
}
