//! What DepotDownloader reports when a download fails, and how the user is told.
use vstd::prelude::*;
use vstd::string::StringExecFns;
use crate::text;

verus! {

/// Below this much free space, a failed file write counts as a full disk.
pub const LOW_SPACE_BYTES: u64 = 1024 * 1024 * 1024;

/// Why a download ended.
#[derive(Debug, PartialEq, Eq)]
pub enum DepotFailure {
    WrongPassword,
    SteamGuardExpired,
    SignInExpired,
    SavedSignInRejected,
    RateLimited,
    AccountRestricted(String),
    SignInFailed(String),
    SteamUnavailable,
    ConnectionFailed,
    NotOwned,
    ContentUnavailable,
    DiskFull,
    FileLocked,
    FileWriteFailed,
}

/// A failure with its detail as a sequence of characters.
pub enum DepotFailureView {
    WrongPassword,
    SteamGuardExpired,
    SignInExpired,
    SavedSignInRejected,
    RateLimited,
    AccountRestricted(Seq<char>),
    SignInFailed(Seq<char>),
    SteamUnavailable,
    ConnectionFailed,
    NotOwned,
    ContentUnavailable,
    DiskFull,
    FileLocked,
    FileWriteFailed,
}

impl View for DepotFailure {
    type V = DepotFailureView;

    open spec fn view(&self) -> DepotFailureView {
        match *self {
            DepotFailure::WrongPassword => DepotFailureView::WrongPassword,
            DepotFailure::SteamGuardExpired => DepotFailureView::SteamGuardExpired,
            DepotFailure::SignInExpired => DepotFailureView::SignInExpired,
            DepotFailure::SavedSignInRejected => DepotFailureView::SavedSignInRejected,
            DepotFailure::RateLimited => DepotFailureView::RateLimited,
            DepotFailure::AccountRestricted(result) => DepotFailureView::AccountRestricted(result@),
            DepotFailure::SignInFailed(result) => DepotFailureView::SignInFailed(result@),
            DepotFailure::SteamUnavailable => DepotFailureView::SteamUnavailable,
            DepotFailure::ConnectionFailed => DepotFailureView::ConnectionFailed,
            DepotFailure::NotOwned => DepotFailureView::NotOwned,
            DepotFailure::ContentUnavailable => DepotFailureView::ContentUnavailable,
            DepotFailure::DiskFull => DepotFailureView::DiskFull,
            DepotFailure::FileLocked => DepotFailureView::FileLocked,
            DepotFailure::FileWriteFailed => DepotFailureView::FileWriteFailed,
        }
    }
}

/// The view of a failure that may be absent.
pub open spec fn failure_view(failure: Option<DepotFailure>) -> Option<DepotFailureView> {
    match failure {
        Some(failure) => Some(failure@),
        None => None,
    }
}

/// What the user reads about a failure.
pub open spec fn failure_message(failure: DepotFailureView) -> Seq<char> {
    match failure {
        DepotFailureView::WrongPassword =>
            "Steam did not accept the username or password. Check both and try again."@,
        DepotFailureView::SteamGuardExpired =>
            "The Steam Guard code expired. Start again and enter a new code."@,
        DepotFailureView::SignInExpired =>
            "The Steam sign-in request expired or was declined. Start again and approve it in the Steam Mobile App."@,
        DepotFailureView::SavedSignInRejected =>
            "Your saved Steam sign-in is no longer valid. Start again to sign in."@,
        DepotFailureView::RateLimited =>
            "Steam blocked sign-in because of too many attempts. Wait a while, then try again."@,
        DepotFailureView::AccountRestricted(result) =>
            "Steam refused to sign in to this account ("@ + result
                + "). Check the account on the Steam website."@,
        DepotFailureView::SignInFailed(result) =>
            "Steam sign-in failed ("@ + result + "). Try again."@,
        DepotFailureView::SteamUnavailable => "Steam is not available right now. Try again later."@,
        DepotFailureView::ConnectionFailed =>
            "Could not reach Steam. Check your internet connection and try again."@,
        DepotFailureView::NotOwned =>
            "This Steam account cannot download Destiny 2. Sign in with the account that owns it."@,
        DepotFailureView::ContentUnavailable =>
            "Steam did not provide the Destiny 2 files. Try again later."@,
        DepotFailureView::DiskFull => "The install drive is full. Free up space and try again."@,
        DepotFailureView::FileLocked =>
            "A game file is in use by another program. Close Destiny 2 and anything using the install folder, then try again."@,
        DepotFailureView::FileWriteFailed =>
            "Could not write the game files. Check that the install folder is writable and not blocked by antivirus."@,
    }
}

/// The failure that a drive's free space makes of another: a failed write on a nearly full drive
/// is a full disk.
pub open spec fn refined(failure: DepotFailureView, free_space: Option<u64>) -> DepotFailureView {
    if failure == DepotFailureView::FileWriteFailed && free_space is Some && free_space->0
        < LOW_SPACE_BYTES {
        DepotFailureView::DiskFull
    } else {
        failure
    }
}

impl Clone for DepotFailure {
    fn clone(&self) -> (r: Self)
        ensures
            r@ == self@,
    {
        match self {
            DepotFailure::WrongPassword => DepotFailure::WrongPassword,
            DepotFailure::SteamGuardExpired => DepotFailure::SteamGuardExpired,
            DepotFailure::SignInExpired => DepotFailure::SignInExpired,
            DepotFailure::SavedSignInRejected => DepotFailure::SavedSignInRejected,
            DepotFailure::RateLimited => DepotFailure::RateLimited,
            DepotFailure::AccountRestricted(result) => DepotFailure::AccountRestricted(
                result.clone(),
            ),
            DepotFailure::SignInFailed(result) => DepotFailure::SignInFailed(result.clone()),
            DepotFailure::SteamUnavailable => DepotFailure::SteamUnavailable,
            DepotFailure::ConnectionFailed => DepotFailure::ConnectionFailed,
            DepotFailure::NotOwned => DepotFailure::NotOwned,
            DepotFailure::ContentUnavailable => DepotFailure::ContentUnavailable,
            DepotFailure::DiskFull => DepotFailure::DiskFull,
            DepotFailure::FileLocked => DepotFailure::FileLocked,
            DepotFailure::FileWriteFailed => DepotFailure::FileWriteFailed,
        }
    }
}

impl DepotFailure {
    /// What the user reads about the failure.
    pub fn message(&self) -> (r: String)
        ensures
            r@ == failure_message(self@),
    {
        match self {
            DepotFailure::WrongPassword =>
                "Steam did not accept the username or password. Check both and try again.".to_owned(),
            DepotFailure::SteamGuardExpired =>
                "The Steam Guard code expired. Start again and enter a new code.".to_owned(),
            DepotFailure::SignInExpired =>
                "The Steam sign-in request expired or was declined. Start again and approve it in the Steam Mobile App.".to_owned(),
            DepotFailure::SavedSignInRejected =>
                "Your saved Steam sign-in is no longer valid. Start again to sign in.".to_owned(),
            DepotFailure::RateLimited =>
                "Steam blocked sign-in because of too many attempts. Wait a while, then try again.".to_owned(),
            DepotFailure::AccountRestricted(result) => {
                let mut message = "Steam refused to sign in to this account (".to_owned();
                message.append(result.as_str());
                message.append("). Check the account on the Steam website.");
                message
            },
            DepotFailure::SignInFailed(result) => {
                let mut message = "Steam sign-in failed (".to_owned();
                message.append(result.as_str());
                message.append("). Try again.");
                message
            },
            DepotFailure::SteamUnavailable =>
                "Steam is not available right now. Try again later.".to_owned(),
            DepotFailure::ConnectionFailed =>
                "Could not reach Steam. Check your internet connection and try again.".to_owned(),
            DepotFailure::NotOwned =>
                "This Steam account cannot download Destiny 2. Sign in with the account that owns it.".to_owned(),
            DepotFailure::ContentUnavailable =>
                "Steam did not provide the Destiny 2 files. Try again later.".to_owned(),
            DepotFailure::DiskFull =>
                "The install drive is full. Free up space and try again.".to_owned(),
            DepotFailure::FileLocked =>
                "A game file is in use by another program. Close Destiny 2 and anything using the install folder, then try again.".to_owned(),
            DepotFailure::FileWriteFailed =>
                "Could not write the game files. Check that the install folder is writable and not blocked by antivirus.".to_owned(),
        }
    }

    /// A failed write on a nearly full drive is reported as a full disk. `free_space` is the
    /// number of free bytes on the install drive, where it could be read.
    pub fn refine(self, free_space: Option<u64>) -> (r: Self)
        ensures
            r@ == refined(self@, free_space),
            r == self || r@ == DepotFailureView::DiskFull,
    {
        let is_low = match free_space {
            Some(free) => free < LOW_SPACE_BYTES,
            None => false,
        };
        match self {
            DepotFailure::FileWriteFailed if is_low => DepotFailure::DiskFull,
            other => other,
        }
    }
}

/// The failure that a Steam result code stands for.
pub open spec fn result_failure(result: Seq<char>) -> DepotFailureView {
    if result == "InvalidPassword"@ || result == "AccountNotFound"@ || result == "InvalidName"@ {
        DepotFailureView::WrongPassword
    } else if result == "RateLimitExceeded"@ || result == "AccountLoginDeniedThrottle"@ || result
        == "LimitExceeded"@ {
        DepotFailureView::RateLimited
    } else if result == "AccountDisabled"@ || result == "AccountLockedDown"@ || result
        == "Suspended"@ || result == "Banned"@ || result == "Revoked"@ {
        DepotFailureView::AccountRestricted(result)
    } else if result == "ServiceUnavailable"@ || result == "Busy"@ || result == "Timeout"@ || result
        == "TryAnotherCM"@ {
        DepotFailureView::SteamUnavailable
    } else if result == "NoConnection"@ || result == "ConnectFailed"@ || result
        == "RemoteDisconnect"@ {
        DepotFailureView::ConnectionFailed
    } else if result == "Expired"@ {
        DepotFailureView::SignInExpired
    } else {
        DepotFailureView::SignInFailed(result)
    }
}

/// The failure that the text of an authentication error stands for. SteamKit writes such an error
/// as a message, ` with result `, a result code and a full stop.
pub open spec fn authentication_failure(detail: Seq<char>) -> DepotFailureView {
    match text::split_at_last(detail, " with result "@) {
        None => DepotFailureView::SignInFailed(text::trimmed(detail)),
        Some((message, rest)) => {
            let result = text::without_trailing(text::trimmed(rest), '.');
            if message == "Failed to send steam guard code"@ && result == "Expired"@ {
                DepotFailureView::SteamGuardExpired
            } else if message == "Failed to poll status"@ && (result == "Expired"@ || result
                == "FileNotFound"@) {
                DepotFailureView::SignInExpired
            } else {
                result_failure(result)
            }
        },
    }
}

/// One of `parts` stands in `text`.
pub open spec fn occurs_any(text: Seq<char>, parts: Seq<Seq<char>>) -> bool {
    exists|i: int| 0 <= i < parts.len() && text::occurs(text, #[trigger] parts[i])
}

/// The failure that the text of a file error stands for, given in small letters. `disk_full` and
/// `file_locked` are the operating system's own words for these two conditions.
pub open spec fn io_failure(
    lowered: Seq<char>,
    is_write: bool,
    disk_full: Seq<Seq<char>>,
    file_locked: Seq<Seq<char>>,
) -> Option<DepotFailureView> {
    if occurs_any(lowered, disk_full) || text::occurs(lowered, "not enough space on the disk"@) || text::occurs(
        lowered,
        "no space left on device"@,
    ) {
        Some(DepotFailureView::DiskFull)
    } else if occurs_any(lowered, file_locked) || text::occurs(
        lowered,
        "being used by another process"@,
    ) {
        Some(DepotFailureView::FileLocked)
    } else if is_write || text::occurs(lowered, "ioexception"@) || text::occurs(
        lowered,
        "unauthorizedaccessexception"@,
    ) {
        Some(DepotFailureView::FileWriteFailed)
    } else {
        None
    }
}

/// What follows the words with which DepotDownloader introduces a file error, if `line` starts
/// with such words.
pub open spec fn io_detail(line: Seq<char>) -> Option<Seq<char>> {
    if "Failed to allocate file "@.is_prefix_of(line) {
        Some(line.skip("Failed to allocate file "@.len() as int))
    } else if "Failed to resize file to expected size "@.is_prefix_of(line) {
        Some(line.skip("Failed to resize file to expected size "@.len() as int))
    } else if "Download failed to due to an unhandled exception: "@.is_prefix_of(line) {
        Some(line.skip("Download failed to due to an unhandled exception: "@.len() as int))
    } else if "Unhandled exception. "@.is_prefix_of(line) {
        Some(line.skip("Unhandled exception. "@.len() as int))
    } else {
        None
    }
}

/// `line` says that Steam does not have the requested files.
pub open spec fn reports_missing_content(line: Seq<char>) -> bool {
    ||| "Couldn't find any depots to download"@.is_prefix_of(line)
    ||| "Depot "@.is_prefix_of(line) && (text::occurs(line, " not listed for app "@)
        || "missing public subsection or manifest section."@.is_suffix_of(line))
    ||| "Encountered "@.is_prefix_of(line) && (text::occurs(line, " for depot manifest "@) || text::occurs(
        line,
        " for chunk "@,
    )) && "Aborting."@.is_suffix_of(line)
}

/// The failure that a line of output stands for; the line has no white space at either end.
pub open spec fn line_failure(
    line: Seq<char>,
    disk_full: Seq<Seq<char>>,
    file_locked: Seq<Seq<char>>,
) -> Option<DepotFailureView> {
    if "Failed to authenticate with Steam: "@.is_prefix_of(line) {
        Some(authentication_failure(line.skip("Failed to authenticate with Steam: "@.len() as int)))
    } else if "Unable to login to Steam3: "@.is_prefix_of(line) {
        Some(result_failure(text::trimmed(line.skip("Unable to login to Steam3: "@.len() as int))))
    } else if "Access token was rejected"@.is_prefix_of(line) {
        Some(DepotFailureView::SavedSignInRejected)
    } else if "Unable to get license list"@.is_prefix_of(line) {
        Some(DepotFailureView::SteamUnavailable)
    } else if "Could not connect to Steam after"@.is_prefix_of(line)
        || "Failed to find any server with chunk"@.is_prefix_of(line) {
        Some(DepotFailureView::ConnectionFailed)
    } else if "is not available from this account."@.is_suffix_of(line)
        || "No valid depot key for"@.is_prefix_of(line) {
        Some(DepotFailureView::NotOwned)
    } else if reports_missing_content(line) {
        Some(DepotFailureView::ContentUnavailable)
    } else if io_detail(line) is Some {
        io_failure(
            text::lowercased(io_detail(line)->0),
            "Failed to"@.is_prefix_of(line),
            disk_full,
            file_locked,
        )
    } else if "Error: Unable to create install directories"@.is_prefix_of(line) {
        Some(DepotFailureView::FileWriteFailed)
    } else {
        None
    }
}

/// The failure that a Steam result code stands for.
pub fn classify_result(result: &str) -> (r: DepotFailure)
    ensures
        r@ == result_failure(result@),
{
    if text::same(result, "InvalidPassword") || text::same(result, "AccountNotFound") || text::same(
        result,
        "InvalidName",
    ) {
        DepotFailure::WrongPassword
    } else if text::same(result, "RateLimitExceeded") || text::same(
        result,
        "AccountLoginDeniedThrottle",
    ) || text::same(result, "LimitExceeded") {
        DepotFailure::RateLimited
    } else if text::same(result, "AccountDisabled") || text::same(result, "AccountLockedDown")
        || text::same(result, "Suspended") || text::same(result, "Banned") || text::same(
        result,
        "Revoked",
    ) {
        DepotFailure::AccountRestricted(result.to_owned())
    } else if text::same(result, "ServiceUnavailable") || text::same(result, "Busy") || text::same(
        result,
        "Timeout",
    ) || text::same(result, "TryAnotherCM") {
        DepotFailure::SteamUnavailable
    } else if text::same(result, "NoConnection") || text::same(result, "ConnectFailed")
        || text::same(result, "RemoteDisconnect") {
        DepotFailure::ConnectionFailed
    } else if text::same(result, "Expired") {
        DepotFailure::SignInExpired
    } else {
        DepotFailure::SignInFailed(result.to_owned())
    }
}

/// The failure that the text of an authentication error stands for.
pub fn classify_authentication(detail: &str) -> (r: DepotFailure)
    ensures
        r@ == authentication_failure(detail@),
{
    match text::rsplit_once(detail, " with result ") {
        None => DepotFailure::SignInFailed(text::trim(detail).to_owned()),
        Some((message, rest)) => {
            let result = text::trim_end_matches(text::trim(rest), '.');
            if text::same(message, "Failed to send steam guard code") && text::same(
                result,
                "Expired",
            ) {
                DepotFailure::SteamGuardExpired
            } else if text::same(message, "Failed to poll status") && (text::same(result, "Expired")
                || text::same(result, "FileNotFound")) {
                DepotFailure::SignInExpired
            } else {
                classify_result(result)
            }
        },
    }
}

/// The kinds of operating system that number their errors differently.
#[derive(Clone, Copy, Debug, PartialEq, Eq, Structural)]
pub enum Platform {
    Windows,
    Other,
}

/// The platform whose paths are separated by `separator`.
pub open spec fn platform_of(separator: char) -> Platform {
    if separator == '\\' {
        Platform::Windows
    } else {
        Platform::Other
    }
}

/// The numbers of the errors that a full disk gives.
pub open spec fn disk_full_numbers(platform: Platform) -> Seq<i32> {
    match platform {
        Platform::Windows => seq![112i32, 39i32],
        Platform::Other => seq![28i32],
    }
}

/// The numbers of the errors that a file in use by another program gives.
pub open spec fn file_locked_numbers(platform: Platform) -> Seq<i32> {
    match platform {
        Platform::Windows => seq![32i32, 33i32],
        Platform::Other => seq![],
    }
}

/// The words that an operating system's error text holds: without the number that is added to
/// it and without final full stops, in small letters. None where nothing is left.
pub open spec fn os_words(error: Seq<char>) -> Option<Seq<char>> {
    let words = text::lowercased(
        text::without_trailing(text::trimmed(text::before_first(error, " (os error"@)), '.'),
    );
    if words.len() == 0 {
        None
    } else {
        Some(words)
    }
}

/// The words of each error text that has any, in order.
pub open spec fn all_os_words(errors: Seq<Seq<char>>) -> Seq<Seq<char>>
    decreases errors.len(),
{
    if errors.len() == 0 {
        seq![]
    } else {
        match os_words(errors.last()) {
            Some(words) => all_os_words(errors.drop_last()).push(words),
            None => all_os_words(errors.drop_last()),
        }
    }
}

/// `separator` is one that `std::path::MAIN_SEPARATOR` has on some machine.
pub uninterp spec fn is_main_separator(separator: char) -> bool;

/// `text` is one that some system, in some language, writes for the error with this number.
pub uninterp spec fn is_os_error_text(code: i32, text: Seq<char>) -> bool;

/// `std::path::MAIN_SEPARATOR`: the character that separates the parts of a path on the machine
/// that runs the program. Which one it is depends on the machine and is not claimed.
#[verifier::external_body]
fn main_separator() -> (r: char)
    ensures
        is_main_separator(r),
{
    std::path::MAIN_SEPARATOR
}

/// `std::io::Error::from_raw_os_error`, written out as text: a text for the error with this
/// number. The words are the operating system's own, in its language; which ones they are is not
/// claimed.
#[verifier::external_body]
fn os_error_text(code: i32) -> (r: String)
    ensures
        is_os_error_text(code, r@),
{
    std::io::Error::from_raw_os_error(code).to_string()
}

/// `errors` are a system's texts for the errors with these numbers, one for each, in order.
pub open spec fn are_os_texts(codes: Seq<i32>, errors: Seq<Seq<char>>) -> bool {
    &&& errors.len() == codes.len()
    &&& forall|i: int| 0 <= i < codes.len() ==> is_os_error_text(codes[i], #[trigger] errors[i])
}

impl Platform {
    /// The platform whose paths are separated by `separator`.
    pub fn of_separator(separator: char) -> (r: Platform)
        ensures
            r == platform_of(separator),
    {
        if separator == '\\' {
            Platform::Windows
        } else {
            Platform::Other
        }
    }

    /// The platform that the program runs on, told by the separator of its paths.
    fn current() -> (r: Platform)
        ensures
            exists|separator: char| #[trigger]
                is_main_separator(separator) && r == platform_of(separator),
    {
        Platform::of_separator(main_separator())
    }

    /// The numbers of the errors that a full disk gives.
    pub fn disk_full_os_errors(self) -> (r: Vec<i32>)
        ensures
            r@ == disk_full_numbers(self),
    {
        match self {
            Platform::Windows => vec![112, 39],
            Platform::Other => vec![28],
        }
    }

    /// The numbers of the errors that a file in use by another program gives.
    pub fn file_locked_os_errors(self) -> (r: Vec<i32>)
        ensures
            r@ == file_locked_numbers(self),
    {
        match self {
            Platform::Windows => vec![32, 33],
            Platform::Other => vec![],
        }
    }
}

/// The words that an operating system's error text holds, if it holds any.
pub fn os_message(error: &str) -> (r: Option<String>)
    ensures
        match r {
            Some(words) => os_words(error@) == Some(words@),
            None => os_words(error@) is None,
        },
{
    let words = text::to_lowercase(
        text::trim_end_matches(text::trim(text::before(error, " (os error")), '.'),
    );
    if words.as_str().is_empty() {
        None
    } else {
        Some(words)
    }
}

/// The words of each error text that has any, in order.
pub fn os_messages_of(errors: &Vec<String>) -> (r: Vec<String>)
    ensures
        text::texts(r@) == all_os_words(text::texts(errors@)),
{
    let mut r: Vec<String> = Vec::new();
    let mut i: usize = 0;
    assert(text::texts(r@) =~= all_os_words(text::texts(errors@).take(0)));
    while i < errors.len()
        invariant
            i <= errors.len(),
            text::texts(r@) == all_os_words(text::texts(errors@).take(i as int)),
        decreases errors.len() - i,
    {
        let ghost before = r@;
        let ghost given = text::texts(errors@);
        assert(given.take(i + 1).drop_last() =~= given.take(i as int));
        assert(given.take(i + 1).last() == errors@[i as int]@);
        match os_message(errors[i].as_str()) {
            Some(words) => {
                r.push(words);
                assert(text::texts(r@) =~= text::texts(before).push(words@));
            },
            None => {},
        }
        i = i + 1;
    }
    assert(text::texts(errors@).take(errors@.len() as int) =~= text::texts(errors@));
    r
}

/// The operating system's words for the errors with these numbers. DepotDownloader prints them
/// for a file error, in the system's language.
pub fn os_messages(codes: &Vec<i32>) -> (r: Vec<String>)
    ensures
        exists|errors: Seq<Seq<char>>| #[trigger]
            are_os_texts(codes@, errors) && text::texts(r@) == all_os_words(errors),
{
    let mut errors: Vec<String> = Vec::new();
    let mut i: usize = 0;
    while i < codes.len()
        invariant
            i <= codes.len(),
            errors@.len() == i,
            forall|k: int| 0 <= k < i ==> is_os_error_text(codes@[k], #[trigger] errors@[k]@),
        decreases codes.len() - i,
    {
        errors.push(os_error_text(codes[i]));
        i = i + 1;
    }
    assert(are_os_texts(codes@, text::texts(errors@)));
    os_messages_of(&errors)
}

/// Reads DepotDownloader output and keeps the first fatal failure it reports.
/// Every line it classifies ends the run, even when the exit code is 0.
pub struct DepotFailureScanner {
    failure: Option<DepotFailure>,
    disk_full: Vec<String>,
    file_locked: Vec<String>,
}

/// What a scanner knows: the first failure so far, and the operating system's words for a full
/// disk and for a file in use.
pub struct ScannerView {
    pub failure: Option<DepotFailureView>,
    pub disk_full: Seq<Seq<char>>,
    pub file_locked: Seq<Seq<char>>,
}

impl View for DepotFailureScanner {
    type V = ScannerView;

    closed spec fn view(&self) -> ScannerView {
        ScannerView {
            failure: failure_view(self.failure),
            disk_full: text::texts(self.disk_full@),
            file_locked: text::texts(self.file_locked@),
        }
    }
}

/// A scanner after one more line of output.
pub open spec fn scan_line(scanner: ScannerView, line: Seq<char>) -> ScannerView {
    if scanner.failure is Some {
        scanner
    } else {
        ScannerView {
            failure: line_failure(
                text::trimmed(line),
                scanner.disk_full,
                scanner.file_locked,
            ),
            ..scanner
        }
    }
}

/// A scanner that has read nothing and holds a system's words for the error numbers of
/// `platform`: those of a full disk and those of a file in use.
pub open spec fn is_new_scanner(scanner: ScannerView, platform: Platform) -> bool {
    &&& scanner.failure is None
    &&& exists|errors: Seq<Seq<char>>| #[trigger]
        are_os_texts(disk_full_numbers(platform), errors) && scanner.disk_full == all_os_words(
            errors,
        )
    &&& exists|errors: Seq<Seq<char>>| #[trigger]
        are_os_texts(file_locked_numbers(platform), errors) && scanner.file_locked == all_os_words(
            errors,
        )
}

impl Default for DepotFailureScanner {
    /// A scanner that has read nothing, with the words of the system that the program runs on.
    fn default() -> (r: Self)
        ensures
            exists|separator: char| #[trigger]
                is_main_separator(separator) && is_new_scanner(r@, platform_of(separator)),
    {
        DepotFailureScanner::for_platform(Platform::current())
    }
}

impl DepotFailureScanner {
    /// A scanner that has read nothing, with the running system's words for the error numbers of
    /// `platform`.
    pub fn for_platform(platform: Platform) -> (r: Self)
        ensures
            is_new_scanner(r@, platform),
    {
        let disk_full = os_messages(&platform.disk_full_os_errors());
        let file_locked = os_messages(&platform.file_locked_os_errors());
        DepotFailureScanner::with_words(disk_full, file_locked)
    }

    /// A scanner that has read nothing, with these words for a full disk and for a file in use.
    pub fn with_words(disk_full: Vec<String>, file_locked: Vec<String>) -> (r: Self)
        ensures
            r@ == (ScannerView {
                failure: None,
                disk_full: text::texts(disk_full@),
                file_locked: text::texts(file_locked@),
            }),
    {
        DepotFailureScanner { failure: None, disk_full, file_locked }
    }

    /// Reads one line of output.
    pub fn observe_line(&mut self, line: &str)
        ensures
            final(self)@ == scan_line(old(self)@, line@),
    {
        if self.failure.is_none() {
            self.failure = self.classify(text::trim(line));
        }
    }

    /// The first failure that was reported, if any.
    pub fn failure(&self) -> (r: Option<DepotFailure>)
        ensures
            failure_view(r) == self@.failure,
    {
        match &self.failure {
            Some(failure) => Some(failure.clone()),
            None => None,
        }
    }

    /// The failure that a line of output stands for; the line has no white space at either end.
    pub fn classify(&self, line: &str) -> (r: Option<DepotFailure>)
        ensures
            failure_view(r) == line_failure(line@, self@.disk_full, self@.file_locked),
    {
        if let Some(detail) = text::strip_prefix(line, "Failed to authenticate with Steam: ") {
            return Some(classify_authentication(detail));
        }
        if let Some(result) = text::strip_prefix(line, "Unable to login to Steam3: ") {
            return Some(classify_result(text::trim(result)));
        }
        if text::starts_with(line, "Access token was rejected") {
            return Some(DepotFailure::SavedSignInRejected);
        }
        if text::starts_with(line, "Unable to get license list") {
            return Some(DepotFailure::SteamUnavailable);
        }
        if text::starts_with(line, "Could not connect to Steam after") || text::starts_with(
            line,
            "Failed to find any server with chunk",
        ) {
            return Some(DepotFailure::ConnectionFailed);
        }
        if text::ends_with(line, "is not available from this account.") || text::starts_with(
            line,
            "No valid depot key for",
        ) {
            return Some(DepotFailure::NotOwned);
        }
        if text::starts_with(line, "Couldn't find any depots to download") || (text::starts_with(
            line,
            "Depot ",
        ) && (text::contains(line, " not listed for app ") || text::ends_with(
            line,
            "missing public subsection or manifest section.",
        ))) || (text::starts_with(line, "Encountered ") && (text::contains(
            line,
            " for depot manifest ",
        ) || text::contains(line, " for chunk ")) && text::ends_with(line, "Aborting.")) {
            return Some(DepotFailure::ContentUnavailable);
        }
        let detail = match text::strip_prefix(line, "Failed to allocate file ") {
            Some(detail) => Some(detail),
            None => match text::strip_prefix(line, "Failed to resize file to expected size ") {
                Some(detail) => Some(detail),
                None => match text::strip_prefix(
                    line,
                    "Download failed to due to an unhandled exception: ",
                ) {
                    Some(detail) => Some(detail),
                    None => text::strip_prefix(line, "Unhandled exception. "),
                },
            },
        };
        if let Some(detail) = detail {
            return self.classify_io(detail, text::starts_with(line, "Failed to"));
        }
        if text::starts_with(line, "Error: Unable to create install directories") {
            return Some(DepotFailure::FileWriteFailed);
        }
        None
    }

    /// The failure that the text of a file error stands for. `is_write` tells that a file was
    /// being written.
    pub fn classify_io(&self, detail: &str, is_write: bool) -> (r: Option<DepotFailure>)
        ensures
            failure_view(r) == io_failure(
                text::lowercased(detail@),
                is_write,
                self@.disk_full,
                self@.file_locked,
            ),
            vstd::utf8::is_ascii_chars(detail@) ==> failure_view(r) == io_failure(
                detail@.map_values(|c: char| text::ascii_lower(c)),
                is_write,
                self@.disk_full,
                self@.file_locked,
            ),
    {
        let lowered = text::to_lowercase(detail);
        self.classify_lowered_io(lowered.as_str(), is_write)
    }

    /// The failure that the text of a file error, in small letters, stands for.
    pub fn classify_lowered_io(&self, lowered: &str, is_write: bool) -> (r: Option<DepotFailure>)
        ensures
            failure_view(r) == io_failure(lowered@, is_write, self@.disk_full, self@.file_locked),
    {
        if text::contains_any(lowered, &self.disk_full) || text::contains(
            lowered,
            "not enough space on the disk",
        ) || text::contains(lowered, "no space left on device") {
            Some(DepotFailure::DiskFull)
        } else if text::contains_any(lowered, &self.file_locked) || text::contains(
            lowered,
            "being used by another process",
        ) {
            Some(DepotFailure::FileLocked)
        } else if is_write || text::contains(lowered, "ioexception") || text::contains(
            lowered,
            "unauthorizedaccessexception",
        ) {
            Some(DepotFailure::FileWriteFailed)
        } else {
            None
        }
    }
}

/// A scanner after these lines of output.
pub open spec fn scan(scanner: ScannerView, lines: Seq<Seq<char>>) -> ScannerView
    decreases lines.len(),
{
    if lines.len() == 0 {
        scanner
    } else {
        scan_line(scan(scanner, lines.drop_last()), lines.last())
    }
}

/// The failure that one line of output stands for to a scanner.
pub open spec fn reported(scanner: ScannerView, line: Seq<char>) -> Option<DepotFailureView> {
    line_failure(text::trimmed(line), scanner.disk_full, scanner.file_locked)
}

/// The scanner's words are those that it was made with, whatever it reads.
pub proof fn law_scanning_keeps_the_words(scanner: ScannerView, lines: Seq<Seq<char>>)
    ensures
        scan(scanner, lines).disk_full == scanner.disk_full,
        scan(scanner, lines).file_locked == scanner.file_locked,
    decreases lines.len(),
{
    if lines.len() > 0 {
        law_scanning_keeps_the_words(scanner, lines.drop_last());
    }
}

/// Lines that report no failure leave the scanner as it was.
pub proof fn law_other_lines_are_not_failures(scanner: ScannerView, lines: Seq<Seq<char>>)
    requires
        forall|i: int| 0 <= i < lines.len() ==> reported(scanner, #[trigger] lines[i]) is None,
    ensures
        scan(scanner, lines) == scanner,
    decreases lines.len(),
{
    if lines.len() > 0 {
        let start = lines.drop_last();
        assert forall|i: int| 0 <= i < start.len() implies reported(
            scanner,
            #[trigger] start[i],
        ) is None by {
            assert(start[i] == lines[i]);
        }
        law_other_lines_are_not_failures(scanner, start);
        assert(lines.last() == lines[lines.len() - 1]);
    }
}

/// The first failure that the output reports is the one that is kept: lines before it report
/// nothing, and lines after it change nothing.
pub proof fn law_first_failure_is_kept(scanner: ScannerView, lines: Seq<Seq<char>>, first: int)
    requires
        scanner.failure is None,
        0 <= first < lines.len(),
        reported(scanner, lines[first]) is Some,
        forall|i: int| 0 <= i < first ==> reported(scanner, #[trigger] lines[i]) is None,
    ensures
        scan(scanner, lines).failure == reported(scanner, lines[first]),
    decreases lines.len(),
{
    let start = lines.drop_last();
    if first == lines.len() - 1 {
        assert forall|i: int| 0 <= i < start.len() implies reported(
            scanner,
            #[trigger] start[i],
        ) is None by {
            assert(start[i] == lines[i]);
        }
        law_other_lines_are_not_failures(scanner, start);
    } else {
        assert forall|i: int| 0 <= i < first implies reported(
            scanner,
            #[trigger] start[i],
        ) is None by {
            assert(start[i] == lines[i]);
        }
        assert(start[first] == lines[first]);
        law_first_failure_is_kept(scanner, start, first);
    }
}

/// A system's words for each error number, where it has any, are among the words for all of them.
pub proof fn law_each_number_has_its_words(codes: Seq<i32>, errors: Seq<Seq<char>>, at: int)
    requires
        are_os_texts(codes, errors),
        0 <= at < codes.len(),
    ensures
        is_os_error_text(codes[at], errors[at]),
        os_words(errors[at]) matches Some(words) ==> all_os_words(errors).contains(words),
    decreases errors.len(),
{
    assert(is_os_error_text(codes[at], errors[at]));
    if let Some(words) = os_words(errors[at]) {
        let start = errors.drop_last();
        if at < errors.len() - 1 {
            assert forall|i: int| 0 <= i < codes.drop_last().len() implies is_os_error_text(
                codes.drop_last()[i],
                #[trigger] start[i],
            ) by {
                assert(is_os_error_text(codes[i], errors[i]));
            }
            law_each_number_has_its_words(codes.drop_last(), start, at);
        }
        if let Some(last) = os_words(errors.last()) {
            text::lemma_push_contains(all_os_words(start), last, words);
        }
    }
}

/// A file error that holds the system's own words for a full disk is a full disk, and one that
/// holds its words for a file in use and none for a full disk is a file in use, whatever else it
/// says.
pub proof fn law_the_systems_words_are_recognised(
    lowered: Seq<char>,
    is_write: bool,
    disk_full: Seq<Seq<char>>,
    file_locked: Seq<Seq<char>>,
    words: Seq<char>,
)
    requires
        text::occurs(lowered, words),
    ensures
        disk_full.contains(words) ==> io_failure(lowered, is_write, disk_full, file_locked) == Some(
            DepotFailureView::DiskFull,
        ),
        file_locked.contains(words) && io_failure(lowered, is_write, disk_full, seq![]) != Some(
            DepotFailureView::DiskFull,
        ) ==> io_failure(lowered, is_write, disk_full, file_locked) == Some(
            DepotFailureView::FileLocked,
        ),
{
    if disk_full.contains(words) {
        let i = choose|i: int| 0 <= i < disk_full.len() && disk_full[i] == words;
        assert(text::occurs(lowered, disk_full[i]));
    }
    if file_locked.contains(words) {
        let i = choose|i: int| 0 <= i < file_locked.len() && file_locked[i] == words;
        assert(text::occurs(lowered, file_locked[i]));
    }
}

/// White space around a line does not matter.
pub proof fn law_space_around_a_line_is_ignored(
    scanner: ScannerView,
    before: Seq<char>,
    line: Seq<char>,
    after: Seq<char>,
)
    requires
        forall|i: int| 0 <= i < before.len() ==> text::is_space(#[trigger] before[i]),
        forall|i: int| 0 <= i < after.len() ==> text::is_space(#[trigger] after[i]),
    ensures
        scan_line(scanner, before + line + after) == scan_line(scanner, line),
{
    text::lemma_trimmed_ignores_space(before, line, after);
}

/// A line that reports a failed file write always ends the run.
pub proof fn law_failed_writes_are_failures(scanner: ScannerView, line: Seq<char>)
    requires
        "Failed to allocate file "@.is_prefix_of(text::trimmed(line))
            || "Failed to resize file to expected size "@.is_prefix_of(text::trimmed(line)),
    ensures
        reported(scanner, line) is Some,
{
    reveal_strlit("Failed to allocate file ");
    reveal_strlit("Failed to resize file to expected size ");
    reveal_strlit("Failed to");
    let t = text::trimmed(line);
    assert("Failed to"@.is_prefix_of(t)) by {
        assert(forall|i: int| 0 <= i < 9 ==> #[trigger] "Failed to"@[i] == t[i]) by {
            if "Failed to allocate file "@.is_prefix_of(t) {
                assert(forall|i: int|
                    0 <= i < 9 ==> #[trigger] t[i] == "Failed to allocate file "@[i]);
            } else {
                assert(forall|i: int|
                    0 <= i < 9 ==> #[trigger] t[i] == "Failed to resize file to expected size "@[i]);
            }
        }
        assert("Failed to"@ =~= t.subrange(0, 9));
    }
}

/// Free space turns a failed write into a full disk and leaves every other failure alone; what
/// it made of a failure it does not change again.
pub proof fn law_only_failed_writes_are_refined(
    failure: DepotFailureView,
    first: Option<u64>,
    second: Option<u64>,
)
    ensures
        failure != DepotFailureView::FileWriteFailed ==> refined(failure, first) == failure,
        failure == DepotFailureView::FileWriteFailed ==> (refined(failure, first)
            == DepotFailureView::DiskFull <==> first is Some && first->0 < LOW_SPACE_BYTES),
        refined(refined(failure, first), first) == refined(failure, first),
        refined(failure, first) != failure ==> refined(refined(failure, first), second) == refined(
            failure,
            first,
        ),
{
}

} // verus!
