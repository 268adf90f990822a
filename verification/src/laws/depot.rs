//! Laws of DepotDownloader's output.
use vstd::prelude::*;
use crate::depot_errors;
use crate::depot_errors::{DepotFailure, DepotFailureScanner, DepotFailureView, Platform};
use crate::laws;
use crate::text;

verus! {

/// What tells the result codes apart: their lengths, and a character of those of the same length.
proof fn lemma_codes_differ()
    ensures
        "InvalidPassword"@.len() == 15,
        "AccountNotFound"@.len() == 15,
        "InvalidName"@.len() == 11,
        "RateLimitExceeded"@.len() == 17,
        "AccountLoginDeniedThrottle"@.len() == 26,
        "LimitExceeded"@.len() == 13,
        "AccountDisabled"@.len() == 15,
        "AccountLockedDown"@.len() == 17,
        "Suspended"@.len() == 9,
        "Banned"@.len() == 6,
        "Revoked"@.len() == 7,
        "ServiceUnavailable"@.len() == 18,
        "Busy"@.len() == 4,
        "Timeout"@.len() == 7,
        "TryAnotherCM"@.len() == 12,
        "NoConnection"@.len() == 12,
        "ConnectFailed"@.len() == 13,
        "RemoteDisconnect"@.len() == 16,
        "Expired"@.len() == 7,
        "InvalidPassword"@[7] == 'P',
        "AccountNotFound"@[7] == 'N',
        "AccountDisabled"@[7] == 'D',
        "RateLimitExceeded"@[0] == 'R',
        "AccountLockedDown"@[0] == 'A',
        "Revoked"@[0] == 'R',
        "Timeout"@[0] == 'T',
        "Expired"@[0] == 'E',
        "TryAnotherCM"@[0] == 'T',
        "NoConnection"@[0] == 'N',
        "LimitExceeded"@[0] == 'L',
        "ConnectFailed"@[0] == 'C',
{
    reveal_strlit("InvalidPassword");
    reveal_strlit("AccountNotFound");
    reveal_strlit("InvalidName");
    reveal_strlit("RateLimitExceeded");
    reveal_strlit("AccountLoginDeniedThrottle");
    reveal_strlit("LimitExceeded");
    reveal_strlit("AccountDisabled");
    reveal_strlit("AccountLockedDown");
    reveal_strlit("Suspended");
    reveal_strlit("Banned");
    reveal_strlit("Revoked");
    reveal_strlit("ServiceUnavailable");
    reveal_strlit("Busy");
    reveal_strlit("Timeout");
    reveal_strlit("TryAnotherCM");
    reveal_strlit("NoConnection");
    reveal_strlit("ConnectFailed");
    reveal_strlit("RemoteDisconnect");
    reveal_strlit("Expired");
}

/// A result code stands for the failure that these lists name, and for a failed sign-in with the
/// code where it is in none of them.
pub proof fn law_result_codes(result: &str, r: DepotFailure)
    requires
        call_ensures(depot_errors::classify_result, (result,), r),
    ensures
        r@ == depot_errors::result_failure(result@),
        r@ == DepotFailureView::WrongPassword <==> result@ == "InvalidPassword"@ || result@
            == "AccountNotFound"@ || result@ == "InvalidName"@,
        r@ == DepotFailureView::RateLimited <==> result@ == "RateLimitExceeded"@ || result@
            == "AccountLoginDeniedThrottle"@ || result@ == "LimitExceeded"@,
        r@ is AccountRestricted <==> result@ == "AccountDisabled"@ || result@
            == "AccountLockedDown"@ || result@ == "Suspended"@ || result@ == "Banned"@ || result@
            == "Revoked"@,
        r@ == DepotFailureView::SteamUnavailable <==> result@ == "ServiceUnavailable"@ || result@
            == "Busy"@ || result@ == "Timeout"@ || result@ == "TryAnotherCM"@,
        r@ == DepotFailureView::ConnectionFailed <==> result@ == "NoConnection"@ || result@
            == "ConnectFailed"@ || result@ == "RemoteDisconnect"@,
        r@ == DepotFailureView::SignInExpired <==> result@ == "Expired"@,
        r@ matches DepotFailureView::AccountRestricted(code) ==> code == result@,
        r@ matches DepotFailureView::SignInFailed(code) ==> code == result@,
        r@ is WrongPassword || r@ is RateLimited || r@ is AccountRestricted || r@
            is SteamUnavailable || r@ is ConnectionFailed || r@ is SignInExpired || r@
            is SignInFailed,
{
    lemma_codes_differ();
}

/// What is left of a result code with white space around it and full stops behind it.
proof fn lemma_code(before: Seq<char>, code: Seq<char>, stops: Seq<char>, after: Seq<char>)
    requires
        forall|i: int| 0 <= i < before.len() ==> text::is_space(#[trigger] before[i]),
        forall|i: int| 0 <= i < after.len() ==> text::is_space(#[trigger] after[i]),
        forall|i: int| 0 <= i < stops.len() ==> #[trigger] stops[i] == '.',
        (code + stops).len() > 0 ==> !text::is_space((code + stops).first()) && !text::is_space(
            (code + stops).last(),
        ),
        code.len() > 0 ==> code.last() != '.',
    ensures
        text::without_trailing(text::trimmed(before + (code + stops) + after), '.') == code,
{
    laws::text::lemma_trimmed_middle(before, code + stops, after);
    laws::text::lemma_without_trailing(code, stops, '.');
}

/// An authentication error that ends with a result code, full stops behind it and white space
/// around it is an expired Steam Guard code or an expired request where the message and the code
/// say so, and what the code stands for otherwise.
pub proof fn law_authentication_errors(
    detail: &str,
    r: DepotFailure,
    message: Seq<char>,
    before: Seq<char>,
    code: Seq<char>,
    stops: Seq<char>,
    after: Seq<char>,
)
    requires
        call_ensures(depot_errors::classify_authentication, (detail,), r),
        detail@ == message + " with result "@ + (before + (code + stops) + after),
        forall|i: int| message.len() < i ==> !text::occurs_at(detail@, " with result "@, i),
        forall|i: int| 0 <= i < before.len() ==> text::is_space(#[trigger] before[i]),
        forall|i: int| 0 <= i < after.len() ==> text::is_space(#[trigger] after[i]),
        forall|i: int| 0 <= i < stops.len() ==> #[trigger] stops[i] == '.',
        (code + stops).len() > 0 ==> !text::is_space((code + stops).first()) && !text::is_space(
            (code + stops).last(),
        ),
        code.len() > 0 ==> code.last() != '.',
    ensures
        message == "Failed to send steam guard code"@ && code == "Expired"@ ==> r@
            == DepotFailureView::SteamGuardExpired,
        message == "Failed to poll status"@ && (code == "Expired"@ || code == "FileNotFound"@)
            ==> r@ == DepotFailureView::SignInExpired,
        !(message == "Failed to send steam guard code"@ && code == "Expired"@) && !(message
            == "Failed to poll status"@ && (code == "Expired"@ || code == "FileNotFound"@)) ==> r@
            == depot_errors::result_failure(code),
{
    let rest = before + (code + stops) + after;
    laws::text::lemma_split_at_last(detail@, " with result "@, message, rest);
    lemma_code(before, code, stops, after);
    reveal_strlit("Failed to send steam guard code");
    reveal_strlit("Failed to poll status");
    assert("Failed to send steam guard code"@.len() != "Failed to poll status"@.len());
}

/// An authentication error without a result code is a failed sign-in with the text of the error.
pub proof fn law_authentication_errors_without_a_code(
    detail: &str,
    r: DepotFailure,
    before: Seq<char>,
    middle: Seq<char>,
    after: Seq<char>,
)
    requires
        call_ensures(depot_errors::classify_authentication, (detail,), r),
        !text::occurs(detail@, " with result "@),
        detail@ == before + middle + after,
        forall|i: int| 0 <= i < before.len() ==> text::is_space(#[trigger] before[i]),
        forall|i: int| 0 <= i < after.len() ==> text::is_space(#[trigger] after[i]),
        middle.len() > 0 ==> !text::is_space(middle.first()) && !text::is_space(middle.last()),
    ensures
        r@ == DepotFailureView::SignInFailed(middle),
{
    laws::text::lemma_trimmed_middle(before, middle, after);
}

/// A character of a text is that of what the text starts with.
proof fn lemma_start(line: Seq<char>, prefix: Seq<char>, at: int)
    requires
        prefix.is_prefix_of(line),
        0 <= at < prefix.len(),
    ensures
        at < line.len(),
        line[at] == prefix[at],
{
    assert(line.subrange(0, prefix.len() as int)[at] == prefix[at]);
}

/// The first characters of the lines that start with each of the words that are looked for; no
/// line starts with two of them.
proof fn lemma_starts(line: Seq<char>)
    ensures
        "Failed to authenticate with Steam: "@.is_prefix_of(line) ==> line[0] == 'F' && line[10]
            == 'a' && line[11] == 'u',
        "Unable to login to Steam3: "@.is_prefix_of(line) ==> line[0] == 'U' && line[2] == 'a'
            && line[10] == 'l',
        "Access token was rejected"@.is_prefix_of(line) ==> line[0] == 'A',
        "Unable to get license list"@.is_prefix_of(line) ==> line[0] == 'U' && line[2] == 'a'
            && line[10] == 'g',
        "Could not connect to Steam after"@.is_prefix_of(line) ==> line[0] == 'C' && line[5] == ' ',
        "Failed to find any server with chunk"@.is_prefix_of(line) ==> line[0] == 'F' && line[10]
            == 'f',
        "No valid depot key for"@.is_prefix_of(line) ==> line[0] == 'N',
        "Couldn't find any depots to download"@.is_prefix_of(line) ==> line[0] == 'C' && line[5]
            == 'n',
        "Depot "@.is_prefix_of(line) ==> line[0] == 'D' && line[1] == 'e',
        "Encountered "@.is_prefix_of(line) ==> line[0] == 'E' && line[1] == 'n',
        "Failed to allocate file "@.is_prefix_of(line) ==> line[0] == 'F' && line[10] == 'a'
            && line[11] == 'l' && "Failed to"@.is_prefix_of(line),
        "Failed to resize file to expected size "@.is_prefix_of(line) ==> line[0] == 'F' && line[10]
            == 'r' && "Failed to"@.is_prefix_of(line),
        "Download failed to due to an unhandled exception: "@.is_prefix_of(line) ==> line[0] == 'D'
            && line[1] == 'o',
        "Unhandled exception. "@.is_prefix_of(line) ==> line[0] == 'U' && line[2] == 'h',
        "Error: Unable to create install directories"@.is_prefix_of(line) ==> line[0] == 'E'
            && line[1] == 'r',
        "Failed to"@.is_prefix_of(line) ==> line[0] == 'F',
{
    reveal_strlit("Failed to authenticate with Steam: ");
    reveal_strlit("Unable to login to Steam3: ");
    reveal_strlit("Access token was rejected");
    reveal_strlit("Unable to get license list");
    reveal_strlit("Could not connect to Steam after");
    reveal_strlit("Failed to find any server with chunk");
    reveal_strlit("No valid depot key for");
    reveal_strlit("Couldn't find any depots to download");
    reveal_strlit("Depot ");
    reveal_strlit("Encountered ");
    reveal_strlit("Failed to allocate file ");
    reveal_strlit("Failed to resize file to expected size ");
    reveal_strlit("Download failed to due to an unhandled exception: ");
    reveal_strlit("Unhandled exception. ");
    reveal_strlit("Error: Unable to create install directories");
    reveal_strlit("Failed to");
    if "Failed to authenticate with Steam: "@.is_prefix_of(line) {
        lemma_start(line, "Failed to authenticate with Steam: "@, 0);
        lemma_start(line, "Failed to authenticate with Steam: "@, 10);
        lemma_start(line, "Failed to authenticate with Steam: "@, 11);
    }
    if "Unable to login to Steam3: "@.is_prefix_of(line) {
        lemma_start(line, "Unable to login to Steam3: "@, 0);
        lemma_start(line, "Unable to login to Steam3: "@, 2);
        lemma_start(line, "Unable to login to Steam3: "@, 10);
    }
    if "Access token was rejected"@.is_prefix_of(line) {
        lemma_start(line, "Access token was rejected"@, 0);
    }
    if "Unable to get license list"@.is_prefix_of(line) {
        lemma_start(line, "Unable to get license list"@, 0);
        lemma_start(line, "Unable to get license list"@, 2);
        lemma_start(line, "Unable to get license list"@, 10);
    }
    if "Could not connect to Steam after"@.is_prefix_of(line) {
        lemma_start(line, "Could not connect to Steam after"@, 0);
        lemma_start(line, "Could not connect to Steam after"@, 5);
    }
    if "Failed to find any server with chunk"@.is_prefix_of(line) {
        lemma_start(line, "Failed to find any server with chunk"@, 0);
        lemma_start(line, "Failed to find any server with chunk"@, 10);
    }
    if "No valid depot key for"@.is_prefix_of(line) {
        lemma_start(line, "No valid depot key for"@, 0);
    }
    if "Couldn't find any depots to download"@.is_prefix_of(line) {
        lemma_start(line, "Couldn't find any depots to download"@, 0);
        lemma_start(line, "Couldn't find any depots to download"@, 5);
    }
    if "Depot "@.is_prefix_of(line) {
        lemma_start(line, "Depot "@, 0);
        lemma_start(line, "Depot "@, 1);
    }
    if "Encountered "@.is_prefix_of(line) {
        lemma_start(line, "Encountered "@, 0);
        lemma_start(line, "Encountered "@, 1);
    }
    if "Failed to allocate file "@.is_prefix_of(line) {
        lemma_start(line, "Failed to allocate file "@, 0);
        lemma_start(line, "Failed to allocate file "@, 10);
        lemma_start(line, "Failed to allocate file "@, 11);
        lemma_failed_to(line, "Failed to allocate file "@);
    }
    if "Failed to resize file to expected size "@.is_prefix_of(line) {
        lemma_start(line, "Failed to resize file to expected size "@, 0);
        lemma_start(line, "Failed to resize file to expected size "@, 10);
        lemma_failed_to(line, "Failed to resize file to expected size "@);
    }
    if "Download failed to due to an unhandled exception: "@.is_prefix_of(line) {
        lemma_start(line, "Download failed to due to an unhandled exception: "@, 0);
        lemma_start(line, "Download failed to due to an unhandled exception: "@, 1);
    }
    if "Unhandled exception. "@.is_prefix_of(line) {
        lemma_start(line, "Unhandled exception. "@, 0);
        lemma_start(line, "Unhandled exception. "@, 2);
    }
    if "Error: Unable to create install directories"@.is_prefix_of(line) {
        lemma_start(line, "Error: Unable to create install directories"@, 0);
        lemma_start(line, "Error: Unable to create install directories"@, 1);
    }
    if "Failed to"@.is_prefix_of(line) {
        lemma_start(line, "Failed to"@, 0);
    }
}

/// A line that starts with words that start with `Failed to` starts with these two words.
proof fn lemma_failed_to(line: Seq<char>, prefix: Seq<char>)
    requires
        prefix.is_prefix_of(line),
        prefix.len() >= 9,
        prefix[0] == 'F' && prefix[1] == 'a' && prefix[2] == 'i' && prefix[3] == 'l' && prefix[4]
            == 'e' && prefix[5] == 'd' && prefix[6] == ' ' && prefix[7] == 't' && prefix[8] == 'o',
    ensures
        "Failed to"@.is_prefix_of(line),
{
    reveal_strlit("Failed to");
    assert forall|i: int| 0 <= i < 9 implies #[trigger] line.subrange(0, 9)[i]
        == "Failed to"@[i] by {
        lemma_start(line, prefix, i);
    }
    assert(line.subrange(0, 9) =~= "Failed to"@);
}

/// Lines that tell of a failed sign-in name the failure, whatever follows their first words.
pub proof fn law_sign_in_lines(
    scanner: DepotFailureScanner,
    line: &str,
    r: Option<DepotFailure>,
    rest: Seq<char>,
)
    requires
        call_ensures(DepotFailureScanner::classify, (&scanner, line), r),
    ensures
        line@ == "Failed to authenticate with Steam: "@ + rest ==> (r matches Some(failure)
            && failure@ == depot_errors::authentication_failure(rest)),
        line@ == "Unable to login to Steam3: "@ + rest ==> (r matches Some(failure) && failure@
            == depot_errors::result_failure(text::trimmed(rest))),
        "Access token was rejected"@.is_prefix_of(line@) ==> (r matches Some(failure) && failure@
            == DepotFailureView::SavedSignInRejected),
        "Unable to get license list"@.is_prefix_of(line@) ==> (r matches Some(failure) && failure@
            == DepotFailureView::SteamUnavailable),
{
    lemma_starts(line@);
    laws::text::lemma_prefix("Failed to authenticate with Steam: "@, rest);
    laws::text::lemma_prefix("Unable to login to Steam3: "@, rest);
}

/// Lines that tell that Steam cannot be reached, that the account may not have the files or that
/// there are none name the failure, whatever else they say. Only a line about the account can start
/// with any other words, and then those come first.
pub proof fn law_download_lines(
    scanner: DepotFailureScanner,
    line: &str,
    r: Option<DepotFailure>,
)
    requires
        call_ensures(DepotFailureScanner::classify, (&scanner, line), r),
    ensures
        "Could not connect to Steam after"@.is_prefix_of(line@)
            || "Failed to find any server with chunk"@.is_prefix_of(line@) ==> (r matches Some(
            failure,
        ) && failure@ == DepotFailureView::ConnectionFailed),
        "No valid depot key for"@.is_prefix_of(line@) ==> (r matches Some(failure) && failure@
            == DepotFailureView::NotOwned),
        "is not available from this account."@.is_suffix_of(line@) && !(
        "Failed to authenticate with Steam: "@.is_prefix_of(line@)
            || "Unable to login to Steam3: "@.is_prefix_of(line@)
            || "Access token was rejected"@.is_prefix_of(line@)
            || "Unable to get license list"@.is_prefix_of(line@)
            || "Could not connect to Steam after"@.is_prefix_of(line@)
            || "Failed to find any server with chunk"@.is_prefix_of(line@)) ==> (r matches Some(
            failure,
        ) && failure@ == DepotFailureView::NotOwned),
        !"is not available from this account."@.is_suffix_of(line@) && (
        "Couldn't find any depots to download"@.is_prefix_of(line@) || "Depot "@.is_prefix_of(line@)
            && text::occurs(line@, " not listed for app "@) || "Depot "@.is_prefix_of(line@)
            && "missing public subsection or manifest section."@.is_suffix_of(line@)
            || "Encountered "@.is_prefix_of(line@) && text::occurs(line@, " for depot manifest "@)
            && "Aborting."@.is_suffix_of(line@) || "Encountered "@.is_prefix_of(line@)
            && text::occurs(line@, " for chunk "@) && "Aborting."@.is_suffix_of(line@)) ==> (
        r matches Some(failure) && failure@ == DepotFailureView::ContentUnavailable),
        !"is not available from this account."@.is_suffix_of(line@)
            && "Error: Unable to create install directories"@.is_prefix_of(line@) ==> (
        r matches Some(failure) && failure@ == DepotFailureView::FileWriteFailed),
{
    lemma_starts(line@);
}

/// Lines that tell of a file error are classified by what follows their first words, and those
/// that start with `Failed to` as failed writes.
pub proof fn law_file_error_lines(
    scanner: DepotFailureScanner,
    line: &str,
    r: Option<DepotFailure>,
    detail: Seq<char>,
)
    requires
        call_ensures(DepotFailureScanner::classify, (&scanner, line), r),
        !"is not available from this account."@.is_suffix_of(line@),
    ensures
        line@ == "Failed to allocate file "@ + detail || line@
            == "Failed to resize file to expected size "@ + detail ==> depot_errors::failure_view(r)
            == depot_errors::io_failure(
            text::lowercased(detail),
            true,
            scanner@.disk_full,
            scanner@.file_locked,
        ),
        line@ == "Download failed to due to an unhandled exception: "@ + detail || line@
            == "Unhandled exception. "@ + detail ==> depot_errors::failure_view(r)
            == depot_errors::io_failure(
            text::lowercased(detail),
            false,
            scanner@.disk_full,
            scanner@.file_locked,
        ),
{
    lemma_starts(line@);
    laws::text::lemma_prefix("Failed to allocate file "@, detail);
    laws::text::lemma_prefix("Failed to resize file to expected size "@, detail);
    laws::text::lemma_prefix("Download failed to due to an unhandled exception: "@, detail);
    laws::text::lemma_prefix("Unhandled exception. "@, detail);
}

/// A line with none of the words that are looked for reports no failure.
pub proof fn law_other_lines(scanner: DepotFailureScanner, line: &str, r: Option<DepotFailure>)
    requires
        call_ensures(DepotFailureScanner::classify, (&scanner, line), r),
        !"Failed to authenticate with Steam: "@.is_prefix_of(line@),
        !"Unable to login to Steam3: "@.is_prefix_of(line@),
        !"Access token was rejected"@.is_prefix_of(line@),
        !"Unable to get license list"@.is_prefix_of(line@),
        !"Could not connect to Steam after"@.is_prefix_of(line@),
        !"Failed to find any server with chunk"@.is_prefix_of(line@),
        !"is not available from this account."@.is_suffix_of(line@),
        !"No valid depot key for"@.is_prefix_of(line@),
        !"Couldn't find any depots to download"@.is_prefix_of(line@),
        "Depot "@.is_prefix_of(line@) ==> !text::occurs(line@, " not listed for app "@)
            && !"missing public subsection or manifest section."@.is_suffix_of(line@),
        "Encountered "@.is_prefix_of(line@) && "Aborting."@.is_suffix_of(line@) ==> !text::occurs(
            line@,
            " for depot manifest "@,
        ) && !text::occurs(line@, " for chunk "@),
        !"Failed to allocate file "@.is_prefix_of(line@),
        !"Failed to resize file to expected size "@.is_prefix_of(line@),
        !"Download failed to due to an unhandled exception: "@.is_prefix_of(line@),
        !"Unhandled exception. "@.is_prefix_of(line@),
        !"Error: Unable to create install directories"@.is_prefix_of(line@),
    ensures
        r is None,
{
}

/// A file error that speaks of a full disk, in the words of the system or in these, is a full disk.
/// Any other that speaks of a file in use, in the words of the system or in these, is a file in use.
/// Of the rest, a failed write and an input or output exception are failed writes, and nothing else
/// is a failure. Whether a file was being written matters to the rest alone.
pub proof fn law_file_errors(
    scanner: DepotFailureScanner,
    lowered: &str,
    is_write: bool,
    r: Option<DepotFailure>,
)
    requires
        call_ensures(DepotFailureScanner::classify_lowered_io, (&scanner, lowered, is_write), r),
    ensures
        ({
            let is_full = text::occurs(lowered@, "not enough space on the disk"@) || text::occurs(
                lowered@,
                "no space left on device"@,
            ) || exists|i: int|
                0 <= i < scanner@.disk_full.len() && text::occurs(
                    lowered@,
                    #[trigger] scanner@.disk_full[i],
                );
            let is_in_use = text::occurs(lowered@, "being used by another process"@) || exists|
                i: int,
            |
                0 <= i < scanner@.file_locked.len() && text::occurs(
                    lowered@,
                    #[trigger] scanner@.file_locked[i],
                );
            let is_exception = text::occurs(lowered@, "ioexception"@) || text::occurs(
                lowered@,
                "unauthorizedaccessexception"@,
            );
            &&& is_full ==> (r matches Some(failure) && failure@ == DepotFailureView::DiskFull)
            &&& !is_full && is_in_use ==> (r matches Some(failure) && failure@
                == DepotFailureView::FileLocked)
            &&& !is_full && !is_in_use && (is_write || is_exception) ==> (r matches Some(failure)
                && failure@ == DepotFailureView::FileWriteFailed)
            &&& !is_full && !is_in_use && !is_write && !is_exception ==> r is None
        }),
{
}

/// Whether a file was being written only decides between a failed write and no failure: two calls
/// that differ in it alone give the same failure, unless one of them gives none.
pub proof fn law_writing_decides_failed_writes_only(
    scanner: DepotFailureScanner,
    detail: &str,
    written: Option<DepotFailure>,
    read: Option<DepotFailure>,
)
    requires
        call_ensures(DepotFailureScanner::classify_io, (&scanner, detail, true), written),
        call_ensures(DepotFailureScanner::classify_io, (&scanner, detail, false), read),
    ensures
        written is Some,
        read matches Some(failure) ==> failure@ == written->0@,
        read is None ==> written->0@ == DepotFailureView::FileWriteFailed,
{
}

/// A file error is classified by its text in small letters.
pub proof fn law_file_errors_ignore_case(
    scanner: DepotFailureScanner,
    detail: &str,
    lowered: &str,
    is_write: bool,
    r: Option<DepotFailure>,
    s: Option<DepotFailure>,
)
    requires
        call_ensures(DepotFailureScanner::classify_io, (&scanner, detail, is_write), r),
        call_ensures(DepotFailureScanner::classify_lowered_io, (&scanner, lowered, is_write), s),
        lowered@ == text::lowercased(detail@) || vstd::utf8::is_ascii_chars(detail@)
            && lowered@.len() == detail@.len() && forall|i: int|
            0 <= i < detail@.len() ==> #[trigger] lowered@[i] as int == (if 65 <= detail@[i] as int
                <= 90 {
                detail@[i] as int + 32
            } else {
                detail@[i] as int
            }),
    ensures
        depot_errors::failure_view(r) == depot_errors::failure_view(s),
{
    if lowered@ != text::lowercased(detail@) {
        assert(lowered@ =~= detail@.map_values(|c: char| text::ascii_lower(c)));
    }
}

/// A line that is read makes a scanner without a failure hold the failure that the line, without
/// white space around it, stands for. A scanner with a failure keeps it, and its words never
/// change.
pub proof fn law_observing_a_line(
    scanner: &mut DepotFailureScanner,
    line: &str,
    before: Seq<char>,
    middle: Seq<char>,
    after: Seq<char>,
)
    requires
        call_ensures(DepotFailureScanner::observe_line, (scanner, line), ()),
        line@ == before + middle + after,
        forall|i: int| 0 <= i < before.len() ==> text::is_space(#[trigger] before[i]),
        forall|i: int| 0 <= i < after.len() ==> text::is_space(#[trigger] after[i]),
        middle.len() > 0 ==> !text::is_space(middle.first()) && !text::is_space(middle.last()),
    ensures
        final(scanner)@.disk_full == old(scanner)@.disk_full,
        final(scanner)@.file_locked == old(scanner)@.file_locked,
        old(scanner)@.failure is Some ==> final(scanner)@.failure == old(scanner)@.failure,
        old(scanner)@.failure is None ==> final(scanner)@.failure == depot_errors::line_failure(
            middle,
            old(scanner)@.disk_full,
            old(scanner)@.file_locked,
        ),
{
    laws::text::lemma_trimmed_middle(before, middle, after);
}

/// A scanner that reads a line and the one that classifies it agree.
pub proof fn law_observing_is_classifying(
    scanner: &mut DepotFailureScanner,
    classifier: DepotFailureScanner,
    line: &str,
    r: Option<DepotFailure>,
)
    requires
        call_ensures(DepotFailureScanner::observe_line, (scanner, line), ()),
        call_ensures(DepotFailureScanner::classify, (&classifier, line), r),
        classifier@ == old(scanner)@,
        old(scanner)@.failure is None,
        line@.len() > 0,
        !text::is_space(line@.first()),
        !text::is_space(line@.last()),
    ensures
        final(scanner)@.failure == depot_errors::failure_view(r),
{
    assert(seq![] + line@ + seq![] =~= line@);
    laws::text::lemma_trimmed_middle(seq![], line@, seq![]);
}

/// Each failure reads as one that starts with its own words; the detail of a failed sign-in
/// stands in the text.
pub proof fn law_messages(failure: DepotFailure, r: String)
    requires
        call_ensures(DepotFailure::message, (&failure,), r),
    ensures
        failure@ is WrongPassword ==> r@
            == "Steam did not accept the username or password. Check both and try again."@,
        failure@ is SteamGuardExpired ==> r@
            == "The Steam Guard code expired. Start again and enter a new code."@,
        failure@ is SignInExpired ==> r@
            == "The Steam sign-in request expired or was declined. Start again and approve it in the Steam Mobile App."@,
        failure@ is SavedSignInRejected ==> r@
            == "Your saved Steam sign-in is no longer valid. Start again to sign in."@,
        failure@ is RateLimited ==> r@
            == "Steam blocked sign-in because of too many attempts. Wait a while, then try again."@,
        failure@ matches DepotFailureView::AccountRestricted(code) ==> r@
            == "Steam refused to sign in to this account ("@ + code
            + "). Check the account on the Steam website."@,
        failure@ matches DepotFailureView::SignInFailed(code) ==> r@ == "Steam sign-in failed ("@
            + code + "). Try again."@,
        failure@ is SteamUnavailable ==> r@
            == "Steam is not available right now. Try again later."@,
        failure@ is ConnectionFailed ==> r@
            == "Could not reach Steam. Check your internet connection and try again."@,
        failure@ is NotOwned ==> r@
            == "This Steam account cannot download Destiny 2. Sign in with the account that owns it."@,
        failure@ is ContentUnavailable ==> r@
            == "Steam did not provide the Destiny 2 files. Try again later."@,
        failure@ is DiskFull ==> r@ == "The install drive is full. Free up space and try again."@,
        failure@ is FileLocked ==> r@
            == "A game file is in use by another program. Close Destiny 2 and anything using the install folder, then try again."@,
        failure@ is FileWriteFailed ==> r@
            == "Could not write the game files. Check that the install folder is writable and not blocked by antivirus."@,
{
}

/// A failed write on a drive with less than a gigabyte free is a full disk, and every other failure
/// stays, whatever is free.
pub proof fn law_refining(failure: DepotFailure, free_space: Option<u64>, r: DepotFailure)
    requires
        call_ensures(DepotFailure::refine, (failure, free_space), r),
    ensures
        failure@ is FileWriteFailed && free_space is Some && free_space->0 < 1073741824 ==> r@
            == DepotFailureView::DiskFull,
        !(failure@ is FileWriteFailed && free_space is Some && free_space->0 < 1073741824) ==> r@
            == failure@,
{
}

/// The words of a system's error text are what stands before its number, without white space
/// around it and full stops behind it, in small letters.
pub proof fn law_system_words(
    error: &str,
    r: Option<String>,
    before: Seq<char>,
    words: Seq<char>,
    stops: Seq<char>,
    after: Seq<char>,
    number: Seq<char>,
)
    requires
        call_ensures(depot_errors::os_message, (error,), r),
        error@ == (before + (words + stops) + after) + " (os error"@ + number,
        forall|i: int|
            0 <= i < (before + (words + stops) + after).len() ==> !text::occurs_at(
                error@,
                " (os error"@,
                i,
            ),
        forall|i: int| 0 <= i < before.len() ==> text::is_space(#[trigger] before[i]),
        forall|i: int| 0 <= i < after.len() ==> text::is_space(#[trigger] after[i]),
        forall|i: int| 0 <= i < stops.len() ==> #[trigger] stops[i] == '.',
        (words + stops).len() > 0 ==> !text::is_space((words + stops).first()) && !text::is_space(
            (words + stops).last(),
        ),
        words.len() > 0 ==> words.last() != '.',
    ensures
        text::lowercased(words).len() > 0 ==> (r matches Some(found) && found@ == text::lowercased(
            words,
        )),
        text::lowercased(words).len() == 0 ==> r is None,
{
    let start = before + (words + stops) + after;
    laws::text::law_a_part_occurs_where_it_stands(start, " (os error"@, number);
    let at = start.len() as int;
    assert(text::first_at(error@, " (os error"@, at));
    text::lemma_first_at_is_unique(error@, " (os error"@, at);
    assert(error@.take(at) =~= start);
    lemma_code(before, words, stops, after);
}

/// The words of an error text without a number are those of the whole text.
pub proof fn law_system_words_without_a_number(
    error: &str,
    r: Option<String>,
    before: Seq<char>,
    words: Seq<char>,
    stops: Seq<char>,
    after: Seq<char>,
)
    requires
        call_ensures(depot_errors::os_message, (error,), r),
        error@ == before + (words + stops) + after,
        !text::occurs(error@, " (os error"@),
        forall|i: int| 0 <= i < before.len() ==> text::is_space(#[trigger] before[i]),
        forall|i: int| 0 <= i < after.len() ==> text::is_space(#[trigger] after[i]),
        forall|i: int| 0 <= i < stops.len() ==> #[trigger] stops[i] == '.',
        (words + stops).len() > 0 ==> !text::is_space((words + stops).first()) && !text::is_space(
            (words + stops).last(),
        ),
        words.len() > 0 ==> words.last() != '.',
    ensures
        text::lowercased(words).len() > 0 ==> (r matches Some(found) && found@ == text::lowercased(
            words,
        )),
        text::lowercased(words).len() == 0 ==> r is None,
{
    lemma_code(before, words, stops, after);
}

/// The words of several error texts are those of each, one after the other: a list that is cut in
/// two gives the words of its two parts.
pub proof fn law_words_of_several_errors(a: Seq<Seq<char>>, b: Seq<Seq<char>>)
    ensures
        depot_errors::all_os_words(a + b) == depot_errors::all_os_words(a)
            + depot_errors::all_os_words(b),
    decreases b.len(),
{
    if b.len() == 0 {
        assert(a + b =~= a);
        assert(depot_errors::all_os_words(a) + depot_errors::all_os_words(b)
            =~= depot_errors::all_os_words(a));
    } else {
        assert((a + b).drop_last() =~= a + b.drop_last());
        assert((a + b).last() == b.last());
        law_words_of_several_errors(a, b.drop_last());
        match depot_errors::os_words(b.last()) {
            Some(words) => {
                assert((depot_errors::all_os_words(a) + depot_errors::all_os_words(
                    b.drop_last(),
                )).push(words) =~= depot_errors::all_os_words(a)
                    + depot_errors::all_os_words(b.drop_last()).push(words));
            },
            None => {},
        }
    }
}

/// One error text gives its words, if it has any.
pub proof fn law_words_of_one_error(error: &str, r: Option<String>)
    requires
        call_ensures(depot_errors::os_message, (error,), r),
    ensures
        depot_errors::all_os_words(seq![error@]) == (match r {
            Some(words) => seq![words@],
            None => seq![],
        }),
{
    reveal_with_fuel(depot_errors::all_os_words, 2);
    assert(seq![error@].drop_last() =~= seq![]);
    match r {
        Some(words) => {
            assert(Seq::<Seq<char>>::empty().push(words@) =~= seq![words@]);
        },
        None => {},
    }
}

/// A new scanner on Windows knows the system's words for the errors 112 and 39 as those of a full
/// disk and for 32 and 33 as those of a file in use; on other systems it knows those of the error
/// 28 as those of a full disk.
pub proof fn law_new_scanners(platform: Platform, r: DepotFailureScanner)
    requires
        call_ensures(DepotFailureScanner::for_platform, (platform,), r),
    ensures
        r@.failure is None,
        platform == Platform::Windows ==> exists|a: Seq<char>, b: Seq<char>|
            depot_errors::is_os_error_text(112, a) && depot_errors::is_os_error_text(39, b)
                && r@.disk_full == depot_errors::all_os_words(seq![a, b]),
        platform == Platform::Windows ==> exists|a: Seq<char>, b: Seq<char>|
            depot_errors::is_os_error_text(32, a) && depot_errors::is_os_error_text(33, b)
                && r@.file_locked == depot_errors::all_os_words(seq![a, b]),
        platform == Platform::Other ==> exists|a: Seq<char>|
            depot_errors::is_os_error_text(28, a) && r@.disk_full == depot_errors::all_os_words(
                seq![a],
            ),
        platform == Platform::Other ==> r@.file_locked.len() == 0,
{
    let full = choose|errors: Seq<Seq<char>>| #[trigger]
        depot_errors::are_os_texts(depot_errors::disk_full_numbers(platform), errors)
            && r@.disk_full == depot_errors::all_os_words(errors);
    let locked = choose|errors: Seq<Seq<char>>| #[trigger]
        depot_errors::are_os_texts(depot_errors::file_locked_numbers(platform), errors)
            && r@.file_locked == depot_errors::all_os_words(errors);
    if platform == Platform::Windows {
        assert(full =~= seq![full[0], full[1]]);
        assert(locked =~= seq![locked[0], locked[1]]);
        assert(depot_errors::is_os_error_text(112, full[0]));
        assert(depot_errors::is_os_error_text(39, full[1]));
        assert(depot_errors::is_os_error_text(32, locked[0]));
        assert(depot_errors::is_os_error_text(33, locked[1]));
    } else {
        assert(full =~= seq![full[0]]);
        assert(depot_errors::is_os_error_text(28, full[0]));
        assert(locked =~= seq![]);
    }
}

/// A new scanner is one of Windows where paths are separated by a backslash, and of another system
/// elsewhere.
pub proof fn law_platforms(separator: char, r: Platform)
    requires
        call_ensures(Platform::of_separator, (separator,), r),
    ensures
        r == depot_errors::platform_of(separator),
        r == Platform::Windows <==> separator as int == 92,
{
}

/// A scanner with given words has read nothing and has these words.
pub proof fn law_given_words(
    disk_full: Vec<String>,
    file_locked: Vec<String>,
    r: DepotFailureScanner,
    failure: Option<DepotFailure>,
)
    requires
        call_ensures(DepotFailureScanner::with_words, (disk_full, file_locked), r),
        call_ensures(DepotFailureScanner::failure, (&r,), failure),
    ensures
        failure is None,
        r@.disk_full.len() == disk_full@.len(),
        r@.file_locked.len() == file_locked@.len(),
        forall|i: int| 0 <= i < disk_full@.len() ==> r@.disk_full[i] == #[trigger] disk_full@[i]@,
        forall|i: int|
            0 <= i < file_locked@.len() ==> r@.file_locked[i] == #[trigger] file_locked@[i]@,
{
    assert forall|i: int| 0 <= i < disk_full@.len() implies r@.disk_full[i]
        == #[trigger] disk_full@[i]@ by {
        assert(text::texts(disk_full@)[i] == disk_full@[i]@);
    }
    assert forall|i: int| 0 <= i < file_locked@.len() implies r@.file_locked[i]
        == #[trigger] file_locked@[i]@ by {
        assert(text::texts(file_locked@)[i] == file_locked@[i]@);
    }
}

/// The failure of a scanner is the one that it holds.
pub proof fn law_the_failure(scanner: DepotFailureScanner, r: Option<DepotFailure>)
    requires
        call_ensures(DepotFailureScanner::failure, (&scanner,), r),
    ensures
        scanner@.failure matches Some(failure) ==> (r matches Some(found) && found@ == failure),
        scanner@.failure is None ==> r is None,
{
}

/// The default scanner has read nothing and knows the words of the system for the numbers of its
/// platform.
pub proof fn law_the_default_scanner(r: DepotFailureScanner)
    requires
        call_ensures(<DepotFailureScanner as Default>::default, (), r),
    ensures
        r@.failure is None,
        exists|separator: char, full: Seq<Seq<char>>, locked: Seq<Seq<char>>|
            #![trigger depot_errors::is_main_separator(separator), depot_errors::all_os_words(full), depot_errors::all_os_words(locked)]
            {
                &&& depot_errors::is_main_separator(separator)
                &&& r@.disk_full == depot_errors::all_os_words(full)
                &&& r@.file_locked == depot_errors::all_os_words(locked)
                &&& separator as int == 92 ==> full.len() == 2 && locked.len() == 2
                    && depot_errors::is_os_error_text(112, full[0])
                    && depot_errors::is_os_error_text(39, full[1])
                    && depot_errors::is_os_error_text(32, locked[0])
                    && depot_errors::is_os_error_text(33, locked[1])
                &&& separator as int != 92 ==> full.len() == 1 && locked.len() == 0
                    && depot_errors::is_os_error_text(28, full[0])
            },
{
    let separator = choose|separator: char| #[trigger]
        depot_errors::is_main_separator(separator) && depot_errors::is_new_scanner(
            r@,
            depot_errors::platform_of(separator),
        );
    let platform = depot_errors::platform_of(separator);
    let full = choose|errors: Seq<Seq<char>>| #[trigger]
        depot_errors::are_os_texts(depot_errors::disk_full_numbers(platform), errors)
            && r@.disk_full == depot_errors::all_os_words(errors);
    let locked = choose|errors: Seq<Seq<char>>| #[trigger]
        depot_errors::are_os_texts(depot_errors::file_locked_numbers(platform), errors)
            && r@.file_locked == depot_errors::all_os_words(errors);
    if platform == Platform::Windows {
        assert(depot_errors::is_os_error_text(112, full[0]));
        assert(depot_errors::is_os_error_text(39, full[1]));
        assert(depot_errors::is_os_error_text(32, locked[0]));
        assert(depot_errors::is_os_error_text(33, locked[1]));
    } else {
        assert(depot_errors::is_os_error_text(28, full[0]));
    }
    assert(depot_errors::is_main_separator(separator) && r@.disk_full
        == depot_errors::all_os_words(full) && r@.file_locked == depot_errors::all_os_words(
        locked,
    ));
}

/// The words of the system for error numbers are those of one text for each number, in order.
pub proof fn law_words_for_numbers(codes: Vec<i32>, r: Vec<String>)
    requires
        call_ensures(depot_errors::os_messages, (&codes,), r),
    ensures
        exists|errors: Seq<Seq<char>>|
            errors.len() == codes@.len() && (forall|i: int|
                0 <= i < codes@.len() ==> depot_errors::is_os_error_text(
                    codes@[i],
                    #[trigger] errors[i],
                )) && text::texts(r@) == #[trigger] depot_errors::all_os_words(errors),
{
}

/// The words of several texts are those of each that has any.
pub proof fn law_words_of_texts(errors: Vec<String>, r: Vec<String>)
    requires
        call_ensures(depot_errors::os_messages_of, (&errors,), r),
    ensures
        text::texts(r@) == depot_errors::all_os_words(text::texts(errors@)),
{
}

/// The numbers of the errors of each platform.
pub proof fn law_error_numbers(platform: Platform, full: Vec<i32>, locked: Vec<i32>)
    requires
        call_ensures(Platform::disk_full_os_errors, (platform,), full),
        call_ensures(Platform::file_locked_os_errors, (platform,), locked),
    ensures
        platform == Platform::Windows ==> full@ == seq![112i32, 39i32] && locked@
            == seq![32i32, 33i32],
        platform == Platform::Other ==> full@ == seq![28i32] && locked@.len() == 0,
{
}

/// The view of a failure is the failure, with its detail as characters.
pub proof fn law_failure_views(failure: DepotFailure)
    ensures
        failure is WrongPassword <==> failure@ is WrongPassword,
        failure is SteamGuardExpired <==> failure@ is SteamGuardExpired,
        failure is SignInExpired <==> failure@ is SignInExpired,
        failure is SavedSignInRejected <==> failure@ is SavedSignInRejected,
        failure is RateLimited <==> failure@ is RateLimited,
        failure is AccountRestricted <==> failure@ is AccountRestricted,
        failure is SignInFailed <==> failure@ is SignInFailed,
        failure is SteamUnavailable <==> failure@ is SteamUnavailable,
        failure is ConnectionFailed <==> failure@ is ConnectionFailed,
        failure is NotOwned <==> failure@ is NotOwned,
        failure is ContentUnavailable <==> failure@ is ContentUnavailable,
        failure is DiskFull <==> failure@ is DiskFull,
        failure is FileLocked <==> failure@ is FileLocked,
        failure is FileWriteFailed <==> failure@ is FileWriteFailed,
        failure matches DepotFailure::AccountRestricted(code) ==> failure@
            == DepotFailureView::AccountRestricted(code@),
        failure matches DepotFailure::SignInFailed(code) ==> failure@
            == DepotFailureView::SignInFailed(code@),
        depot_errors::failure_view(Some(failure)) == Some(failure@),
        depot_errors::failure_view(None) is None,
{
}

} // verus!
