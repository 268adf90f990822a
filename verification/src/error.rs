//! The errors that the launcher reports.
use vstd::prelude::*;
use vstd::string::StringExecFns;

verus! {

/// `std::io::Error`, an opaque value.
#[verifier::external_type_specification]
#[verifier::external_body]
pub struct ExIoError(std::io::Error);

/// `reqwest::Error`, an opaque value.
#[verifier::external_type_specification]
#[verifier::external_body]
pub struct ExReqwestError(reqwest::Error);

/// `zip::result::ZipError`, an opaque value.
#[verifier::external_type_specification]
#[verifier::external_body]
pub struct ExZipError(zip::result::ZipError);

/// `serde_json::Error`, an opaque value.
#[verifier::external_type_specification]
#[verifier::external_body]
pub struct ExJsonError(serde_json::Error);

/// Why an operation of the launcher failed.
#[derive(Debug)]
pub enum AppError {
    Message(String),
    Io { context: &'static str, source: std::io::Error },
    Network(reqwest::Error),
    Archive(zip::result::ZipError),
    Json(serde_json::Error),
    Cancelled,
}

pub type AppResult<T> = Result<T, AppError>;

/// `error` is a message that reads `text`.
pub open spec fn is_message(error: AppError, text: Seq<char>) -> bool {
    error matches AppError::Message(message) && message@ == text
}

/// `text` is what the source of `error` is displayed as, where `error` has a source.
pub open spec fn is_source_text(error: AppError, text: String) -> bool {
    match error {
        AppError::Io { context, source } => vstd::string::to_string_from_display_ensures(
            &source,
            text,
        ),
        AppError::Network(source) => vstd::string::to_string_from_display_ensures(&source, text),
        AppError::Archive(source) => vstd::string::to_string_from_display_ensures(&source, text),
        AppError::Json(source) => vstd::string::to_string_from_display_ensures(&source, text),
        _ => true,
    }
}

/// How an error reads, given how its source reads.
pub open spec fn error_text(error: AppError, source: Seq<char>) -> Seq<char> {
    match error {
        AppError::Message(message) => message@,
        AppError::Io { context, .. } => context@ + ": "@ + source,
        AppError::Network(_) =>
            "GitHub could not be reached. Check your connection and try again: "@ + source,
        AppError::Archive(_) => "A downloaded archive could not be read: "@ + source,
        AppError::Json(_) => "Local installer data is invalid: "@ + source,
        AppError::Cancelled => "The operation was cancelled."@,
    }
}

/// The parts joined into one text.
fn join2(a: &str, b: &str) -> (r: String)
    ensures
        r@ == a@ + b@,
{
    let mut r = a.to_owned();
    r.append(b);
    r
}

impl AppError {
    /// An error that is a text.
    pub fn message(value: String) -> (r: Self)
        ensures
            r == AppError::Message(value),
    {
        AppError::Message(value)
    }

    /// An error of the file system, with what was being done.
    pub fn io(context: &'static str, source: std::io::Error) -> (r: Self)
        ensures
            r == (AppError::Io { context, source }),
    {
        AppError::Io { context, source }
    }

    /// How the error reads.
    pub fn text(&self) -> (r: String)
        ensures
            exists|source: String|
                #[trigger] is_source_text(*self, source) && r@ == error_text(*self, source@),
    {
        match self {
            AppError::Message(message) => {
                assert(is_source_text(*self, *message));
                message.clone()
            },
            AppError::Io { context, source } => {
                let text = source.to_string();
                let mut r = join2(context, ": ");
                r.append(text.as_str());
                assert(is_source_text(*self, text));
                r
            },
            AppError::Network(source) => {
                let text = source.to_string();
                assert(is_source_text(*self, text));
                join2(
                    "GitHub could not be reached. Check your connection and try again: ",
                    text.as_str(),
                )
            },
            AppError::Archive(source) => {
                let text = source.to_string();
                assert(is_source_text(*self, text));
                join2("A downloaded archive could not be read: ", text.as_str())
            },
            AppError::Json(source) => {
                let text = source.to_string();
                assert(is_source_text(*self, text));
                join2("Local installer data is invalid: ", text.as_str())
            },
            AppError::Cancelled => {
                let r = "The operation was cancelled.".to_owned();
                assert(is_source_text(*self, r));
                r
            },
        }
    }
}

impl From<reqwest::Error> for AppError {
    fn from(source: reqwest::Error) -> (r: Self) {
        AppError::Network(source)
    }
}

impl vstd::std_specs::convert::FromSpecImpl<reqwest::Error> for AppError {
    open spec fn obeys_from_spec() -> bool {
        true
    }

    open spec fn from_spec(source: reqwest::Error) -> Self {
        AppError::Network(source)
    }
}

impl From<zip::result::ZipError> for AppError {
    fn from(source: zip::result::ZipError) -> (r: Self) {
        AppError::Archive(source)
    }
}

impl vstd::std_specs::convert::FromSpecImpl<zip::result::ZipError> for AppError {
    open spec fn obeys_from_spec() -> bool {
        true
    }

    open spec fn from_spec(source: zip::result::ZipError) -> Self {
        AppError::Archive(source)
    }
}

impl From<serde_json::Error> for AppError {
    fn from(source: serde_json::Error) -> (r: Self) {
        AppError::Json(source)
    }
}

impl vstd::std_specs::convert::FromSpecImpl<serde_json::Error> for AppError {
    open spec fn obeys_from_spec() -> bool {
        true
    }

    open spec fn from_spec(source: serde_json::Error) -> Self {
        AppError::Json(source)
    }
}

} // verus!
