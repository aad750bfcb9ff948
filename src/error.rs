//! The error kinds of the service and how each reaches a caller.
use vstd::prelude::*;

verus! {

/// Every way in which a request, or the start of the service, can fail.
pub enum AppError {
    /// A language code that does not name a known ISO 639-1 language.
    InvalidLanguageCode { code: String },
    /// The detector found no language in the text (too short or ambiguous).
    DetectionFailed,
    /// The detector chose a language that no loaded model covers.
    DetectedOutsideModels { code: String },
    /// The detected language has no two-letter ISO 639-1 code.
    MissingIsoCode { code: String },
    /// No loaded model translates between these two languages.
    UnsupportedPair { from: String, to: String },
    /// The engine failed to translate.
    EngineFailure { message: String },
    /// A model directory lacks one of its four required files.
    MissingModelFiles { pair: String },
    /// A model directory's name is not two ISO 639-1 codes.
    InvalidPairKey { pair: String },
    /// The request carried no matching credential.
    Unauthorized,
    /// The request has no text to translate.
    EmptyText,
}

/// The broad class of an error, which decides the status a client sees.
#[derive(PartialEq, Eq, Structural, Clone, Copy, Debug)]
pub enum ErrorClass {
    Client,
    Engine,
    Startup,
    Authorization,
}

impl AppError {
    /// The error as plain values: its kind, and the codes or text it carries.
    pub open spec fn key(&self) -> (int, Seq<char>, Seq<char>) {
        match self {
            AppError::InvalidLanguageCode { code } => (0, code@, Seq::empty()),
            AppError::DetectionFailed => (1, Seq::empty(), Seq::empty()),
            AppError::DetectedOutsideModels { code } => (2, code@, Seq::empty()),
            AppError::MissingIsoCode { code } => (3, code@, Seq::empty()),
            AppError::UnsupportedPair { from, to } => (4, from@, to@),
            AppError::EngineFailure { message } => (5, message@, Seq::empty()),
            AppError::MissingModelFiles { pair } => (6, pair@, Seq::empty()),
            AppError::InvalidPairKey { pair } => (7, pair@, Seq::empty()),
            AppError::Unauthorized => (8, Seq::empty(), Seq::empty()),
            AppError::EmptyText => (9, Seq::empty(), Seq::empty()),
        }
    }

    /// A copy of this error.
    pub fn duplicate(&self) -> (r: AppError)
        ensures
            r.key() == self.key(),
    {
        match self {
            AppError::InvalidLanguageCode { code } => AppError::InvalidLanguageCode {
                code: code.clone(),
            },
            AppError::DetectionFailed => AppError::DetectionFailed,
            AppError::DetectedOutsideModels { code } => AppError::DetectedOutsideModels {
                code: code.clone(),
            },
            AppError::MissingIsoCode { code } => AppError::MissingIsoCode { code: code.clone() },
            AppError::UnsupportedPair { from, to } => AppError::UnsupportedPair {
                from: from.clone(),
                to: to.clone(),
            },
            AppError::EngineFailure { message } => AppError::EngineFailure {
                message: message.clone(),
            },
            AppError::MissingModelFiles { pair } => AppError::MissingModelFiles {
                pair: pair.clone(),
            },
            AppError::InvalidPairKey { pair } => AppError::InvalidPairKey { pair: pair.clone() },
            AppError::Unauthorized => AppError::Unauthorized,
            AppError::EmptyText => AppError::EmptyText,
        }
    }

    pub open spec fn class_of(&self) -> ErrorClass {
        match self {
            AppError::InvalidLanguageCode { .. } => ErrorClass::Client,
            AppError::DetectionFailed => ErrorClass::Client,
            AppError::DetectedOutsideModels { .. } => ErrorClass::Client,
            AppError::MissingIsoCode { .. } => ErrorClass::Client,
            AppError::UnsupportedPair { .. } => ErrorClass::Client,
            AppError::EngineFailure { .. } => ErrorClass::Engine,
            AppError::MissingModelFiles { .. } => ErrorClass::Startup,
            AppError::InvalidPairKey { .. } => ErrorClass::Startup,
            AppError::Unauthorized => ErrorClass::Authorization,
            AppError::EmptyText => ErrorClass::Client,
        }
    }

    pub fn class(&self) -> (r: ErrorClass)
        ensures
            r == self.class_of(),
    {
        match self {
            AppError::InvalidLanguageCode { .. } => ErrorClass::Client,
            AppError::DetectionFailed => ErrorClass::Client,
            AppError::DetectedOutsideModels { .. } => ErrorClass::Client,
            AppError::MissingIsoCode { .. } => ErrorClass::Client,
            AppError::UnsupportedPair { .. } => ErrorClass::Client,
            AppError::EngineFailure { .. } => ErrorClass::Engine,
            AppError::MissingModelFiles { .. } => ErrorClass::Startup,
            AppError::InvalidPairKey { .. } => ErrorClass::Startup,
            AppError::Unauthorized => ErrorClass::Authorization,
            AppError::EmptyText => ErrorClass::Client,
        }
    }

    /// The HTTP status for this error: 400 for bad input, 401 for a missing
    /// credential, 500 for the engine and for startup.
    pub fn status_code(&self) -> (r: u16)
        ensures
            self.class_of() == ErrorClass::Client ==> r == 400,
            self.class_of() == ErrorClass::Authorization ==> r == 401,
            self.class_of() == ErrorClass::Engine ==> r == 500,
            self.class_of() == ErrorClass::Startup ==> r == 500,
    {
        match self.class() {
            ErrorClass::Client => 400,
            ErrorClass::Authorization => 401,
            ErrorClass::Engine => 500,
            ErrorClass::Startup => 500,
        }
    }

    /// The human-readable message carried in an error response.
    pub fn message(&self) -> (r: String)
        ensures
            match self {
                AppError::InvalidLanguageCode { code } => r@ == "Invalid language code: '"@
                    + code@ + "'. Please use ISO 639-1 format."@,
                AppError::DetectedOutsideModels { code } => r@ == "Detected language '"@ + code@
                    + "' is not covered by any loaded model"@,
                AppError::MissingIsoCode { code } => r@ == "Language '"@ + code@
                    + "' doesn't have an ISO 639-1 code"@,
                AppError::UnsupportedPair { from, to } => r@ == "Language pair '"@ + from@
                    + "' -> '"@ + to@ + "' is not supported"@,
                AppError::EngineFailure { message } => r@ == "Translation failed: "@ + message@
                    + ""@,
                AppError::MissingModelFiles { pair } => r@
                    == "Missing required model files for language pair '"@ + pair@ + "'"@,
                AppError::InvalidPairKey { pair } => r@ == "Invalid language pair format: '"@
                    + pair@ + "'. Expected format like 'enzh', 'jpen'"@,
                AppError::DetectionFailed => r@
                    == "Language detection failed: text may be too short or ambiguous"@,
                AppError::Unauthorized => r@ == "Invalid or missing API key"@,
                AppError::EmptyText => r@ == "The request has no text to translate"@,
            },
    {
        match self {
            AppError::InvalidLanguageCode { code } => {
                quoted("Invalid language code: '", code, "'. Please use ISO 639-1 format.")
            },
            AppError::DetectionFailed => String::from_str(
                "Language detection failed: text may be too short or ambiguous",
            ),
            AppError::DetectedOutsideModels { code } => {
                quoted("Detected language '", code, "' is not covered by any loaded model")
            },
            AppError::MissingIsoCode { code } => {
                quoted("Language '", code, "' doesn't have an ISO 639-1 code")
            },
            AppError::UnsupportedPair { from, to } => {
                let mut m = String::from_str("Language pair '");
                m.append(from.as_str());
                m.append("' -> '");
                m.append(to.as_str());
                m.append("' is not supported");
                m
            },
            AppError::EngineFailure { message } => quoted("Translation failed: ", message, ""),
            AppError::MissingModelFiles { pair } => {
                quoted("Missing required model files for language pair '", pair, "'")
            },
            AppError::InvalidPairKey { pair } => {
                quoted(
                    "Invalid language pair format: '",
                    pair,
                    "'. Expected format like 'enzh', 'jpen'",
                )
            },
            AppError::Unauthorized => String::from_str("Invalid or missing API key"),
            AppError::EmptyText => String::from_str("The request has no text to translate"),
        }
    }
}

/// `head`, then `item`, then `tail`.
fn quoted(head: &str, item: &String, tail: &str) -> (r: String)
    ensures
        r@ == head@ + item@ + tail@,
{
    let mut m = String::from_str(head);
    m.append(item.as_str());
    m.append(tail);
    m
}

} // verus!
