//! The closed taxonomy of fatal failures, their headline descriptions and
//! their optional underlying causes.
//!
//! Payloads that come from the operating system or from other crates (OS
//! errors, process exit statuses, parse errors) are carried as the plain
//! display text that the reporting protocol actually shows, so every
//! consumer of a [`Diagnostic`] is ordinary verified code.

use vstd::prelude::*;

verus! {

/// One fatal failure of the coverage wrapper.
///
/// Exactly one variant is active per instance; every consumer matches
/// exhaustively, so adding a variant forces every consumption site to be
/// updated.
#[derive(Debug)]
pub enum Diagnostic {
    /// The host operating system cannot run kcov at all.
    UnsupportedOS,
    /// kcov is installed but below the minimum required version.
    KcovTooOld,
    /// Locating or launching kcov failed; the payload is the display text of
    /// the underlying OS error.
    KcovNotInstalled(String),
    /// The cargo subcommand process could not be spawned; the payload is the
    /// display text of the underlying OS error.
    CannotRunCargo(String),
    /// Subprocess output was not valid UTF-8; the payload is the display
    /// text of the decode error (its position detail).
    Utf8(String),
    /// JSON output could not be parsed; the payload is the display text of
    /// the parse error, or `None` when no parser error object is available.
    Json(Option<String>),
    /// The coverage output directory could not be created; the payload is
    /// the display text of the underlying OS error.
    CannotCreateCoverageDirectory(String),
    /// A cargo subcommand ran but exited non-zero. `status` is the display
    /// text of the process exit status; `stderr` is the captured standard
    /// error, kept as raw bytes and written verbatim.
    Cargo { subcommand: String, status: String, stderr: Vec<u8> },
    /// The kcov process failed: either it exited with a failing status
    /// (`Ok`, the display text of that status) or it could not be waited on
    /// (`Err`, the display text of the OS error).
    KcovFailed(Result<String, String>),
    /// The environment variable required for a coveralls upload is absent.
    NoCoverallsId,
    /// Compiled test binaries could not be enumerated; the payload is the
    /// display text of the underlying OS error, when one is available.
    CannotFindTestTargets(Option<String>),
}

/// The headline text shown for each failure, fixed per variant.
pub open spec fn description_spec(e: Diagnostic) -> Seq<char> {
    match e {
        Diagnostic::UnsupportedOS => "kcov cannot collect coverage on Windows."@,
        Diagnostic::KcovTooOld => "kcov is too old. v30 or above is required."@,
        Diagnostic::KcovNotInstalled(_) => "kcov not installed."@,
        Diagnostic::CannotRunCargo(_) => "cannot run cargo"@,
        Diagnostic::Utf8(_) => "output is not UTF-8 encoded"@,
        Diagnostic::Json(_) => "cannot parse JSON"@,
        Diagnostic::CannotCreateCoverageDirectory(_) => "cannot create coverage output directory"@,
        Diagnostic::Cargo { .. } => "cargo subcommand failure"@,
        Diagnostic::KcovFailed(_) => "failed to get coverage"@,
        Diagnostic::NoCoverallsId => "missing environment variable TRAVIS_JOB_ID for coveralls"@,
        Diagnostic::CannotFindTestTargets(_) => "cannot find test targets"@,
    }
}

/// The display text of the underlying cause shown for each failure, when
/// one is available.
///
/// A cause is present exactly for the variants that carry a lower-level
/// error, and for the optional payloads only when they were supplied at
/// construction.
pub open spec fn cause_spec(e: Diagnostic) -> Option<Seq<char>> {
    match e {
        Diagnostic::UnsupportedOS => None,
        Diagnostic::KcovTooOld => None,
        Diagnostic::KcovNotInstalled(m) => Some(m@),
        Diagnostic::CannotRunCargo(m) => Some(m@),
        Diagnostic::Utf8(m) => Some(m@),
        Diagnostic::Json(p) => match p {
            Some(m) => Some(m@),
            None => None,
        },
        Diagnostic::CannotCreateCoverageDirectory(m) => Some(m@),
        Diagnostic::Cargo { .. } => None,
        Diagnostic::KcovFailed(r) => match r {
            Ok(s) => Some(s@),
            Err(m) => Some(m@),
        },
        Diagnostic::NoCoverallsId => None,
        Diagnostic::CannotFindTestTargets(p) => match p {
            Some(m) => Some(m@),
            None => None,
        },
    }
}

impl Diagnostic {
    /// The fixed, variant-specific one-line summary of this failure.
    pub fn description(&self) -> (r: &str)
        ensures
            r@ == description_spec(*self),
    {
        match *self {
            Diagnostic::UnsupportedOS => "kcov cannot collect coverage on Windows.",
            Diagnostic::KcovTooOld => "kcov is too old. v30 or above is required.",
            Diagnostic::KcovNotInstalled(_) => "kcov not installed.",
            Diagnostic::CannotRunCargo(_) => "cannot run cargo",
            Diagnostic::Utf8(_) => "output is not UTF-8 encoded",
            Diagnostic::Json(_) => "cannot parse JSON",
            Diagnostic::CannotCreateCoverageDirectory(_) => "cannot create coverage output directory",
            Diagnostic::Cargo { .. } => "cargo subcommand failure",
            Diagnostic::KcovFailed(_) => "failed to get coverage",
            Diagnostic::NoCoverallsId => "missing environment variable TRAVIS_JOB_ID for coveralls",
            Diagnostic::CannotFindTestTargets(_) => "cannot find test targets",
        }
    }

    /// The display text of the underlying cause, when one is available.
    pub fn cause(&self) -> (r: Option<&String>)
        ensures
            match r {
                Some(s) => cause_spec(*self) == Some(s@),
                None => cause_spec(*self) == None::<Seq<char>>,
            },
    {
        match self {
            Diagnostic::UnsupportedOS => None,
            Diagnostic::KcovTooOld => None,
            Diagnostic::KcovNotInstalled(m) => Some(m),
            Diagnostic::CannotRunCargo(m) => Some(m),
            Diagnostic::Utf8(m) => Some(m),
            Diagnostic::Json(p) => p.as_ref(),
            Diagnostic::CannotCreateCoverageDirectory(m) => Some(m),
            Diagnostic::Cargo { .. } => None,
            Diagnostic::KcovFailed(Ok(s)) => Some(s),
            Diagnostic::KcovFailed(Err(m)) => Some(m),
            Diagnostic::NoCoverallsId => None,
            Diagnostic::CannotFindTestTargets(p) => p.as_ref(),
        }
    }
}

/// serde_json's opaque parse-error type, declared so that the classifier
/// can accept it; nothing about its contents is assumed.
#[verifier::external_type_specification]
#[verifier::external_body]
pub struct ExJsonError(serde_json::Error);

/// The std error returned when a byte buffer is not valid UTF-8, declared
/// so that the classifier can accept it; nothing about its contents is
/// assumed.
#[verifier::external_type_specification]
#[verifier::external_body]
pub struct ExFromUtf8Error(std::string::FromUtf8Error);

/// The display text of a given JSON parse error, a fixed function of the
/// error value alone.
pub uninterp spec fn json_message_of(e: serde_json::Error) -> Seq<char>;

/// The display text of a given UTF-8 decode failure's position detail, a
/// fixed function of the error value alone.
pub uninterp spec fn utf8_message_of(e: std::string::FromUtf8Error) -> Seq<char>;

/// Relies on serde_json::Error's Display implementation for the parse
/// failure's text, which depends on the error value alone.
#[verifier::external_body]
fn json_error_message(e: &serde_json::Error) -> (r: String)
    ensures
        r@ == json_message_of(*e),
{
    format!("{}", e)
}

/// Relies on FromUtf8Error::utf8_error, which keeps only the decode-position
/// detail of the failure, and on Utf8Error's Display implementation for its
/// text, which depends on the error value alone.
#[verifier::external_body]
fn utf8_error_message(e: &std::string::FromUtf8Error) -> (r: String)
    ensures
        r@ == utf8_message_of(*e),
{
    format!("{}", e.utf8_error())
}

impl Diagnostic {
    /// Classifies a UTF-8 decoding failure: the partially decoded bytes are
    /// discarded and the decode error's display text becomes the present
    /// cause of a `Utf8` diagnostic, display-equal to the original error.
    pub fn from_utf8_failure(e: std::string::FromUtf8Error) -> (r: Diagnostic)
        ensures
            r matches Diagnostic::Utf8(m) && m@ == utf8_message_of(e),
            cause_spec(r) == Some(utf8_message_of(e)),
    {
        Diagnostic::Utf8(utf8_error_message(&e))
    }

    /// Classifies a JSON parse failure: the parse error's display text
    /// becomes the present cause of a `Json` diagnostic, display-equal to
    /// the original error.
    pub fn from_json_failure(e: serde_json::Error) -> (r: Diagnostic)
        ensures
            r matches Diagnostic::Json(Some(m)) && m@ == json_message_of(e),
            cause_spec(r) == Some(json_message_of(e)),
    {
        Diagnostic::Json(Some(json_error_message(&e)))
    }
}

/// Law: every variant's headline description is non-empty.
pub proof fn lemma_description_nonempty(e: Diagnostic)
    ensures
        description_spec(e).len() > 0,
{
    reveal_strlit("kcov cannot collect coverage on Windows.");
    reveal_strlit("kcov is too old. v30 or above is required.");
    reveal_strlit("kcov not installed.");
    reveal_strlit("cannot run cargo");
    reveal_strlit("output is not UTF-8 encoded");
    reveal_strlit("cannot parse JSON");
    reveal_strlit("cannot create coverage output directory");
    reveal_strlit("cargo subcommand failure");
    reveal_strlit("failed to get coverage");
    reveal_strlit("missing environment variable TRAVIS_JOB_ID for coveralls");
    reveal_strlit("cannot find test targets");
}

/// Law: a cause is present exactly for the variants that carry a
/// lower-level error, counting the optional payloads only when supplied.
pub proof fn lemma_cause_present_iff(e: Diagnostic)
    ensures
        cause_spec(e) is Some <==> (
            e matches Diagnostic::KcovNotInstalled(_)
            || e matches Diagnostic::CannotRunCargo(_)
            || e matches Diagnostic::Utf8(_)
            || e matches Diagnostic::Json(Some(_))
            || e matches Diagnostic::CannotCreateCoverageDirectory(_)
            || e matches Diagnostic::KcovFailed(_)
            || e matches Diagnostic::CannotFindTestTargets(Some(_))
        ),
{
}

} // verus!
