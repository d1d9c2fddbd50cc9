//! Running the signer and reading what it printed.
//!
//! The signer is an outside program. The service starts it with the
//! arguments that [`signer_arguments`] gives, waits for it to end and hands
//! back what it wrote to its two output streams.

use vstd::prelude::*;
use vstd::string::*;
use regex::Regex;
use crate::error::SigningError;
use crate::text::{contains_text, owned_text_view, str_contains};

verus! {

/// Where the signer is installed.
pub const SIGNER_PROGRAM: &'static str = "/zsign";

/// The seconds a run of the signer may take. A run that takes longer is
/// ended and counts as failed.
pub const SIGNER_TIMEOUT_SECONDS: u64 = 600;

/// The phrase by which the signer reports success.
pub const SUCCESS_MARKER: &'static str = "Signed OK!";

/// `BundleId:`, whitespace if any, then the identifier: a run of
/// characters that are not whitespace.
pub const BUNDLE_ID_PATTERN: &'static str = "BundleId:\\s*(\\S+)";

/// `BundleVer:`, whitespace if any, then the version: a run of characters
/// that are not whitespace.
pub const BUNDLE_VERSION_PATTERN: &'static str = "BundleVer:\\s*(\\S+)";

/// What the signer tells of the application it signed.
#[derive(Debug, Clone, PartialEq, Eq)]
pub struct SignResult {
    pub bundle_id: String,
    pub bundle_version: String,
}

pub struct SignResultView {
    pub bundle_id: Seq<char>,
    pub bundle_version: Seq<char>,
}

impl View for SignResult {
    type V = SignResultView;

    open spec fn view(&self) -> SignResultView {
        SignResultView { bundle_id: self.bundle_id@, bundle_version: self.bundle_version@ }
    }
}

/// What a run of the signer wrote.
#[derive(Debug, Clone, PartialEq, Eq)]
pub struct SignerOutput {
    pub stdout: String,
    pub stderr: String,
}

/// The arguments of a run: the provisioning profile, the key, the place of
/// the signed archive, then the archive to sign.
pub open spec fn signer_arguments_spec(
    input: Seq<char>,
    output: Seq<char>,
    profile: Seq<char>,
    key: Seq<char>,
) -> Seq<Seq<char>> {
    seq!["-m"@, profile, "-k"@, key, "-o"@, output, input]
}

/// The views of the strings in `args`.
pub open spec fn argument_views(args: Seq<String>) -> Seq<Seq<char>> {
    Seq::new(args.len(), |i: int| args[i]@)
}

/// The arguments to start the signer with.
pub fn signer_arguments(input: &str, output: &str, profile: &str, key: &str) -> (args: Vec<String>)
    ensures
        argument_views(args@) == signer_arguments_spec(input@, output@, profile@, key@),
{
    let mut args: Vec<String> = Vec::new();
    args.push("-m".to_owned());
    args.push(profile.to_owned());
    args.push("-k".to_owned());
    args.push(key.to_owned());
    args.push("-o".to_owned());
    args.push(output.to_owned());
    args.push(input.to_owned());
    assert(argument_views(args@) =~= signer_arguments_spec(input@, output@, profile@, key@));
    args
}

/// The two streams as one text: standard output, and, where standard
/// error is not empty, a newline and standard error behind it.
pub open spec fn combined_output(stdout: Seq<char>, stderr: Seq<char>) -> Seq<char> {
    if stderr.len() > 0 {
        stdout + seq!['\n'] + stderr
    } else {
        stdout
    }
}

/// Joins what the signer wrote to its two streams.
pub fn combine_output(stdout: &str, stderr: &str) -> (blob: String)
    ensures
        blob@ == combined_output(stdout@, stderr@),
{
    let mut blob = stdout.to_owned();
    if stderr.unicode_len() > 0 {
        blob.push('\n');
        blob.append(stderr);
    }
    blob
}

/// The text that the first capture group of the regular expression
/// `pattern` takes in the leftmost match of `pattern` in `text`, in the
/// syntax and with the matching rules of the `regex` crate. `None` where
/// `pattern` is no valid expression, where it matches nowhere in `text`,
/// and where the group takes no part in the match.
pub uninterp spec fn first_group(pattern: Seq<char>, text: Seq<char>) -> Option<Seq<char>>;

/// Compiles `pattern` with `Regex::new`, searches `text` with
/// `Regex::captures` and copies what group 1 matched, by `Captures::get`
/// and `Match::as_str`. The result depends on the two arguments alone and
/// is taken as the meaning of [`first_group`].
#[verifier::external_body]
fn capture_first_group(pattern: &str, text: &str) -> (found: Option<String>)
    ensures
        match found {
            Some(captured) => first_group(pattern@, text@) == Some(captured@),
            None => first_group(pattern@, text@) is None,
        },
{
    let expression = Regex::new(pattern).ok()?;
    let captures = expression.captures(text)?;
    let group = captures.get(1)?;
    Some(group.as_str().to_owned())
}

/// What a run of the signer amounts to, given whether its output holds the
/// success marker and what it names as bundle identifier and version.
/// Without the marker the run has failed, whatever else the output holds;
/// with it, both values must be there.
pub open spec fn sign_outcome(
    marked: bool,
    bundle_id: Option<Seq<char>>,
    bundle_version: Option<Seq<char>>,
) -> Result<SignResultView, SigningError> {
    if !marked {
        Err(SigningError::NotSigned)
    } else {
        match bundle_id {
            None => Err(SigningError::MissingBundleId),
            Some(id) => match bundle_version {
                None => Err(SigningError::MissingBundleVersion),
                Some(version) => Ok(SignResultView { bundle_id: id, bundle_version: version }),
            },
        }
    }
}

/// Whether `found` is the outcome `expected`, read through its view.
pub open spec fn is_sign_outcome(
    found: Result<SignResult, SigningError>,
    expected: Result<SignResultView, SigningError>,
) -> bool {
    match found {
        Ok(result) => expected == Ok::<SignResultView, SigningError>(result@),
        Err(e) => expected == Err::<SignResultView, SigningError>(e),
    }
}

/// Judges a run by what was found in its output.
pub fn interpret_sign_output(
    marked: bool,
    bundle_id: Option<String>,
    bundle_version: Option<String>,
) -> (outcome: Result<SignResult, SigningError>)
    ensures
        is_sign_outcome(
            outcome,
            sign_outcome(marked, owned_text_view(bundle_id), owned_text_view(bundle_version)),
        ),
{
    if !marked {
        return Err(SigningError::NotSigned);
    }
    let id = match bundle_id {
        Some(id) => id,
        None => {
            return Err(SigningError::MissingBundleId);
        },
    };
    let version = match bundle_version {
        Some(version) => version,
        None => {
            return Err(SigningError::MissingBundleVersion);
        },
    };
    Ok(SignResult { bundle_id: id, bundle_version: version })
}

/// What the output of the signer amounts to: see [`sign_outcome`]. The
/// marker is looked for as it is written, case and all; the two values are
/// found by [`BUNDLE_ID_PATTERN`] and [`BUNDLE_VERSION_PATTERN`].
pub open spec fn parsed_output(output: Seq<char>) -> Result<SignResultView, SigningError> {
    sign_outcome(
        contains_text(output, SUCCESS_MARKER@),
        first_group(BUNDLE_ID_PATTERN@, output),
        first_group(BUNDLE_VERSION_PATTERN@, output),
    )
}

/// Reads the output of the signer.
pub fn parse_sign_output(output: &str) -> (outcome: Result<SignResult, SigningError>)
    ensures
        is_sign_outcome(outcome, parsed_output(output@)),
{
    let marked = str_contains(output, SUCCESS_MARKER);
    let bundle_id = capture_first_group(BUNDLE_ID_PATTERN, output);
    let bundle_version = capture_first_group(BUNDLE_VERSION_PATTERN, output);
    interpret_sign_output(marked, bundle_id, bundle_version)
}

/// What a run amounts to: a run that could not be made keeps its error, a
/// run that was made is judged by its two streams joined.
pub open spec fn run_outcome(run: Result<SignerOutput, SigningError>) -> Result<
    SignResultView,
    SigningError,
> {
    match run {
        Ok(written) => parsed_output(combined_output(written.stdout@, written.stderr@)),
        Err(e) => Err(e),
    }
}

/// Judges a run of the signer. Its exit code plays no part.
pub fn judge_run(run: Result<SignerOutput, SigningError>) -> (outcome: Result<
    SignResult,
    SigningError,
>)
    ensures
        is_sign_outcome(outcome, run_outcome(run)),
{
    match run {
        Ok(written) => {
            let blob = combine_output(written.stdout.as_str(), written.stderr.as_str());
            parse_sign_output(blob.as_str())
        },
        Err(e) => Err(e),
    }
}

} // verus!
