//! A signing request from the checked upload to the response. Each step
//! hands the service one thing to do and takes back how it went: write the
//! archive, run the signer, remove the working file, answer.

use vstd::prelude::*;
use vstd::string::*;
use crate::error::{PipelineError, SigningError, StorageError, StorageStep, STATUS_OK};
use crate::identity::{compose_identity, identity_text, is_token, mint_identity};
use crate::publish::{published_urls, published_urls_spec, PublishedUrls, PublishedUrlsView};
use crate::signing::{judge_run, run_outcome, SignerOutput};
use crate::upload::{sanitize_filename, sanitized, UploadRequest};

verus! {

/// An upload that has its name and waits to be written to the working
/// directory, under that name.
#[derive(Debug, PartialEq, Eq)]
pub struct StagedUpload {
    /// The identity of the artifact: the name of the working file, of the
    /// signed file and the last segment of its addresses.
    pub identity: String,
    /// The origin of the request.
    pub origin: String,
    /// The archive.
    pub bytes: Vec<u8>,
}

/// A working file that is written and waits for the signer.
#[derive(Debug, PartialEq, Eq)]
pub struct PendingSignature {
    pub identity: String,
    pub origin: String,
}

/// A request whose signer has returned. The working file is to be removed,
/// whether the signer succeeded or not; then the request is answered.
#[derive(Debug, PartialEq, Eq)]
pub struct Cleanup {
    /// The name of the working file.
    pub identity: String,
    pub outcome: Result<PublishedUrls, PipelineError>,
}

/// The answer to a signing request.
#[derive(Debug, PartialEq, Eq)]
pub struct SignResponse {
    pub status: u16,
    pub message: String,
    /// The addresses of the artifact, where it was signed.
    pub urls: Option<PublishedUrls>,
}

/// Names the upload with the given time and token. The file name the
/// client gave enters the name only in its sanitized form.
pub fn stage(
    request: UploadRequest,
    origin: &str,
    timestamp: i64,
    token: &str,
) -> (staged: StagedUpload)
    ensures
        staged.identity@ == identity_text(
            timestamp as int,
            token@,
            request.udid@,
            sanitized(request.original_filename@),
        ),
        staged.origin@ == origin@,
        staged.bytes@ == request.bytes@,
{
    let safe_name = sanitize_filename(request.original_filename.as_str());
    let identity = compose_identity(timestamp, token, request.udid.as_str(), safe_name.as_str());
    StagedUpload { identity, origin: origin.to_owned(), bytes: request.bytes }
}

/// Names the upload with the current time and a fresh random token.
pub fn stage_now(request: UploadRequest, origin: &str) -> (staged: StagedUpload)
    ensures
        exists|timestamp: i64, token: Seq<char>|
            is_token(token) && staged.identity@ == #[trigger] identity_text(
                timestamp as int,
                token,
                request.udid@,
                sanitized(request.original_filename@),
            ),
        staged.origin@ == origin@,
        staged.bytes@ == request.bytes@,
{
    let safe_name = sanitize_filename(request.original_filename.as_str());
    let identity = mint_identity(request.udid.as_str(), safe_name.as_str());
    StagedUpload { identity, origin: origin.to_owned(), bytes: request.bytes }
}

impl StagedUpload {
    /// Takes the result of writing the archive. After a failed write the
    /// request ends with a storage error that holds the reason; the signer
    /// is not run.
    pub fn written(self, result: Result<(), String>) -> (next: Result<
        PendingSignature,
        PipelineError,
    >)
        ensures
            match result {
                Ok(_) => next matches Ok(pending) && pending.identity == self.identity
                    && pending.origin == self.origin,
                Err(detail) => next == Err::<PendingSignature, PipelineError>(
                    PipelineError::Storage(StorageError { step: StorageStep::SaveArchive, detail }),
                ),
            },
    {
        match result {
            Ok(_) => Ok(PendingSignature { identity: self.identity, origin: self.origin }),
            Err(detail) => Err(
                PipelineError::Storage(StorageError { step: StorageStep::SaveArchive, detail }),
            ),
        }
    }
}

/// What a request ends with once the signer has returned: the addresses of
/// the artifact where the run succeeded, its signing error where not.
pub open spec fn publish_outcome(
    origin: Seq<char>,
    identity: Seq<char>,
    run: Result<SignerOutput, SigningError>,
) -> Result<PublishedUrlsView, PipelineError> {
    match run_outcome(run) {
        Ok(signed) => Ok(published_urls_spec(origin, signed, identity)),
        Err(e) => Err(PipelineError::Signing(e)),
    }
}

/// Whether `found` is the outcome `expected`, read through its view.
pub open spec fn is_publish_outcome(
    found: Result<PublishedUrls, PipelineError>,
    expected: Result<PublishedUrlsView, PipelineError>,
) -> bool {
    match found {
        Ok(urls) => expected == Ok::<PublishedUrlsView, PipelineError>(urls@),
        Err(e) => expected == Err::<PublishedUrlsView, PipelineError>(e),
    }
}

impl PendingSignature {
    /// Takes what the signer wrote, or why it could not be run.
    pub fn signed(self, run: Result<SignerOutput, SigningError>) -> (next: Cleanup)
        ensures
            next.identity == self.identity,
            is_publish_outcome(next.outcome, publish_outcome(self.origin@, self.identity@, run)),
    {
        let outcome = match judge_run(run) {
            Ok(signed) => Ok(
                published_urls(self.origin.as_str(), &signed, self.identity.as_str()),
            ),
            Err(e) => Err(PipelineError::Signing(e)),
        };
        Cleanup { identity: self.identity, outcome }
    }
}

/// Whether `response` answers a request that ended with `outcome`.
pub open spec fn answers(response: SignResponse, outcome: Result<PublishedUrls, PipelineError>) -> bool {
    match outcome {
        Ok(urls) => {
            &&& response.status == STATUS_OK
            &&& response.message@ == "IPA signed successfully."@
            &&& response.urls == Some(urls)
        },
        Err(e) => {
            &&& response.status == e.status_spec()
            &&& response.message@ == e.message_spec()
            &&& response.urls is None
        },
    }
}

/// The answer to a request that ended with `outcome`.
pub fn respond(outcome: Result<PublishedUrls, PipelineError>) -> (response: SignResponse)
    ensures
        answers(response, outcome),
{
    match outcome {
        Ok(urls) => SignResponse {
            status: STATUS_OK,
            message: "IPA signed successfully.".to_owned(),
            urls: Some(urls),
        },
        Err(e) => SignResponse { status: e.status(), message: e.message(), urls: None },
    }
}

impl Cleanup {
    /// Answers the request once the working file has been dealt with. That
    /// the file could not be removed does not change the answer.
    pub fn removed(self) -> (response: SignResponse)
        ensures
            answers(response, self.outcome),
    {
        respond(self.outcome)
    }
}

} // verus!
