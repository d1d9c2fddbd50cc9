//! Taking in an upload: the parts of the multipart body, the checks on
//! them, and the file name made safe.

use vstd::prelude::*;
use vstd::string::*;
use crate::allowlist::{normalize_udid, normalized, DeviceAllowlist};
use crate::error::{PipelineError, ValidationError};
use crate::text::{chars_of, text_equal, text_view};

verus! {

/// Whether `c` is alphabetic or numeric in Unicode's sense, which is what
/// `char::is_alphanumeric` reports.
pub uninterp spec fn char_is_alphanumeric(c: char) -> bool;

/// Calls `char::is_alphanumeric`. Its answer is taken as the meaning of
/// [`char_is_alphanumeric`]; nothing else is claimed of it.
#[verifier::external_body]
fn is_alphanumeric(c: char) -> (alnum: bool)
    ensures
        alnum == char_is_alphanumeric(c),
{
    c.is_alphanumeric()
}

/// The characters that a file name keeps: alphanumerics, `-` and `_`.
pub open spec fn is_safe_char(c: char) -> bool {
    char_is_alphanumeric(c) || c == '-' || c == '_'
}

/// A safe character stands for itself, any other becomes `_`.
pub open spec fn sanitized_char(c: char) -> char {
    if is_safe_char(c) {
        c
    } else {
        '_'
    }
}

/// The file name with every unsafe character replaced by `_`.
pub open spec fn sanitized(name: Seq<char>) -> Seq<char> {
    Seq::new(name.len(), |i: int| sanitized_char(name[i]))
}

/// Replaces every character of `name` that is not alphanumeric, `-` or `_`
/// by `_`. The result has the length of `name` and holds safe characters
/// only, so it names no directory and cannot leave one.
pub fn sanitize_filename(name: &str) -> (safe: String)
    ensures
        safe@ == sanitized(name@),
        forall|i: int| 0 <= i < safe@.len() ==> is_safe_char(#[trigger] safe@[i]),
{
    let chars = chars_of(name);
    let mut safe = String::new();
    let mut i: usize = 0;
    while i < chars.len()
        invariant
            i <= chars.len(),
            chars@ == name@,
            safe@ == sanitized(name@).take(i as int),
        decreases chars.len() - i,
    {
        let c = chars[i];
        if is_alphanumeric(c) || c == '-' || c == '_' {
            safe.push(c);
        } else {
            safe.push('_');
        }
        assert(safe@ =~= sanitized(name@).take(i + 1));
        i = i + 1;
    }
    assert(safe@ =~= sanitized(name@));
    safe
}

/// Sanitizing is idempotent: a sanitized name holds safe characters only,
/// and sanitizing it again changes nothing.
pub proof fn lemma_sanitize_idempotent(name: Seq<char>)
    ensures
        forall|i: int| 0 <= i < sanitized(name).len() ==> is_safe_char(#[trigger] sanitized(name)[i]),
        sanitized(sanitized(name)) == sanitized(name),
{
    assert(sanitized(sanitized(name)) =~= sanitized(name));
}

/// What to do with a named part of the multipart body.
#[derive(Debug, Clone, Copy, PartialEq, Eq)]
pub enum FieldAction {
    /// The part is the `udid` field: read its text.
    ReadUdid,
    /// The part is the `file` field: read its bytes.
    ReadFile,
    /// Any other part is passed over unread.
    Skip,
}

/// What becomes of a part, by its name: a part without a name ends the
/// request, `udid` and `file` are read, any other part is passed over.
pub open spec fn field_action_spec(name: Option<Seq<char>>) -> Result<FieldAction, PipelineError> {
    match name {
        None => Err(PipelineError::Validation(ValidationError::UnnamedField)),
        Some(n) => if n == "udid"@ {
            Ok(FieldAction::ReadUdid)
        } else if n == "file"@ {
            Ok(FieldAction::ReadFile)
        } else {
            Ok(FieldAction::Skip)
        },
    }
}

/// Decides by its name what becomes of a part of the body.
pub fn field_action(name: Option<&str>) -> (action: Result<FieldAction, PipelineError>)
    ensures
        action == field_action_spec(text_view(name)),
{
    match name {
        None => Err(PipelineError::Validation(ValidationError::UnnamedField)),
        Some(n) => {
            if text_equal(n, "udid") {
                Ok(FieldAction::ReadUdid)
            } else if text_equal(n, "file") {
                Ok(FieldAction::ReadFile)
            } else {
                Ok(FieldAction::Skip)
            }
        },
    }
}

/// What has been read of an upload so far.
#[derive(Debug, Clone, PartialEq, Eq)]
pub struct UploadDraft {
    /// The claimed device identifier, in normal form.
    pub udid: Option<String>,
    /// The name the client gave the file.
    pub original_filename: Option<String>,
    /// The archive.
    pub file_bytes: Option<Vec<u8>>,
}

pub struct UploadDraftView {
    pub udid: Option<Seq<char>>,
    pub original_filename: Option<Seq<char>>,
    pub file_bytes: Option<Seq<u8>>,
}

impl View for UploadDraft {
    type V = UploadDraftView;

    open spec fn view(&self) -> UploadDraftView {
        UploadDraftView {
            udid: match self.udid {
                Some(u) => Some(u@),
                None => None,
            },
            original_filename: match self.original_filename {
                Some(n) => Some(n@),
                None => None,
            },
            file_bytes: match self.file_bytes {
                Some(b) => Some(b@),
                None => None,
            },
        }
    }
}

/// A complete upload from an authorized device.
#[derive(Debug, Clone, PartialEq, Eq)]
pub struct UploadRequest {
    /// The device identifier, in normal form and on the allow-list.
    pub udid: String,
    /// The name the client gave the file, as it came.
    pub original_filename: String,
    /// The archive.
    pub bytes: Vec<u8>,
}

pub struct UploadRequestView {
    pub udid: Seq<char>,
    pub original_filename: Seq<char>,
    pub bytes: Seq<u8>,
}

impl View for UploadRequest {
    type V = UploadRequestView;

    open spec fn view(&self) -> UploadRequestView {
        UploadRequestView {
            udid: self.udid@,
            original_filename: self.original_filename@,
            bytes: self.bytes@,
        }
    }
}

/// The checks on a body that has been read to its end, in their order: the
/// device identifier must be there, then it must be on the allow-list, then
/// the file must be there with its name.
pub open spec fn checked_upload(draft: UploadDraftView, allowed: Set<Seq<char>>) -> Result<
    UploadRequestView,
    PipelineError,
> {
    match draft.udid {
        None => Err(PipelineError::Validation(ValidationError::MissingUdid)),
        Some(udid) => if !allowed.contains(udid) {
            Err(PipelineError::Authorization)
        } else {
            match (draft.file_bytes, draft.original_filename) {
                (Some(bytes), Some(name)) => Ok(
                    UploadRequestView { udid, original_filename: name, bytes },
                ),
                _ => Err(PipelineError::Validation(ValidationError::MissingFile)),
            }
        },
    }
}

impl UploadDraft {
    /// Nothing read yet.
    pub fn new() -> (draft: UploadDraft)
        ensures
            draft@ == (UploadDraftView { udid: None, original_filename: None, file_bytes: None }),
    {
        UploadDraft { udid: None, original_filename: None, file_bytes: None }
    }

    /// Takes the text of a `udid` field. The identifier is kept in normal
    /// form; a later field replaces an earlier one.
    pub fn record_udid(&mut self, text: &str)
        ensures
            final(self)@ == (UploadDraftView { udid: Some(normalized(text@)), ..old(self)@ }),
    {
        self.udid = Some(normalize_udid(text));
    }

    /// Takes a `file` field. Its bytes replace those of an earlier field;
    /// its name does so only if it has one.
    pub fn record_file(&mut self, file_name: Option<&str>, bytes: Vec<u8>)
        ensures
            final(self)@ == (UploadDraftView {
                original_filename: match file_name {
                    Some(n) => Some(n@),
                    None => old(self)@.original_filename,
                },
                file_bytes: Some(bytes@),
                ..old(self)@
            }),
    {
        match file_name {
            Some(n) => {
                self.original_filename = Some(n.to_owned());
            },
            None => {},
        }
        self.file_bytes = Some(bytes);
    }

    /// Checks what was read once the body has ended.
    pub fn finish(self, allowlist: &DeviceAllowlist) -> (outcome: Result<
        UploadRequest,
        PipelineError,
    >)
        ensures
            match outcome {
                Ok(request) => checked_upload(self@, allowlist@) == Ok::<
                    UploadRequestView,
                    PipelineError,
                >(request@),
                Err(e) => checked_upload(self@, allowlist@) == Err::<
                    UploadRequestView,
                    PipelineError,
                >(e),
            },
    {
        let udid = match self.udid {
            Some(u) => u,
            None => {
                return Err(PipelineError::Validation(ValidationError::MissingUdid));
            },
        };
        if !allowlist.lists(udid.as_str()) {
            return Err(PipelineError::Authorization);
        }
        let bytes = match self.file_bytes {
            Some(b) => b,
            None => {
                return Err(PipelineError::Validation(ValidationError::MissingFile));
            },
        };
        let original_filename = match self.original_filename {
            Some(n) => n,
            None => {
                return Err(PipelineError::Validation(ValidationError::MissingFile));
            },
        };
        Ok(UploadRequest { udid, original_filename, bytes })
    }
}

} // verus!
