//! The failures of the pipeline, the status each one is reported with and
//! the message the client reads.

use vstd::prelude::*;
use vstd::string::*;

verus! {

/// Request data that is missing or malformed.
#[derive(Debug, Clone, Copy, PartialEq, Eq)]
pub enum ValidationError {
    /// A part of the multipart body carries no name.
    UnnamedField,
    /// The body holds no `udid` field.
    MissingUdid,
    /// The body holds no `file` field, or the field names no file.
    MissingFile,
    /// The request names no host.
    MissingHost,
    /// A segment of the install path is empty.
    MissingParameters,
}

/// The signer did not produce a usable result.
#[derive(Debug, Clone, PartialEq, Eq)]
pub enum SigningError {
    /// The staged archive is not there; holds its path.
    InputMissing(String),
    /// The signer could not be started or awaited; holds the reason.
    Launch(String),
    /// The signer did not end in the time it is given.
    TimedOut,
    /// The signer's output lacks the success marker.
    NotSigned,
    /// The output names no bundle identifier.
    MissingBundleId,
    /// The output names no bundle version.
    MissingBundleVersion,
}

/// The step at which reading or writing failed.
#[derive(Debug, Clone, Copy, PartialEq, Eq)]
pub enum StorageStep {
    /// Reading the next part of the body.
    ReadField,
    /// Reading the text of the `udid` field.
    ReadUdid,
    /// Reading the bytes of the `file` field.
    ReadFile,
    /// Writing the archive to the working directory.
    SaveArchive,
}

/// A read or a write that failed, with the reason the system gave.
#[derive(Debug, Clone, PartialEq, Eq)]
pub struct StorageError {
    pub step: StorageStep,
    pub detail: String,
}

/// Everything that can end a request early.
#[derive(Debug, Clone, PartialEq, Eq)]
pub enum PipelineError {
    Validation(ValidationError),
    /// The device identifier is not on the allow-list.
    Authorization,
    Signing(SigningError),
    Storage(StorageError),
}

/// A setting that the service reads once, when it starts.
#[derive(Debug, Clone, Copy, PartialEq, Eq)]
pub enum Setting {
    Port,
    PublicPath,
    WorkPath,
    ProfilePath,
    KeyPath,
    ValidUdids,
}

/// A configuration that the service cannot start with.
#[derive(Debug, Clone, Copy, PartialEq, Eq)]
pub enum ConfigError {
    /// The setting has no value.
    Missing(Setting),
    /// The allow-list names no device.
    NoValidUdids,
}

pub const STATUS_OK: u16 = 200;

pub const STATUS_TEMPORARY_REDIRECT: u16 = 307;

pub const STATUS_BAD_REQUEST: u16 = 400;

pub const STATUS_FORBIDDEN: u16 = 403;

pub const STATUS_INTERNAL_ERROR: u16 = 500;

impl Setting {
    /// The name of the environment variable that holds the setting.
    pub open spec fn name_spec(self) -> Seq<char> {
        match self {
            Setting::Port => "PORT"@,
            Setting::PublicPath => "PUBLIC_PATH"@,
            Setting::WorkPath => "WORK_PATH"@,
            Setting::ProfilePath => "OTAPROV_PATH"@,
            Setting::KeyPath => "KEY_PATH"@,
            Setting::ValidUdids => "VALID_UDIDS"@,
        }
    }

    /// The name of the environment variable that holds the setting.
    pub fn name(&self) -> (name: &'static str)
        ensures
            name@ == self.name_spec(),
    {
        match self {
            Setting::Port => "PORT",
            Setting::PublicPath => "PUBLIC_PATH",
            Setting::WorkPath => "WORK_PATH",
            Setting::ProfilePath => "OTAPROV_PATH",
            Setting::KeyPath => "KEY_PATH",
            Setting::ValidUdids => "VALID_UDIDS",
        }
    }
}

impl ConfigError {
    pub open spec fn message_spec(self) -> Seq<char> {
        match self {
            ConfigError::Missing(setting) => setting.name_spec() + " not set"@,
            ConfigError::NoValidUdids => "No valid UDIDs found. Please define VALID_UDIDS."@,
        }
    }

    /// Why the service does not start.
    pub fn message(&self) -> (text: String)
        ensures
            text@ == self.message_spec(),
    {
        match self {
            ConfigError::Missing(setting) => {
                let mut text = setting.name().to_owned();
                text.append(" not set");
                text
            },
            ConfigError::NoValidUdids => {
                "No valid UDIDs found. Please define VALID_UDIDS.".to_owned()
            },
        }
    }
}

impl ValidationError {
    pub open spec fn message_spec(self) -> Seq<char> {
        match self {
            ValidationError::UnnamedField => "Multipart field without name"@,
            ValidationError::MissingUdid => "Device UDID is missing."@,
            ValidationError::MissingFile => "No file uploaded."@,
            ValidationError::MissingHost => "Missing Host header"@,
            ValidationError::MissingParameters => "Missing required parameters."@,
        }
    }

    /// The text the client is shown.
    pub fn message(&self) -> (text: String)
        ensures
            text@ == self.message_spec(),
    {
        match self {
            ValidationError::UnnamedField => "Multipart field without name".to_owned(),
            ValidationError::MissingUdid => "Device UDID is missing.".to_owned(),
            ValidationError::MissingFile => "No file uploaded.".to_owned(),
            ValidationError::MissingHost => "Missing Host header".to_owned(),
            ValidationError::MissingParameters => "Missing required parameters.".to_owned(),
        }
    }
}

impl SigningError {
    pub open spec fn message_spec(self) -> Seq<char> {
        match self {
            SigningError::InputMissing(path) => "The input IPA file does not exist: "@ + path@,
            SigningError::Launch(detail) => detail@,
            SigningError::TimedOut => "The signer timed out"@,
            SigningError::NotSigned => "Sign error"@,
            SigningError::MissingBundleId => "Missing BundleId"@,
            SigningError::MissingBundleVersion => "Missing BundleVer"@,
        }
    }

    /// The reason, as the signing step words it.
    pub fn message(&self) -> (text: String)
        ensures
            text@ == self.message_spec(),
    {
        match self {
            SigningError::InputMissing(path) => {
                let mut text = "The input IPA file does not exist: ".to_owned();
                text.append(path.as_str());
                text
            },
            SigningError::Launch(detail) => detail.clone(),
            SigningError::TimedOut => "The signer timed out".to_owned(),
            SigningError::NotSigned => "Sign error".to_owned(),
            SigningError::MissingBundleId => "Missing BundleId".to_owned(),
            SigningError::MissingBundleVersion => "Missing BundleVer".to_owned(),
        }
    }
}

impl StorageStep {
    pub open spec fn prefix_spec(self) -> Seq<char> {
        match self {
            StorageStep::ReadField => "Error reading multipart field: "@,
            StorageStep::ReadUdid => "Error reading udid field: "@,
            StorageStep::ReadFile => "Error reading file field: "@,
            StorageStep::SaveArchive => "Unable to save IPA in the server: "@,
        }
    }
}

impl StorageError {
    pub open spec fn message_spec(self) -> Seq<char> {
        self.step.prefix_spec() + self.detail@
    }

    /// What failed, then the reason.
    pub fn message(&self) -> (text: String)
        ensures
            text@ == self.message_spec(),
    {
        let mut text = match self.step {
            StorageStep::ReadField => "Error reading multipart field: ".to_owned(),
            StorageStep::ReadUdid => "Error reading udid field: ".to_owned(),
            StorageStep::ReadFile => "Error reading file field: ".to_owned(),
            StorageStep::SaveArchive => "Unable to save IPA in the server: ".to_owned(),
        };
        text.append(self.detail.as_str());
        text
    }
}

impl PipelineError {
    /// The HTTP status that reports this failure: bad request for a
    /// validation failure, forbidden for an unauthorized device, internal
    /// error for a signing or storage failure.
    pub open spec fn status_spec(self) -> u16 {
        match self {
            PipelineError::Validation(_) => STATUS_BAD_REQUEST,
            PipelineError::Authorization => STATUS_FORBIDDEN,
            PipelineError::Signing(_) => STATUS_INTERNAL_ERROR,
            PipelineError::Storage(_) => STATUS_INTERNAL_ERROR,
        }
    }

    pub open spec fn message_spec(self) -> Seq<char> {
        match self {
            PipelineError::Validation(e) => e.message_spec(),
            PipelineError::Authorization => "Unauthorized UDID."@,
            PipelineError::Signing(e) => "Unable to sign IPA: "@ + e.message_spec(),
            PipelineError::Storage(e) => e.message_spec(),
        }
    }

    /// The HTTP status that reports this failure.
    pub fn status(&self) -> (code: u16)
        ensures
            code == self.status_spec(),
    {
        match self {
            PipelineError::Validation(_) => STATUS_BAD_REQUEST,
            PipelineError::Authorization => STATUS_FORBIDDEN,
            PipelineError::Signing(_) => STATUS_INTERNAL_ERROR,
            PipelineError::Storage(_) => STATUS_INTERNAL_ERROR,
        }
    }

    /// The `message` field of the response body.
    pub fn message(&self) -> (text: String)
        ensures
            text@ == self.message_spec(),
    {
        match self {
            PipelineError::Validation(e) => e.message(),
            PipelineError::Authorization => "Unauthorized UDID.".to_owned(),
            PipelineError::Signing(e) => {
                let mut text = "Unable to sign IPA: ".to_owned();
                let reason = e.message();
                text.append(reason.as_str());
                text
            },
            PipelineError::Storage(e) => e.message(),
        }
    }
}

} // verus!
