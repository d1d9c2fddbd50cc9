//! Signing and distribution of application archives for over-the-air
//! installs.
//!
//! A device uploads an unsigned archive. The service has it signed by an
//! outside program, publishes the signed archive under a name of its own
//! and hands back three addresses: the download, the manifest and the page
//! to install from. This library holds what the service decides and
//! computes; reading the network and the disk and running the signer are
//! left to the program around it.
//!
//! - [`allowlist`]: the devices that may ask for a signature.
//! - [`upload`]: the parts of an upload, the checks on them, the file name
//!   made safe.
//! - [`identity`]: the name of an artifact.
//! - [`signing`]: the arguments of the signer and the reading of its output.
//! - [`publish`]: the origin of a request and the addresses of an artifact.
//! - [`pipeline`]: a signing request, step by step, up to its answer.
//! - [`manifest`]: the manifest document.
//! - [`install`]: the answer to a request to install, by kind of client.
//! - [`config`]: the settings of the service.
//! - [`error`]: the failures, their statuses and messages.
//! - [`text`]: searching, trimming, splitting and formatting of text.

pub mod allowlist;
pub mod config;
pub mod error;
pub mod identity;
pub mod install;
pub mod manifest;
pub mod pipeline;
pub mod publish;
pub mod signing;
pub mod text;
pub mod upload;
