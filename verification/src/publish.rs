//! The public addresses of an artifact. They are computed from the origin
//! of the request, the identity of the artifact and what the signer told of
//! it; nothing is stored.

use vstd::prelude::*;
use vstd::string::*;
use crate::error::{PipelineError, ValidationError};
use crate::signing::{SignResult, SignResultView};
use crate::text::{text_equal, text_view};

verus! {

/// `https` where the forwarded-protocol header says exactly that, `http`
/// where it says anything else or is absent.
pub open spec fn scheme_spec(forwarded_proto: Option<Seq<char>>) -> Seq<char> {
    if forwarded_proto == Some("https"@) {
        "https"@
    } else {
        "http"@
    }
}

/// Scheme and host, the host as the request gave it.
pub open spec fn origin_text(host: Seq<char>, forwarded_proto: Option<Seq<char>>) -> Seq<char> {
    scheme_spec(forwarded_proto) + "://"@ + host
}

/// The scheme under which the client reached the service.
pub fn scheme(forwarded_proto: Option<&str>) -> (name: &'static str)
    ensures
        name@ == scheme_spec(text_view(forwarded_proto)),
{
    match forwarded_proto {
        Some(proto) => {
            if text_equal(proto, "https") {
                "https"
            } else {
                "http"
            }
        },
        None => "http",
    }
}

/// The origin of a request, from its host header and its
/// forwarded-protocol header. A request without a host is refused.
pub fn base_origin(host: Option<&str>, forwarded_proto: Option<&str>) -> (origin: Result<
    String,
    PipelineError,
>)
    ensures
        match origin {
            Ok(text) => host matches Some(h) && text@ == origin_text(
                h@,
                text_view(forwarded_proto),
            ),
            Err(e) => host is None && e == PipelineError::Validation(ValidationError::MissingHost),
        },
{
    match host {
        Some(h) => {
            let mut text = scheme(forwarded_proto).to_owned();
            text.append("://");
            text.append(h);
            Ok(text)
        },
        None => Err(PipelineError::Validation(ValidationError::MissingHost)),
    }
}

/// Where the signed archive is downloaded.
pub open spec fn download_url_text(origin: Seq<char>, identity: Seq<char>) -> Seq<char> {
    origin + "/public/"@ + identity
}

/// The address `{origin}/{route}/{bundle_id}/{bundle_version}/{identity}`.
pub open spec fn route_url_text(
    origin: Seq<char>,
    route: Seq<char>,
    bundle_id: Seq<char>,
    bundle_version: Seq<char>,
    identity: Seq<char>,
) -> Seq<char> {
    origin + "/"@ + route + "/"@ + bundle_id + "/"@ + bundle_version + "/"@ + identity
}

/// Where the manifest of the artifact is served.
pub open spec fn ota_url_text(
    origin: Seq<char>,
    bundle_id: Seq<char>,
    bundle_version: Seq<char>,
    identity: Seq<char>,
) -> Seq<char> {
    route_url_text(origin, "ota"@, bundle_id, bundle_version, identity)
}

/// Where a person goes to install the artifact.
pub open spec fn install_url_text(
    origin: Seq<char>,
    bundle_id: Seq<char>,
    bundle_version: Seq<char>,
    identity: Seq<char>,
) -> Seq<char> {
    route_url_text(origin, "install"@, bundle_id, bundle_version, identity)
}

/// Where the signed archive is downloaded. The parts are joined as they
/// are, without encoding.
pub fn download_url(origin: &str, identity: &str) -> (url: String)
    ensures
        url@ == download_url_text(origin@, identity@),
{
    let mut url = origin.to_owned();
    url.append("/public/");
    url.append(identity);
    url
}

/// The address of an artifact under a route. The parts are joined as they
/// are, without encoding.
pub fn route_url(
    origin: &str,
    route: &str,
    bundle_id: &str,
    bundle_version: &str,
    identity: &str,
) -> (url: String)
    ensures
        url@ == route_url_text(origin@, route@, bundle_id@, bundle_version@, identity@),
{
    let mut url = origin.to_owned();
    url.append("/");
    url.append(route);
    url.append("/");
    url.append(bundle_id);
    url.append("/");
    url.append(bundle_version);
    url.append("/");
    url.append(identity);
    url
}

/// The three addresses of a published artifact.
#[derive(Debug, Clone, PartialEq, Eq)]
pub struct PublishedUrls {
    /// The direct download of the signed archive.
    pub ipa_url: String,
    /// The manifest.
    pub ota_url: String,
    /// The page a person opens to install.
    pub install_url: String,
}

pub struct PublishedUrlsView {
    pub ipa_url: Seq<char>,
    pub ota_url: Seq<char>,
    pub install_url: Seq<char>,
}

impl View for PublishedUrls {
    type V = PublishedUrlsView;

    open spec fn view(&self) -> PublishedUrlsView {
        PublishedUrlsView {
            ipa_url: self.ipa_url@,
            ota_url: self.ota_url@,
            install_url: self.install_url@,
        }
    }
}

/// The three addresses of the artifact `identity`, signed as `signed`,
/// under `origin`.
pub open spec fn published_urls_spec(
    origin: Seq<char>,
    signed: SignResultView,
    identity: Seq<char>,
) -> PublishedUrlsView {
    PublishedUrlsView {
        ipa_url: download_url_text(origin, identity),
        ota_url: ota_url_text(origin, signed.bundle_id, signed.bundle_version, identity),
        install_url: install_url_text(origin, signed.bundle_id, signed.bundle_version, identity),
    }
}

/// Computes the three addresses of a published artifact.
pub fn published_urls(origin: &str, signed: &SignResult, identity: &str) -> (urls: PublishedUrls)
    ensures
        urls@ == published_urls_spec(origin@, signed@, identity@),
{
    let id = signed.bundle_id.as_str();
    let version = signed.bundle_version.as_str();
    PublishedUrls {
        ipa_url: download_url(origin, identity),
        ota_url: route_url(origin, "ota", id, version, identity),
        install_url: route_url(origin, "install", id, version, identity),
    }
}

} // verus!
