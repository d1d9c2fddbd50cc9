//! Answering a request to install: a device that can install over the air
//! is redirected to the installer, any other client gets a page with a
//! code to scan.

use vstd::prelude::*;
use vstd::string::*;
use vstd::utf8::encode_utf8;
use percent_encoding::{utf8_percent_encode, NON_ALPHANUMERIC};
use crate::error::{PipelineError, ValidationError, STATUS_OK, STATUS_TEMPORARY_REDIRECT};
use crate::publish::{install_url_text, ota_url_text, route_url};
use crate::text::{chars_contain, chars_of, contains_text, text_view};

verus! {

/// The scheme of the installer, up to the address of the manifest.
pub const INSTALLER_PREFIX: &'static str = "itms-services://?action=download-manifest&url=";

/// Put before an address, it makes the default browser of the device open
/// the address, in place of the browser that asked.
pub const DEFAULT_BROWSER_PREFIX: &'static str = "x-safari-";

/// The page for a client that cannot install, up to the address to scan.
pub const FALLBACK_PAGE_HEAD: &'static str = "<strong>Scan this QR code with the iOS Camera app to install the IPA</strong>\n            \
    <div id=\"qrCode\"></div>\n            \
    <script src=\"https://cdnjs.cloudflare.com/ajax/libs/qrcodejs/1.0.0/qrcode.min.js\"></script>\n            \
    <script>\n                \
    new QRCode(document.getElementById(\"qrCode\"), {\n                \
    text: \"";

/// The page for a client that cannot install, behind the address to scan.
pub const FALLBACK_PAGE_TAIL: &'static str = "\",\n                \
    width: 200,\n                \
    height: 200,\n                \
    colorDark: \"\\#000000\",\n                \
    colorLight: \"\\#ffffff\",\n                \
    correctLevel: QRCode.CorrectLevel.M\n            \
    });\n            \
    </script>";

/// An ASCII letter or digit.
pub open spec fn is_ascii_alphanumeric(byte: u8) -> bool {
    48 <= byte <= 57 || 65 <= byte <= 90 || 97 <= byte <= 122
}

/// The upper-case hexadecimal digit of a value below 16.
pub open spec fn hex_upper(nibble: int) -> char {
    if nibble < 10 {
        (48 + nibble) as char
    } else {
        (55 + nibble) as char
    }
}

/// A byte in a path segment: an ASCII letter or digit stands for itself,
/// any other byte becomes `%` and its two upper-case hexadecimal digits.
pub open spec fn encoded_byte(byte: u8) -> Seq<char> {
    if is_ascii_alphanumeric(byte) {
        seq![byte as char]
    } else {
        seq!['%', hex_upper(byte as int / 16), hex_upper(byte as int % 16)]
    }
}

/// The bytes, each encoded.
pub open spec fn percent_encoded(bytes: Seq<u8>) -> Seq<char>
    decreases bytes.len(),
{
    if bytes.len() == 0 {
        Seq::<char>::empty()
    } else {
        percent_encoded(bytes.drop_last()) + encoded_byte(bytes.last())
    }
}

/// A text as a path segment: the bytes of its UTF-8 form, each encoded.
pub open spec fn encoded_segment(text: Seq<char>) -> Seq<char> {
    percent_encoded(encode_utf8(text))
}

/// Calls `utf8_percent_encode` with the set `NON_ALPHANUMERIC` and collects
/// the result with `to_string`. The crate walks the bytes of the UTF-8 form
/// of the text; a byte that is not ASCII, or is in the set, is written as
/// `%` and two upper-case hexadecimal digits, any other byte as it is. The
/// set holds every ASCII byte but the letters and digits.
#[verifier::external_body]
fn percent_encode(segment: &str) -> (encoded: String)
    ensures
        encoded@ == encoded_segment(segment@),
{
    utf8_percent_encode(segment, NON_ALPHANUMERIC).to_string()
}

/// Encodes a text for use as one segment of a path.
pub fn encode_segment(segment: &str) -> (encoded: String)
    ensures
        encoded@ == encoded_segment(segment@),
        forall|i: int|
            0 <= i < encoded@.len() ==> is_segment_char(#[trigger] encoded@[i]),
{
    proof {
        lemma_encoded_chars(encode_utf8(segment@));
    }
    percent_encode(segment)
}

/// The characters of an encoded segment: ASCII letters, digits and `%`.
pub open spec fn is_segment_char(c: char) -> bool {
    c == '%' || (c as int) < 128 && is_ascii_alphanumeric(c as u8)
}

/// An encoded segment holds ASCII letters, digits and `%` only. So it
/// holds no `/`, `?` or `#` that would end the segment, and no quote.
pub proof fn lemma_encoded_chars(bytes: Seq<u8>)
    ensures
        forall|i: int|
            0 <= i < percent_encoded(bytes).len() ==> is_segment_char(
                #[trigger] percent_encoded(bytes)[i],
            ),
    decreases bytes.len(),
{
    if bytes.len() > 0 {
        lemma_encoded_chars(bytes.drop_last());
        let front = percent_encoded(bytes.drop_last());
        let last = encoded_byte(bytes.last());
        assert forall|i: int| 0 <= i < percent_encoded(bytes).len() implies is_segment_char(
            #[trigger] percent_encoded(bytes)[i],
        ) by {
            if i < front.len() {
                assert(percent_encoded(bytes)[i] == front[i]);
            } else {
                assert(percent_encoded(bytes)[i] == last[i - front.len()]);
            }
        }
    }
}

/// The user agent names one of the device families that install over the
/// air: phone, tablet, pod, watch or headset.
pub open spec fn is_native_mobile(user_agent: Seq<char>) -> bool {
    ||| contains_text(user_agent, "iPhone"@)
    ||| contains_text(user_agent, "iPad"@)
    ||| contains_text(user_agent, "iPod"@)
    ||| contains_text(user_agent, "AppleWatch"@)
    ||| contains_text(user_agent, "Vision"@)
}

/// The user agent names a browser of another maker, which does not handle
/// the scheme of the installer itself.
pub open spec fn is_alternate_browser(user_agent: Seq<char>) -> bool {
    ||| contains_text(user_agent, "CriOS"@)
    ||| contains_text(user_agent, "FxiOS"@)
    ||| contains_text(user_agent, "EdgiOS"@)
    ||| contains_text(user_agent, "OPiOS"@)
    ||| contains_text(user_agent, "YaBrowser"@)
    ||| contains_text(user_agent, "DuckDuckGo"@)
}

/// The four kinds of request to install.
#[derive(Debug, Clone, Copy, PartialEq, Eq)]
pub enum InstallOutcome {
    /// A segment of the path is empty.
    InvalidParams,
    /// The client cannot install over the air.
    NonMobile,
    /// A device in its default browser.
    NativeDefault,
    /// A device in a browser of another maker.
    NativeAlternateBrowser,
}

/// The kind of a request, by the first of these that holds: a segment is
/// empty; the user agent names no device family; it names an alternate
/// browser; none of these.
pub open spec fn install_outcome(
    bundle_id: Seq<char>,
    bundle_version: Seq<char>,
    identity: Seq<char>,
    user_agent: Seq<char>,
) -> InstallOutcome {
    if bundle_id.len() == 0 || bundle_version.len() == 0 || identity.len() == 0 {
        InstallOutcome::InvalidParams
    } else if !is_native_mobile(user_agent) {
        InstallOutcome::NonMobile
    } else if is_alternate_browser(user_agent) {
        InstallOutcome::NativeAlternateBrowser
    } else {
        InstallOutcome::NativeDefault
    }
}

fn names(user_agent: &Vec<char>, signature: &str) -> (found: bool)
    ensures
        found == contains_text(user_agent@, signature@),
{
    let needle = chars_of(signature);
    chars_contain(user_agent, &needle)
}

/// Whether the user agent names a device family that installs over the air.
pub fn names_native_mobile(user_agent: &str) -> (native: bool)
    ensures
        native == is_native_mobile(user_agent@),
{
    let ua = chars_of(user_agent);
    names(&ua, "iPhone") || names(&ua, "iPad") || names(&ua, "iPod") || names(&ua, "AppleWatch")
        || names(&ua, "Vision")
}

/// Whether the user agent names a browser of another maker.
pub fn names_alternate_browser(user_agent: &str) -> (alternate: bool)
    ensures
        alternate == is_alternate_browser(user_agent@),
{
    let ua = chars_of(user_agent);
    names(&ua, "CriOS") || names(&ua, "FxiOS") || names(&ua, "EdgiOS") || names(&ua, "OPiOS")
        || names(&ua, "YaBrowser") || names(&ua, "DuckDuckGo")
}

/// Sorts a request to install into one of its four kinds. Every request
/// has exactly one.
pub fn classify_install(
    bundle_id: &str,
    bundle_version: &str,
    identity: &str,
    user_agent: &str,
) -> (outcome: InstallOutcome)
    ensures
        outcome == install_outcome(bundle_id@, bundle_version@, identity@, user_agent@),
{
    if bundle_id.unicode_len() == 0 || bundle_version.unicode_len() == 0 || identity.unicode_len()
        == 0 {
        InstallOutcome::InvalidParams
    } else if !names_native_mobile(user_agent) {
        InstallOutcome::NonMobile
    } else if names_alternate_browser(user_agent) {
        InstallOutcome::NativeAlternateBrowser
    } else {
        InstallOutcome::NativeDefault
    }
}

/// The answer to a request to install that is in order.
#[derive(Debug, Clone, PartialEq, Eq)]
pub enum InstallResponse {
    /// A page to show; holds its markup.
    Page(String),
    /// A temporary redirect; holds the target.
    Redirect(String),
}

pub enum InstallResponseView {
    Page(Seq<char>),
    Redirect(Seq<char>),
}

impl View for InstallResponse {
    type V = InstallResponseView;

    open spec fn view(&self) -> InstallResponseView {
        match self {
            InstallResponse::Page(markup) => InstallResponseView::Page(markup@),
            InstallResponse::Redirect(target) => InstallResponseView::Redirect(target@),
        }
    }
}

impl InstallResponse {
    /// The HTTP status of the answer.
    pub fn status(&self) -> (code: u16)
        ensures
            code == match self {
                InstallResponse::Page(_) => STATUS_OK,
                InstallResponse::Redirect(_) => STATUS_TEMPORARY_REDIRECT,
            },
    {
        match self {
            InstallResponse::Page(_) => STATUS_OK,
            InstallResponse::Redirect(_) => STATUS_TEMPORARY_REDIRECT,
        }
    }
}

/// The page that shows the address to install from as a code to scan.
pub open spec fn fallback_page_text(install_url: Seq<char>) -> Seq<char> {
    FALLBACK_PAGE_HEAD@ + install_url + FALLBACK_PAGE_TAIL@
}

/// The answer to a request to install. A request with an empty segment is
/// refused as a validation error. The three segments enter every address
/// percent-encoded. A device in its default browser is sent to the
/// installer with the address of the manifest; a device in an alternate
/// browser is sent to the install address once more, marked for the
/// default browser; any other client gets the page with the install
/// address.
pub open spec fn install_reply(
    origin: Seq<char>,
    bundle_id: Seq<char>,
    bundle_version: Seq<char>,
    identity: Seq<char>,
    user_agent: Seq<char>,
) -> Result<InstallResponseView, PipelineError> {
    let id = encoded_segment(bundle_id);
    let version = encoded_segment(bundle_version);
    let name = encoded_segment(identity);
    let install_url = install_url_text(origin, id, version, name);
    match install_outcome(bundle_id, bundle_version, identity, user_agent) {
        InstallOutcome::InvalidParams => Err(
            PipelineError::Validation(ValidationError::MissingParameters),
        ),
        InstallOutcome::NonMobile => Ok(InstallResponseView::Page(fallback_page_text(install_url))),
        InstallOutcome::NativeAlternateBrowser => Ok(
            InstallResponseView::Redirect(DEFAULT_BROWSER_PREFIX@ + install_url),
        ),
        InstallOutcome::NativeDefault => Ok(
            InstallResponseView::Redirect(
                INSTALLER_PREFIX@ + ota_url_text(origin, id, version, name),
            ),
        ),
    }
}

/// The user agent of a request; a request without one has the empty one.
pub open spec fn user_agent_text(header: Option<Seq<char>>) -> Seq<char> {
    match header {
        Some(text) => text,
        None => Seq::<char>::empty(),
    }
}

/// Answers a request to install the artifact `identity`.
pub fn install_response(
    origin: &str,
    bundle_id: &str,
    bundle_version: &str,
    identity: &str,
    user_agent: Option<&str>,
) -> (response: Result<InstallResponse, PipelineError>)
    ensures
        match response {
            Ok(answer) => install_reply(
                origin@,
                bundle_id@,
                bundle_version@,
                identity@,
                user_agent_text(text_view(user_agent)),
            ) == Ok::<InstallResponseView, PipelineError>(answer@),
            Err(e) => install_reply(
                origin@,
                bundle_id@,
                bundle_version@,
                identity@,
                user_agent_text(text_view(user_agent)),
            ) == Err::<InstallResponseView, PipelineError>(e),
        },
{
    let agent: &str = match user_agent {
        Some(text) => text,
        None => {
            proof {
                reveal_strlit("");
            }
            ""
        },
    };
    assert(agent@ =~= user_agent_text(text_view(user_agent)));
    match classify_install(bundle_id, bundle_version, identity, agent) {
        InstallOutcome::InvalidParams => Err(
            PipelineError::Validation(ValidationError::MissingParameters),
        ),
        InstallOutcome::NonMobile => {
            let id = encode_segment(bundle_id);
            let version = encode_segment(bundle_version);
            let name = encode_segment(identity);
            let install_url = route_url(
                origin,
                "install",
                id.as_str(),
                version.as_str(),
                name.as_str(),
            );
            let mut markup = FALLBACK_PAGE_HEAD.to_owned();
            markup.append(install_url.as_str());
            markup.append(FALLBACK_PAGE_TAIL);
            Ok(InstallResponse::Page(markup))
        },
        InstallOutcome::NativeAlternateBrowser => {
            let id = encode_segment(bundle_id);
            let version = encode_segment(bundle_version);
            let name = encode_segment(identity);
            let install_url = route_url(
                origin,
                "install",
                id.as_str(),
                version.as_str(),
                name.as_str(),
            );
            let mut target = DEFAULT_BROWSER_PREFIX.to_owned();
            target.append(install_url.as_str());
            Ok(InstallResponse::Redirect(target))
        },
        InstallOutcome::NativeDefault => {
            let id = encode_segment(bundle_id);
            let version = encode_segment(bundle_version);
            let name = encode_segment(identity);
            let manifest_url = route_url(
                origin,
                "ota",
                id.as_str(),
                version.as_str(),
                name.as_str(),
            );
            let mut target = INSTALLER_PREFIX.to_owned();
            target.append(manifest_url.as_str());
            Ok(InstallResponse::Redirect(target))
        },
    }
}

} // verus!
