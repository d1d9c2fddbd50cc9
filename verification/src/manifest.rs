//! The manifest that tells a device where to download an application and
//! how to identify it: a property list with one item, which holds one asset
//! of kind `software-package` and the metadata of the bundle.

use vstd::prelude::*;
use vstd::string::*;
use crate::publish::{download_url, download_url_text};
use crate::text::{chars_of, occurs_at};

verus! {

/// The media type of the manifest.
pub const MANIFEST_CONTENT_TYPE: &'static str = "application/xml";

/// The manifest up to the address of the archive.
pub const MANIFEST_HEAD: &'static str = "<?xml version=\"1.0\" encoding=\"UTF-8\"?>\n    \
    <!DOCTYPE plist PUBLIC \"-//Apple//DTD PLIST 1.0//EN\"\n    \
    \"http://www.apple.com/DTDs/PropertyList-1.0.dtd\">\n    \
    <plist version=\"1.0\">\n    \
    <dict>\n    \
    <key>items</key>\n    \
    <array>\n    \
    <dict>\n    \
    <key>assets</key>\n    \
    <array>\n    \
    <dict>\n    \
    <key>kind</key>\n    \
    <string>software-package</string>\n    \
    <key>url</key>\n    \
    <string>";

/// From the address of the archive to the bundle identifier.
pub const MANIFEST_BEFORE_IDENTIFIER: &'static str = "</string>\n    \
    </dict>\n    \
    </array>\n    \
    <key>metadata</key>\n    \
    <dict>\n    \
    <key>bundle-identifier</key>\n    \
    <string>";

/// From the bundle identifier to the bundle version.
pub const MANIFEST_BEFORE_VERSION: &'static str = "</string>\n    \
    <key>bundle-version</key>\n    \
    <string>";

/// From the bundle version to the title.
pub const MANIFEST_BEFORE_TITLE: &'static str = "</string>\n    \
    <key>kind</key>\n    \
    <string>software</string>\n    \
    <key>title</key>\n    \
    <string>";

/// The manifest behind the title.
pub const MANIFEST_TAIL: &'static str = "</string>\n    \
    </dict>\n    \
    </dict>\n    \
    </array>\n    \
    </dict>\n    \
    </plist>";

/// The five characters that markup reserves.
pub open spec fn is_reserved(c: char) -> bool {
    c == '<' || c == '>' || c == '&' || c == '\'' || c == '"'
}

/// What stands for a character in the manifest: its named entity for a
/// reserved character, the character itself for any other.
pub open spec fn entity(c: char) -> Seq<char> {
    if c == '<' {
        seq!['&', 'l', 't', ';']
    } else if c == '>' {
        seq!['&', 'g', 't', ';']
    } else if c == '&' {
        seq!['&', 'a', 'm', 'p', ';']
    } else if c == '\'' {
        seq!['&', 'a', 'p', 'o', 's', ';']
    } else if c == '"' {
        seq!['&', 'q', 'u', 'o', 't', ';']
    } else {
        seq![c]
    }
}

/// The text with each character replaced by what stands for it.
pub open spec fn escaped(text: Seq<char>) -> Seq<char>
    decreases text.len(),
{
    if text.len() == 0 {
        Seq::<char>::empty()
    } else {
        escaped(text.drop_last()) + entity(text.last())
    }
}

/// Escapes the reserved characters of `text`, character by character.
pub fn escape_xml(text: &str) -> (safe: String)
    ensures
        safe@ == escaped(text@),
{
    let chars = chars_of(text);
    let mut safe = String::new();
    let mut i: usize = 0;
    assert(chars@.take(0) =~= Seq::<char>::empty());
    while i < chars.len()
        invariant
            i <= chars.len(),
            chars@ == text@,
            safe@ == escaped(chars@.take(i as int)),
        decreases chars.len() - i,
    {
        let c = chars[i];
        assert(chars@.take(i + 1).drop_last() =~= chars@.take(i as int));
        if c == '<' {
            safe.push('&');
            safe.push('l');
            safe.push('t');
            safe.push(';');
        } else if c == '>' {
            safe.push('&');
            safe.push('g');
            safe.push('t');
            safe.push(';');
        } else if c == '&' {
            safe.push('&');
            safe.push('a');
            safe.push('m');
            safe.push('p');
            safe.push(';');
        } else if c == '\'' {
            safe.push('&');
            safe.push('a');
            safe.push('p');
            safe.push('o');
            safe.push('s');
            safe.push(';');
        } else if c == '"' {
            safe.push('&');
            safe.push('q');
            safe.push('u');
            safe.push('o');
            safe.push('t');
            safe.push(';');
        } else {
            safe.push(c);
        }
        assert(safe@ =~= escaped(chars@.take(i as int)) + entity(c));
        i = i + 1;
    }
    assert(chars@.take(chars.len() as int) =~= chars@);
    safe
}

/// Escaping a text in two parts is escaping each part.
pub proof fn lemma_escaped_concat(a: Seq<char>, b: Seq<char>)
    ensures
        escaped(a + b) == escaped(a) + escaped(b),
    decreases b.len(),
{
    if b.len() == 0 {
        assert(a + b =~= a);
        assert(escaped(a) + escaped(b) =~= escaped(a));
    } else {
        assert((a + b).drop_last() =~= a + b.drop_last());
        assert((a + b).last() == b.last());
        lemma_escaped_concat(a, b.drop_last());
        assert(escaped(a + b) =~= escaped(a) + escaped(b));
    }
}

proof fn lemma_escaped_front(text: Seq<char>)
    requires
        text.len() > 0,
    ensures
        escaped(text) == entity(text[0]) + escaped(text.drop_first()),
{
    let head = seq![text[0]];
    assert(head.drop_last().len() == 0);
    assert(escaped(head.drop_last()) =~= Seq::<char>::empty());
    assert(escaped(head) =~= entity(text[0]));
    assert(text =~= head + text.drop_first());
    lemma_escaped_concat(head, text.drop_first());
}

/// A named entity for a reserved character begins at offset `at`.
pub open spec fn entity_starts_at(text: Seq<char>, at: int) -> bool {
    exists|c: char| is_reserved(c) && #[trigger] occurs_at(text, entity(c), at)
}

/// In an escaped text no reserved character stands for itself: `<`, `>`,
/// `'` and `"` do not occur, and every `&` begins a named entity.
pub proof fn lemma_escaped_has_entities_only(text: Seq<char>)
    ensures
        forall|i: int|
            0 <= i < escaped(text).len() ==> {
                let c = #[trigger] escaped(text)[i];
                &&& c != '<'
                &&& c != '>'
                &&& c != '\''
                &&& c != '"'
                &&& c == '&' ==> entity_starts_at(escaped(text), i)
            },
    decreases text.len(),
{
    if text.len() > 0 {
        let front = escaped(text.drop_last());
        let last = entity(text.last());
        let whole = escaped(text);
        lemma_escaped_has_entities_only(text.drop_last());
        assert forall|i: int| 0 <= i < whole.len() implies {
            let c = #[trigger] whole[i];
            &&& c != '<'
            &&& c != '>'
            &&& c != '\''
            &&& c != '"'
            &&& c == '&' ==> entity_starts_at(whole, i)
        } by {
            if i < front.len() {
                assert(whole[i] == front[i]);
                if front[i] == '&' {
                    let c = choose|c: char| is_reserved(c) && occurs_at(front, entity(c), i);
                    assert(whole.subrange(i, i + entity(c).len()) =~= front.subrange(
                        i,
                        i + entity(c).len(),
                    ));
                    assert(occurs_at(whole, entity(c), i));
                }
            } else {
                assert(whole[i] == last[i - front.len()]);
                if whole[i] == '&' {
                    assert(is_reserved(text.last()));
                    assert(i == front.len());
                    assert(whole.subrange(i, i + last.len()) =~= last);
                    assert(occurs_at(whole, entity(text.last()), i));
                }
            }
        }
    }
}

/// A text without reserved characters is its own escaped form: nothing is
/// escaped twice, and nothing that needs no escaping is touched.
pub proof fn lemma_plain_text_unchanged(text: Seq<char>)
    requires
        forall|i: int| 0 <= i < text.len() ==> !is_reserved(#[trigger] text[i]),
    ensures
        escaped(text) == text,
    decreases text.len(),
{
    if text.len() > 0 {
        assert(!is_reserved(text[text.len() - 1]));
        lemma_plain_text_unchanged(text.drop_last());
        assert(escaped(text) =~= text);
    }
}

/// Escaping loses nothing: two texts with the same escaped form are the
/// same text.
pub proof fn lemma_escape_injective(a: Seq<char>, b: Seq<char>)
    requires
        escaped(a) == escaped(b),
    ensures
        a == b,
    decreases a.len(),
{
    if a.len() == 0 {
        if b.len() > 0 {
            lemma_escaped_front(b);
            assert(entity(b[0]).len() > 0);
        }
        assert(a =~= b);
    } else {
        lemma_escaped_front(a);
        let whole = escaped(a);
        let first_a = entity(a[0]);
        let rest_a = escaped(a.drop_first());
        assert(first_a.len() >= 1);
        assert(whole.len() > 0);
        lemma_escaped_front(b);
        let first_b = entity(b[0]);
        let rest_b = escaped(b.drop_first());
        assert(whole[0] == first_a[0]);
        assert(whole[0] == first_b[0]);
        if is_reserved(a[0]) {
            assert(is_reserved(b[0]));
            assert(whole[1] == first_a[1] && whole[1] == first_b[1]);
            assert(whole[2] == first_a[2] && whole[2] == first_b[2]);
        }
        assert(a[0] == b[0]);
        assert(rest_a =~= whole.skip(first_a.len() as int));
        assert(rest_b =~= whole.skip(first_b.len() as int));
        lemma_escape_injective(a.drop_first(), b.drop_first());
        assert(a =~= seq![a[0]] + a.drop_first());
        assert(b =~= seq![b[0]] + b.drop_first());
    }
}

/// The manifest of an application: the fixed text, with the address of the
/// archive, the bundle identifier, the bundle version and, as the title,
/// the bundle identifier once more, each escaped.
pub open spec fn manifest_text(
    download_url: Seq<char>,
    bundle_id: Seq<char>,
    bundle_version: Seq<char>,
) -> Seq<char> {
    MANIFEST_HEAD@ + escaped(download_url) + MANIFEST_BEFORE_IDENTIFIER@ + escaped(bundle_id)
        + MANIFEST_BEFORE_VERSION@ + escaped(bundle_version) + MANIFEST_BEFORE_TITLE@ + escaped(
        bundle_id,
    ) + MANIFEST_TAIL@
}

/// Renders the manifest.
pub fn render_manifest(
    download_url: &str,
    bundle_id: &str,
    bundle_version: &str,
) -> (manifest: String)
    ensures
        manifest@ == manifest_text(download_url@, bundle_id@, bundle_version@),
{
    let url = escape_xml(download_url);
    let id = escape_xml(bundle_id);
    let version = escape_xml(bundle_version);
    let mut manifest = MANIFEST_HEAD.to_owned();
    manifest.append(url.as_str());
    manifest.append(MANIFEST_BEFORE_IDENTIFIER);
    manifest.append(id.as_str());
    manifest.append(MANIFEST_BEFORE_VERSION);
    manifest.append(version.as_str());
    manifest.append(MANIFEST_BEFORE_TITLE);
    manifest.append(id.as_str());
    manifest.append(MANIFEST_TAIL);
    manifest
}

/// The manifest of the artifact `identity` under `origin`: the archive is
/// downloaded from its public address.
pub fn artifact_manifest(
    origin: &str,
    bundle_id: &str,
    bundle_version: &str,
    identity: &str,
) -> (manifest: String)
    ensures
        manifest@ == manifest_text(
            download_url_text(origin@, identity@),
            bundle_id@,
            bundle_version@,
        ),
{
    let url = download_url(origin, identity);
    render_manifest(url.as_str(), bundle_id, bundle_version)
}

} // verus!
