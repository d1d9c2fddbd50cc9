//! The identity of an artifact: the one name under which a signed archive
//! is stored and reached. It is made of the time of the upload, a random
//! token, the device identifier and the sanitized file name.

use vstd::prelude::*;
use vstd::string::*;
use chrono::Utc;
use uuid::Uuid;
use crate::text::{decimal, decimal_digits, decimal_string};

verus! {

/// The ending of the name of an archive.
pub const ARCHIVE_SUFFIX: &'static str = ".ipa";

/// A digit or a letter from `a` to `f`.
pub open spec fn is_lower_hex(c: char) -> bool {
    48 <= c as int <= 57 || 97 <= c as int <= 102
}

/// The shape of a random token: 36 characters, hyphens at the offsets 8,
/// 13, 18 and 23, lower-case hexadecimal digits elsewhere.
pub open spec fn is_token(token: Seq<char>) -> bool {
    &&& token.len() == 36
    &&& forall|i: int|
        0 <= i < 36 ==> if i == 8 || i == 13 || i == 18 || i == 23 {
            #[trigger] token[i] == '-'
        } else {
            is_lower_hex(#[trigger] token[i])
        }
}

/// The name of an artifact: the timestamp in decimal, the token, the
/// device identifier and the file name, joined by `_`, with `.ipa` behind.
pub open spec fn identity_text(
    timestamp: int,
    token: Seq<char>,
    udid: Seq<char>,
    safe_name: Seq<char>,
) -> Seq<char> {
    decimal(timestamp) + seq!['_'] + token + seq!['_'] + udid + seq!['_'] + safe_name
        + ARCHIVE_SUFFIX@
}

/// Draws a random version-4 UUID with `Uuid::new_v4` and writes it with its
/// `Display` impl. The value is random, so only its shape is stated: the
/// hyphenated lower-case form. The call aborts where the operating system
/// yields no random bytes.
#[verifier::external_body]
fn random_token() -> (token: String)
    ensures
        is_token(token@),
{
    Uuid::new_v4().to_string()
}

/// Reads the clock with `Utc::now` and gives the milliseconds since the
/// Unix epoch by `DateTime::timestamp_millis`. Nothing is claimed of the
/// value. The call aborts where the clock stands before the epoch.
#[verifier::external_body]
fn now_millis() -> i64 {
    Utc::now().timestamp_millis()
}

/// Puts the name of an artifact together from its four parts.
pub fn compose_identity(
    timestamp: i64,
    token: &str,
    udid: &str,
    safe_name: &str,
) -> (identity: String)
    ensures
        identity@ == identity_text(timestamp as int, token@, udid@, safe_name@),
{
    let mut identity = decimal_string(timestamp);
    identity.push('_');
    identity.append(token);
    identity.push('_');
    identity.append(udid);
    identity.push('_');
    identity.append(safe_name);
    identity.append(ARCHIVE_SUFFIX);
    assert(identity@ =~= identity_text(timestamp as int, token@, udid@, safe_name@));
    identity
}

/// Names a new artifact, with the current time and a fresh random token.
pub fn mint_identity(udid: &str, safe_name: &str) -> (identity: String)
    ensures
        exists|timestamp: i64, token: Seq<char>|
            is_token(token) && identity@ == #[trigger] identity_text(
                timestamp as int,
                token,
                udid@,
                safe_name@,
            ),
{
    let timestamp = now_millis();
    let token = random_token();
    compose_identity(timestamp, token.as_str(), udid, safe_name)
}

proof fn lemma_digits_have_no_underscore(n: nat)
    ensures
        decimal_digits(n).len() >= 1,
        forall|i: int| 0 <= i < decimal_digits(n).len() ==> decimal_digits(n)[i] != '_',
    decreases n,
{
    if n >= 10 {
        lemma_digits_have_no_underscore(n / 10);
    }
}

proof fn lemma_decimal_has_no_underscore(value: int)
    ensures
        forall|i: int| 0 <= i < decimal(value).len() ==> decimal(value)[i] != '_',
{
    if value < 0 {
        lemma_digits_have_no_underscore((-value) as nat);
    } else {
        lemma_digits_have_no_underscore(value as nat);
    }
}

/// Two artifacts whose tokens differ have different names, whatever their
/// timestamps, device identifiers and file names are.
pub proof fn lemma_distinct_tokens_distinct_identities(
    timestamp1: int,
    token1: Seq<char>,
    udid1: Seq<char>,
    safe_name1: Seq<char>,
    timestamp2: int,
    token2: Seq<char>,
    udid2: Seq<char>,
    safe_name2: Seq<char>,
)
    requires
        is_token(token1),
        is_token(token2),
        token1 != token2,
    ensures
        identity_text(timestamp1, token1, udid1, safe_name1) != identity_text(
            timestamp2,
            token2,
            udid2,
            safe_name2,
        ),
{
    let a = identity_text(timestamp1, token1, udid1, safe_name1);
    let b = identity_text(timestamp2, token2, udid2, safe_name2);
    let d1 = decimal(timestamp1);
    let d2 = decimal(timestamp2);
    lemma_decimal_has_no_underscore(timestamp1);
    lemma_decimal_has_no_underscore(timestamp2);
    if a == b {
        assert(a[d1.len() as int] == '_');
        assert(b[d2.len() as int] == '_');
        if d1.len() < d2.len() {
            assert(b[d1.len() as int] == d2[d1.len() as int]);
        } else if d2.len() < d1.len() {
            assert(a[d2.len() as int] == d1[d2.len() as int]);
        }
        assert(d1.len() == d2.len());
        let start: int = d1.len() as int + 1;
        assert(a.subrange(start, start + 36) =~= token1);
        assert(b.subrange(start, start + 36) =~= token2);
    }
}

} // verus!
