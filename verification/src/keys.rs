//! Personal access tokens: naming, expiry, the shown hint and the stored hash.
use crate::text::{chars_of, string_from_chars, trim, trim_chars};
use crate::tier::{pro_or_above, Tier};
use sha2::{Digest, Sha256};
use vstd::prelude::*;

verus! {

broadcast use vstd::string::group_string_axioms;

/// A request for a new token.
#[derive(Debug, Clone)]
pub struct CreateApiKeyRequest {
    pub name: String,
    pub expires_in_days: Option<i64>,
}

/// A new token, shown once.
#[derive(Debug, Clone)]
pub struct CreateApiKeyResponse {
    pub id: String,
    pub name: String,
    pub hint: String,
    pub raw_token: String,
    pub created_at: i64,
    pub expires_at: Option<i64>,
}

/// Why a token is refused before it is made.
#[derive(Debug, Clone, Copy, PartialEq, Eq, Structural)]
pub enum KeyRefusal {
    /// 400 "API Key name cannot be empty"
    EmptyName,
    /// 403: the plan has no API keys.
    PlanWithoutKeys,
}

impl KeyRefusal {
    /// The message of the refusal.
    pub fn message(&self) -> (r: &'static str)
        ensures
            r@ == match *self {
                KeyRefusal::EmptyName => "API Key name cannot be empty"@,
                KeyRefusal::PlanWithoutKeys => "API keys are not available on your current plan. Upgrade to Pro or higher to use API keys."@,
            },
    {
        match self {
            KeyRefusal::EmptyName => "API Key name cannot be empty",
            KeyRefusal::PlanWithoutKeys => "API keys are not available on your current plan. Upgrade to Pro or higher to use API keys.",
        }
    }
}

/// Checks a token request: a non-blank name, then a plan with API keys (an
/// unknown tier counts as Free).
pub fn check_key_request(name: &str, tier: Option<Tier>) -> (r: Option<KeyRefusal>)
    ensures
        r == if trim(name@).len() == 0 {
            Some(KeyRefusal::EmptyName)
        } else if !(tier matches Some(t) && pro_or_above(t)) {
            Some(KeyRefusal::PlanWithoutKeys)
        } else {
            None
        },
{
    let c = chars_of(name);
    if trim_chars(c.as_slice()).len() == 0 {
        return Some(KeyRefusal::EmptyName);
    }
    let allowed = match tier {
        Some(t) => t.limits().allow_api_keys,
        None => false,
    };
    if !allowed {
        return Some(KeyRefusal::PlanWithoutKeys);
    }
    None
}

/// When a token made at `now` expires: `days` days later, or never.
pub fn key_expiry(now: i64, expires_in_days: Option<i64>) -> (r: Option<i64>)
    requires
        expires_in_days matches Some(d) ==> i64::MIN <= d * 86400 <= i64::MAX && i64::MIN <= now
            + d * 86400 <= i64::MAX,
    ensures
        match expires_in_days {
            Some(d) => r == Some((now + d * 86400) as i64),
            None => r is None,
        },
{
    match expires_in_days {
        Some(days) => Some(now + days * 86400),
        None => None,
    }
}

/// The token shown once to the user: `ro_pat_` and the random part.
pub fn raw_token(random: &str) -> (r: String)
    ensures
        r@ == "ro_pat_"@ + random@,
{
    let mut s = "ro_pat_".to_string();
    s.append(random);
    s
}

/// The hint stored and listed in place of a token: `ro_pat_...` and the
/// token's last four characters.
pub open spec fn key_hint_of(token: Seq<char>) -> Seq<char> {
    "ro_pat_..."@ + token.subrange(token.len() - 4, token.len() as int)
}

/// The hint of a token. Tokens are ASCII, so the last four characters are the
/// last four bytes (a shorter token, or one ending in a multi-byte character,
/// could not be cut there).
pub fn key_hint(token: &str) -> (r: String)
    requires
        token@.len() >= 4,
        forall|i: int| 0 <= i < token@.len() ==> (token@[i] as u32) < 128,
    ensures
        r@ == key_hint_of(token@),
{
    let c = chars_of(token);
    let mut tail: Vec<char> = Vec::new();
    let mut i = c.len() - 4;
    while i < c.len()
        invariant
            c@ == token@,
            c@.len() >= 4,
            c@.len() - 4 <= i <= c@.len(),
            tail@ == c@.subrange(c@.len() - 4, i as int),
        decreases c.len() - i,
    {
        tail.push(c[i]);
        assert(tail@ =~= c@.subrange(c@.len() - 4, i + 1));
        i = i + 1;
    }
    let mut s = "ro_pat_...".to_string();
    s.append(string_from_chars(tail.as_slice()).as_str());
    s
}

/// The lowercase hexadecimal digit of `d < 16`.
pub open spec fn hex_char(d: int) -> char {
    if d < 10 {
        (48 + d) as char
    } else {
        (87 + d) as char
    }
}

/// Lowercase hexadecimal, two digits per byte, high nibble first.
pub open spec fn hex_lower(b: Seq<u8>) -> Seq<char>
    decreases b.len(),
{
    if b.len() == 0 {
        Seq::empty()
    } else {
        hex_lower(b.drop_last()) + seq![hex_char(b.last() as int / 16), hex_char(b.last() as int % 16)]
    }
}

/// `hex::encode`: its source maps each byte to two characters of the table
/// `0123456789abcdef`, high nibble first, in order.
#[verifier::external_body]
fn hex_encode(bytes: &[u8]) -> (r: String)
    ensures
        r@ == hex_lower(bytes@),
{
    hex::encode(bytes)
}

/// The SHA-256 digest of `b` as `sha2` computes it.
pub uninterp spec fn sha256_digest(b: Seq<u8>) -> Seq<u8>;

/// `sha2::Sha256::digest`, as a byte vector. The digest is named, not
/// described; it is 32 bytes long.
#[verifier::external_body]
fn sha256(bytes: &[u8]) -> (r: Vec<u8>)
    ensures
        r@ == sha256_digest(bytes@),
        r@.len() == 32,
{
    Sha256::digest(bytes).to_vec()
}

/// What is stored for a token: the lowercase hex of the SHA-256 of its bytes.
pub open spec fn key_hash_of(token: Seq<char>) -> Seq<char> {
    hex_lower(sha256_digest(vstd::utf8::encode_utf8(token)))
}

/// The stored hash of a token.
pub fn key_hash(token: &str) -> (r: String)
    ensures
        r@ == key_hash_of(token@),
        r@.len() == 64,
{
    let digest = sha256(token.as_bytes());
    proof {
        lemma_hex_len(digest@);
    }
    hex_encode(digest.as_slice())
}

/// Hex doubles the length.
pub proof fn lemma_hex_len(b: Seq<u8>)
    ensures
        hex_lower(b).len() == 2 * b.len(),
    decreases b.len(),
{
    if b.len() > 0 {
        lemma_hex_len(b.drop_last());
    }
}

/// The answer to revoking a key, given how many of the caller's active keys
/// with that id the revocation changed: 204 when it revoked one, else 404
/// "Key not found or not owned by user" (another user's key, an unknown id,
/// or a key already revoked).
pub fn revoke_reply(rows_changed: u64) -> (r: (u16, Option<&'static str>))
    ensures
        rows_changed > 0 ==> r.0 == 204 && r.1 is None,
        rows_changed == 0 ==> r.0 == 404 && (r.1 matches Some(m) && m@
            == "Key not found or not owned by user"@),
{
    proof {
        reveal_strlit("Key not found or not owned by user");
    }
    if rows_changed > 0 {
        (204, None)
    } else {
        (404, Some("Key not found or not owned by user"))
    }
}

} // verus!
