//! Bearer keys: how they are drawn, put together and hashed for storage.

use vstd::prelude::*;
use rand::Rng;
use sha2::{Digest, Sha256};
use crate::grant::{GrantBearer, GrantBearerView};

verus! {

/// The number of characters of a key identifier.
pub const GRANT_BEARER_ID_LENGTH: usize = 12;

/// The number of characters of the secret part of a key.
pub const GRANT_BEARER_KEY_LENGTH: usize = 24;

/// The number of characters in the pool.
pub const GRANT_BEARER_POOL_SIZE: usize = 62;

/// The number of digits at the start of the pool.
pub const GRANT_BEARER_POOL_DIGITS: usize = 10;

/// The characters that identifiers and secrets are drawn from: the digits,
/// then the lower-case and the upper-case letters.
pub open spec fn character_pool() -> Seq<char> {
    "0123456789abcdefghijklmnopqrstuvwxyzABCDEFGHIJKLMNOPQRSTUVWXYZ"@
}

/// A decimal digit.
pub open spec fn is_digit(c: char) -> bool {
    '0' <= c <= '9'
}

/// A letter of the basic Latin alphabet.
pub open spec fn is_letter(c: char) -> bool {
    'a' <= c <= 'z' || 'A' <= c <= 'Z'
}

/// A character of the pool.
pub open spec fn is_pool_char(c: char) -> bool {
    is_digit(c) || is_letter(c)
}

/// A key identifier: twelve characters of the pool, the first one a letter.
pub open spec fn is_key_id(id: Seq<char>) -> bool {
    &&& id.len() == GRANT_BEARER_ID_LENGTH
    &&& is_letter(id[0])
    &&& forall|i: int| 0 <= i < id.len() ==> is_pool_char(#[trigger] id[i])
}

/// The secret part of a key: twenty-four characters of the pool.
pub open spec fn is_secret(secret: Seq<char>) -> bool {
    &&& secret.len() == GRANT_BEARER_KEY_LENGTH
    &&& forall|i: int| 0 <= i < secret.len() ==> is_pool_char(#[trigger] secret[i])
}

/// The bearer key: prefix, key identifier and secret, joined by hyphens.
pub open spec fn bearer_key(prefix: Seq<char>, id: Seq<char>, secret: Seq<char>) -> Seq<char> {
    prefix + seq!['-'] + id + seq!['-'] + secret
}

/// The hexadecimal digit, in lower case, of a number below sixteen.
pub open spec fn hex_digit(n: int) -> char {
    if n < 10 {
        ('0' as int + n) as char
    } else {
        ('a' as int + n - 10) as char
    }
}

/// The bytes written out in lower-case hexadecimal, two digits each.
pub open spec fn hex_lower(bytes: Seq<u8>) -> Seq<char> {
    Seq::new(
        2 * bytes.len(),
        |i: int|
            hex_digit(
                if i % 2 == 0 {
                    bytes[i / 2] as int / 16
                } else {
                    bytes[i / 2] as int % 16
                },
            ),
    )
}

/// The SHA-256 digest of a text, taken over its UTF-8 bytes.
pub uninterp spec fn sha256_digest(text: Seq<char>) -> Seq<u8>;

/// What is stored in place of a bearer key: its digest in hexadecimal.
pub open spec fn key_digest(key: Seq<char>) -> Seq<char> {
    hex_lower(sha256_digest(key))
}

/// `Rng::gen_range` on the thread-local generator of `rand`, for the range
/// from zero up to `bound`: the number drawn lies in that range. Nothing is
/// said of which number it is. An empty range is left out, since the call
/// panics on it. The generator is seeded by the operating system when a
/// thread first uses it, and panics if the system has no randomness to
/// give.
#[verifier::external_body]
fn random_index(bound: usize) -> (i: usize)
    requires
        bound > 0,
    ensures
        i < bound,
{
    rand::thread_rng().gen_range(0..bound)
}

/// `Sha256::digest` of the crate `sha2` on the bytes of `text`: the result
/// is the SHA-256 digest, which depends on the text alone and has 32 bytes.
#[verifier::external_body]
fn sha256(text: &str) -> (digest: Vec<u8>)
    ensures
        digest@ == sha256_digest(text@),
        digest@.len() == 32,
{
    Sha256::digest(text.as_bytes()).to_vec()
}

/// The pool as text.
pub fn pool() -> (p: &'static str)
    ensures
        p@ == character_pool(),
        p@.len() == GRANT_BEARER_POOL_SIZE,
        forall|i: int| 0 <= i < p@.len() ==> is_pool_char(#[trigger] p@[i]),
        forall|i: int| GRANT_BEARER_POOL_DIGITS <= i < p@.len() ==> is_letter(#[trigger] p@[i]),
{
    proof {
        reveal_strlit("0123456789abcdefghijklmnopqrstuvwxyzABCDEFGHIJKLMNOPQRSTUVWXYZ");
    }
    "0123456789abcdefghijklmnopqrstuvwxyzABCDEFGHIJKLMNOPQRSTUVWXYZ"
}

/// Draws `length` characters from `pool`, each position on its own.
pub fn random_string(length: usize, pool: &str) -> (text: String)
    requires
        pool@.len() > 0,
    ensures
        text@.len() == length,
        forall|i: int| 0 <= i < text@.len() ==> pool@.contains(#[trigger] text@[i]),
{
    let size: usize = pool.unicode_len();
    let mut text = String::new();
    let mut drawn: usize = 0;
    while drawn < length
        invariant
            size == pool@.len(),
            size > 0,
            drawn <= length,
            text@.len() == drawn,
            forall|i: int| 0 <= i < text@.len() ==> pool@.contains(#[trigger] text@[i]),
        decreases length - drawn,
    {
        let at: usize = random_index(size);
        let ch: char = pool.get_char(at);
        text.push(ch);
        drawn = drawn + 1;
    }
    text
}

fn hex_char(n: u8) -> (c: char)
    requires
        n < 16,
    ensures
        c == hex_digit(n as int),
{
    // 48 is the code of the digit zero, 97 that of the letter a.
    if n < 10 {
        (48u8 + n) as char
    } else {
        (97u8 + (n - 10)) as char
    }
}

/// Writes the bytes out in lower-case hexadecimal, two digits each.
pub fn to_hex(bytes: &Vec<u8>) -> (text: String)
    ensures
        text@ == hex_lower(bytes@),
{
    let mut text = String::new();
    let mut at: usize = 0;
    while at < bytes.len()
        invariant
            at <= bytes.len(),
            text@.len() == 2 * at,
            forall|i: int| 0 <= i < text@.len() ==> text@[i] == hex_lower(bytes@)[i],
        decreases bytes.len() - at,
    {
        let byte: u8 = bytes[at];
        text.push(hex_char(byte / 16));
        text.push(hex_char(byte % 16));
        at = at + 1;
    }
    assert(text@ =~= hex_lower(bytes@));
    text
}

impl GrantBearerView {
    /// The grant as it is stored: the key gives way to its digest.
    pub open spec fn hashed(self) -> GrantBearerView {
        GrantBearerView { id: self.id, key: key_digest(self.key) }
    }

    /// The grant as it comes out of key generation under `prefix`: a key
    /// identifier, and as key the bearer key made of the prefix, that
    /// identifier and some secret.
    pub open spec fn is_fresh(self, prefix: Seq<char>) -> bool {
        &&& is_key_id(self.id)
        &&& exists|secret: Seq<char>|
            is_secret(secret) && self.key == #[trigger] bearer_key(prefix, self.id, secret)
    }
}

impl GrantBearer {
    /// The bearer grant with the given key identifier, and the key made of
    /// the prefix, the identifier and the secret.
    pub fn from_parts(prefix: &str, id: &str, secret: &str) -> (grant: GrantBearer)
        ensures
            grant@.id == id@,
            grant@.key == bearer_key(prefix@, id@, secret@),
    {
        proof {
            reveal_strlit("-");
        }
        let mut key = String::from_str(prefix);
        key.append("-");
        key.append(id);
        key.append("-");
        key.append(secret);
        assert(key@ =~= bearer_key(prefix@, id@, secret@));
        GrantBearer { id: String::from_str(id), key }
    }

    /// A new bearer grant under `prefix`, its key identifier and secret
    /// drawn at random. The key is in plaintext.
    pub fn new(prefix: &str) -> (grant: GrantBearer)
        ensures
            grant@.is_fresh(prefix@),
    {
        let all = pool();
        let letters = all.substring_char(GRANT_BEARER_POOL_DIGITS, GRANT_BEARER_POOL_SIZE);
        let mut id = random_string(1, letters);
        let rest = random_string(GRANT_BEARER_ID_LENGTH - 1, all);
        let ghost head = id@;
        id.append(rest.as_str());
        let secret = random_string(GRANT_BEARER_KEY_LENGTH, all);
        proof {
            assert(letters@.contains(head[0]));
            assert forall|i: int| 0 <= i < id@.len() implies is_pool_char(#[trigger] id@[i]) by {
                if i == 0 {
                    assert(id@[0] == head[0]);
                } else {
                    assert(id@[i] == rest@[i - 1]);
                    assert(all@.contains(rest@[i - 1]));
                }
            }
            assert forall|i: int| 0 <= i < secret@.len() implies is_pool_char(
                #[trigger] secret@[i],
            ) by {
                assert(all@.contains(secret@[i]));
            }
        }
        let grant = GrantBearer::from_parts(prefix, id.as_str(), secret.as_str());
        assert(is_secret(secret@));
        grant
    }

    /// The grant as it is stored: the key is replaced by the SHA-256
    /// digest of the whole key, prefix and identifier included, written in
    /// lower-case hexadecimal. The plaintext is gone from the result.
    pub fn hashed(self) -> (stored: GrantBearer)
        ensures
            stored@ == self@.hashed(),
            stored@.key.len() == 64,
    {
        let digest = sha256(self.key.as_str());
        let key = to_hex(&digest);
        GrantBearer { id: self.id, key }
    }
}

/// Every character of a text in hexadecimal is a digit or one of the
/// letters `a` to `f`.
pub proof fn lemma_hex_alphabet(bytes: Seq<u8>, i: int)
    requires
        0 <= i < 2 * bytes.len(),
    ensures
        is_digit(hex_lower(bytes)[i]) || 'a' <= hex_lower(bytes)[i] <= 'f',
{
}

/// Hashing depends on the key alone: equal keys have equal digests, at
/// every call.
pub proof fn lemma_hash_deterministic(a: GrantBearerView, b: GrantBearerView)
    requires
        a.key == b.key,
    ensures
        a.hashed().key == b.hashed().key,
{
}

/// The digest of a bearer key is never that key: what is stored of a
/// generated key is not its plaintext.
pub proof fn lemma_hash_hides_key(prefix: Seq<char>, id: Seq<char>, secret: Seq<char>)
    ensures
        key_digest(bearer_key(prefix, id, secret)) != bearer_key(prefix, id, secret),
{
    let key = bearer_key(prefix, id, secret);
    let digest = key_digest(key);
    let at = prefix.len() as int;
    assert(key[at] == '-');
    if digest.len() == key.len() {
        lemma_hex_alphabet(sha256_digest(key), at);
        assert(digest[at] != '-');
    }
}

} // verus!
