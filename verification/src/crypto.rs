//! Hashing and random material: SHA-256 digests of tokens, Argon2 password
//! hashes and random alphanumeric tokens.
//!
//! The outside crates are reached only through the private wrappers of this
//! module; the verified functions here and in `accounts` build on them.
use argon2::password_hash::{PasswordHash, PasswordHasher, PasswordVerifier, SaltString};
use argon2::Argon2;
use rand::distributions::{Alphanumeric, DistString};
use rand::rngs::OsRng;
use sha2::Digest;
use vstd::prelude::*;
use vstd::utf8::encode_utf8;
use crate::text::starts_with;

verus! {

broadcast use vstd::string::group_string_axioms;

// ---------------------------------------------------------------------------
// Token digests
// ---------------------------------------------------------------------------

/// SHA-256 digest of a byte string.
pub uninterp spec fn sha256_digest(data: Seq<u8>) -> Seq<u8>;

/// Lower-case hexadecimal digit for a value below 16.
pub open spec fn hex_digit(n: u8) -> char {
    if n < 10 {
        ((n + 48) as u8) as char
    } else {
        ((n + 87) as u8) as char
    }
}

/// Lower-case hexadecimal spelling of a byte string, two digits per byte,
/// high nibble first.
pub open spec fn hex_lower(data: Seq<u8>) -> Seq<char>
    decreases data.len(),
{
    if data.len() == 0 {
        Seq::empty()
    } else {
        seq![hex_digit(data[0] / 16), hex_digit(data[0] % 16)] + hex_lower(data.drop_first())
    }
}

/// A lower-case hexadecimal digit.
pub open spec fn is_hex_digit(c: char) -> bool {
    let n = c as u32;
    (48 <= n && n <= 57) || (97 <= n && n <= 102)
}

/// A hex spelling has two digits per byte, all lower-case hex digits.
pub proof fn lemma_hex_lower(data: Seq<u8>)
    ensures
        hex_lower(data).len() == 2 * data.len(),
        forall|i: int| 0 <= i < hex_lower(data).len() ==> is_hex_digit(#[trigger] hex_lower(data)[i]),
    decreases data.len(),
{
    if data.len() > 0 {
        lemma_hex_lower(data.drop_first());
        let hi = data[0] / 16;
        let lo = data[0] % 16;
        assert(is_hex_digit(hex_digit(hi)));
        assert(is_hex_digit(hex_digit(lo)));
        let rest = hex_lower(data.drop_first());
        assert forall|i: int| 0 <= i < hex_lower(data).len() implies is_hex_digit(
            #[trigger] hex_lower(data)[i],
        ) by {
            if i >= 2 {
                assert(hex_lower(data)[i] == rest[i - 2]);
            }
        }
    }
}

/// The stored form of a secret token: the hex SHA-256 of its UTF-8 bytes.
pub open spec fn token_digest(token: Seq<char>) -> Seq<char> {
    hex_lower(sha256_digest(encode_utf8(token)))
}

/// `sha2::Sha256::digest`: the 32-byte SHA-256 digest of `data`. The contract
/// names the digest and states its length; it says nothing of its bits.
#[verifier::external_body]
fn sha256(data: &[u8]) -> (r: Vec<u8>)
    ensures
        r@ == sha256_digest(data@),
        r@.len() == 32,
{
    sha2::Sha256::digest(data).to_vec()
}

/// Spelling two byte strings one after the other spells their
/// concatenation.
pub proof fn lemma_hex_lower_append(a: Seq<u8>, b: Seq<u8>)
    ensures
        hex_lower(a + b) == hex_lower(a) + hex_lower(b),
    decreases a.len(),
{
    if a.len() == 0 {
        assert(a + b =~= b);
        assert(hex_lower(a) + hex_lower(b) =~= hex_lower(b));
    } else {
        lemma_hex_lower_append(a.drop_first(), b);
        assert((a + b).drop_first() =~= a.drop_first() + b);
        assert((a + b)[0] == a[0]);
        assert(hex_lower(a + b) =~= hex_lower(a) + hex_lower(b));
    }
}

/// The hex digit of a value below 16.
fn hex_digit_char(n: u8) -> (c: char)
    requires
        n < 16,
    ensures
        c == hex_digit(n),
{
    if n < 10 {
        (n + 48) as char
    } else {
        (n + 87) as char
    }
}

/// Writes each byte as two lower-case hex digits, high nibble first (what
/// `hex::encode` produces).
fn hex_encode(data: &[u8]) -> (r: String)
    ensures
        r@ == hex_lower(data@),
{
    let mut r = String::new();
    let mut i: usize = 0;
    while i < data.len()
        invariant
            i <= data.len(),
            r@ == hex_lower(data@.take(i as int)),
        decreases data.len() - i,
    {
        let b = data[i];
        r.push(hex_digit_char(b / 16));
        r.push(hex_digit_char(b % 16));
        proof {
            let one = seq![b];
            lemma_hex_lower_append(data@.take(i as int), one);
            assert(data@.take(i as int) + one =~= data@.take(i + 1));
            assert(one.drop_first() =~= Seq::<u8>::empty());
            assert(hex_lower(one.drop_first()) =~= Seq::<char>::empty());
            assert(one[0] == b);
            assert(hex_lower(one) =~= seq![hex_digit(b / 16), hex_digit(b % 16)]);
        }
        i = i + 1;
    }
    assert(data@.take(data@.len() as int) =~= data@);
    r
}

/// Hex SHA-256 of a token's UTF-8 bytes: the form in which session tokens,
/// invite codes and reset codes are stored.
pub fn hash_token(token: &str) -> (r: String)
    ensures
        r@ == token_digest(token@),
        r@.len() == 64,
{
    let digest = sha256(token.as_bytes());
    proof {
        lemma_hex_lower(digest@);
    }
    hex_encode(digest.as_slice())
}

// ---------------------------------------------------------------------------
// Random tokens
// ---------------------------------------------------------------------------

/// ASCII letter or digit.
pub open spec fn is_ascii_alphanumeric(c: char) -> bool {
    let n = c as u32;
    (48 <= n && n <= 57) || (65 <= n && n <= 90) || (97 <= n && n <= 122)
}

/// A token of `len` ASCII letters and digits.
pub open spec fn is_token_of_len(t: Seq<char>, len: nat) -> bool {
    t.len() == len && forall|i: int| 0 <= i < t.len() ==> is_ascii_alphanumeric(#[trigger] t[i])
}

/// `len` characters drawn with `rand`'s `Alphanumeric` distribution from the
/// operating system's generator. The contract states the length and the
/// alphabet (`a-z`, `A-Z`, `0-9`); which characters come out is left open.
#[verifier::external_body]
pub(crate) fn random_token(len: usize) -> (r: String)
    ensures
        is_token_of_len(r@, len as nat),
{
    Alphanumeric.sample_string(&mut OsRng, len)
}

// ---------------------------------------------------------------------------
// Passwords
// ---------------------------------------------------------------------------

/// What checking `password` against the stored PHC string `stored_hash`
/// yields: whether it matches, or the message of a stored hash that does not
/// parse.
pub uninterp spec fn argon2_check(password: Seq<char>, stored_hash: Seq<char>) -> Result<
    bool,
    Seq<char>,
>;

/// Argon2 (default parameters) hash of a password with a fresh salt from the
/// operating system's generator, as a PHC string. The salt is random, so the
/// hash itself is left open. The contract states what the crate's source
/// shows: the PHC string returned verifies the password it was made from
/// (verification re-hashes with the salt and parameters the string records);
/// hashing fails only for a password longer than `MAX_PWD_LEN` (0xFFFF_FFFF
/// bytes), which a password of at most 0x3FFF_FFFF characters (four UTF-8
/// bytes each at most) never is; an error carries the prefix added here.
#[verifier::external_body]
pub(crate) fn hash_password(password: &str) -> (r: Result<String, String>)
    ensures
        match r {
            Ok(h) => argon2_check(password@, h@) == Ok::<bool, Seq<char>>(true),
            Err(e) => password@.len() > 0x3FFF_FFFF && starts_with(e@, "Password hash failed: "@),
        },
{
    let salt = SaltString::generate(&mut OsRng);
    Argon2::default().hash_password(password.as_bytes(), &salt).map(|h| h.to_string()).map_err(
        |e| format!("Password hash failed: {e}"),
    )
}

/// `PasswordHash::new` on the stored hash, then `Argon2::verify_password`:
/// `Ok(true)` when the password matches, `Ok(false)` when verification fails,
/// and `Err` with the parse error's message when the stored string is not a
/// PHC hash. The contract names this outcome as `argon2_check`.
#[verifier::external_body]
pub(crate) fn verify_password(password: &str, stored_hash: &str) -> (r: Result<bool, String>)
    ensures
        match r {
            Ok(b) => argon2_check(password@, stored_hash@) == Ok::<bool, Seq<char>>(b),
            Err(e) => argon2_check(password@, stored_hash@) == Err::<bool, Seq<char>>(e@),
        },
{
    let parsed = PasswordHash::new(stored_hash).map_err(
        |e| format!("Invalid stored password hash: {e}"),
    )?;
    Ok(Argon2::default().verify_password(password.as_bytes(), &parsed).is_ok())
}

} // verus!
