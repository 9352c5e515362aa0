//! Secrets and signed tokens: Argon2 password hashes in the PHC string
//! format, HS256 JSON web tokens over string claims, and the random words
//! and salts that device keys are made of. The cryptography is the outside
//! crates'; this module names what they compute and states the facts the
//! rest of the library relies on.
use argon2::password_hash::{PasswordHash, PasswordHasher, PasswordVerifier};
use argon2::Argon2;
use hmac::{Hmac, Mac};
use jwt::{SignWithKey, VerifyWithKey};
use rand::distributions::{Alphanumeric, DistString};
use sha2::Sha256;
use std::collections::BTreeMap;
use vstd::prelude::*;

verus! {

/// Claims of a token as name/value pairs.
pub type ClaimSeq = Seq<(Seq<char>, Seq<char>)>;

/// The claims of a token as a map: a later pair overrides an earlier pair
/// with the same name (what collecting the pairs into a map gives).
pub open spec fn claims_map(claims: Seq<(Seq<char>, Seq<char>)>) -> Map<Seq<char>, Seq<char>>
    decreases claims.len(),
{
    if claims.len() == 0 {
        Map::empty()
    } else {
        claims_map(claims.drop_last()).insert(claims.last().0, claims.last().1)
    }
}

/// A name for the PHC string that Argon2 (default parameters) computes for
/// a password and a salt; `None` where the salt is refused.
pub uninterp spec fn argon2_phc(password: Seq<char>, salt: Seq<char>) -> Option<Seq<char>>;

/// A name for what checking a password against a stored PHC string gives:
/// `None` where the stored text is not a PHC string, else whether the
/// password matches.
pub uninterp spec fn argon2_matches(password: Seq<char>, phc: Seq<char>) -> Option<bool>;

/// A name for the HS256 token that signing the claims with the secret gives.
pub uninterp spec fn hs256_token(secret: Seq<char>, claims: Seq<(Seq<char>, Seq<char>)>) -> Option<Seq<char>>;

/// A name for the claims that a token carries when its HS256 signature
/// checks out with the secret (`None` otherwise).
pub uninterp spec fn hs256_claims(secret: Seq<char>, token: Seq<char>) -> Option<Seq<(Seq<char>, Seq<char>)>>;

/// A name for the text that a byte string decodes to as UTF-8.
pub uninterp spec fn utf8_text(bytes: Seq<u8>) -> Option<Seq<char>>;

/// A name for the lowercase form of a text.
pub uninterp spec fn lowercase(text: Seq<char>) -> Seq<char>;


/// A name for whether a text is an e-mail address by the HTML5 rules that
/// validator checks.
pub uninterp spec fn email_valid(text: Seq<char>) -> bool;

/// Checks an e-mail address.
///
/// Trusted: validator's `validate_email`. The verdict is named
/// `email_valid`; what its source shows first is stated: a text without an
/// `@` is refused.
#[verifier::external_body]
pub(crate) fn is_valid_email(text: &str) -> (r: bool)
    ensures
        r == email_valid(text@),
        !text@.contains('@') ==> !r,
{
    validator::validate_email(text)
}

/// Whether a character is an ASCII letter.
pub open spec fn is_ascii_letter(c: char) -> bool {
    ('a' <= c && c <= 'z') || ('A' <= c && c <= 'Z')
}

/// Whether a character is a lowercase ASCII letter.
pub open spec fn is_ascii_lower(c: char) -> bool {
    'a' <= c && c <= 'z'
}

/// Whether a character is an uppercase ASCII letter.
pub open spec fn is_ascii_upper(c: char) -> bool {
    'A' <= c && c <= 'Z'
}

/// Whether every character of a text is ASCII.
pub open spec fn is_ascii_text(s: Seq<char>) -> bool {
    forall|k: int| 0 <= k < s.len() ==> (#[trigger] s[k] as int) < 128
}

/// The maximal runs of ASCII letters in a text, in order: what the
/// leftmost-longest matches of `[a-zA-Z]+` are.
pub open spec fn letter_runs(text: Seq<char>) -> Seq<Seq<char>>
    decreases text.len(),
{
    if text.len() == 0 {
        Seq::empty()
    } else {
        let runs = letter_runs(text.drop_last());
        let c = text.last();
        if !is_ascii_letter(c) {
            runs
        } else if text.len() >= 2 && is_ascii_letter(text[text.len() - 2]) {
            runs.update(runs.len() - 1, runs.last().push(c))
        } else {
            runs.push(seq![c])
        }
    }
}

/// Every run is non-empty and made of ASCII letters of the text; and a
/// text that ends in a letter has at least one run.
pub proof fn lemma_letter_runs(text: Seq<char>)
    ensures
        forall|i: int| 0 <= i < letter_runs(text).len() ==> #[trigger] letter_runs(text)[i].len() > 0,
        forall|i: int, j: int| 0 <= i < letter_runs(text).len() && 0 <= j < letter_runs(text)[i].len()
            ==> is_ascii_letter(#[trigger] letter_runs(text)[i][j]) && text.contains(letter_runs(text)[i][j]),
        text.len() > 0 && is_ascii_letter(text.last()) ==> letter_runs(text).len() > 0,
    decreases text.len(),
{
    if text.len() > 0 {
        let prev = text.drop_last();
        lemma_letter_runs(prev);
        let runs = letter_runs(prev);
        let c = text.last();
        let out = letter_runs(text);
        assert forall|i: int, j: int| 0 <= i < out.len() && 0 <= j < out[i].len()
            implies is_ascii_letter(#[trigger] out[i][j]) && text.contains(out[i][j]) by {
            if i < runs.len() && j < runs[i].len() {
                assert(out[i][j] == runs[i][j]);
                let k = choose|k: int| 0 <= k < prev.len() && prev[k] == runs[i][j];
                assert(text[k] == prev[k]);
            } else {
                assert(out[i][j] == c);
                assert(text[text.len() - 1] == c);
            }
        }
        if is_ascii_letter(c) && text.len() >= 2 && is_ascii_letter(text[text.len() - 2]) {
            assert(prev.last() == text[text.len() - 2]);
        }
    }
}

pub open spec fn is_ascii_alphanumeric(c: char) -> bool {
    is_ascii_letter(c) || ('0' <= c && c <= '9')
}

/// Hashes a password with a salt.
///
/// Trusted: `Argon2::default().hash_password(password, salt)` from the
/// argon2 crate, serialized as a PHC string. The contract names the result
/// (`argon2_phc`): Argon2id with fixed default parameters is a function of
/// the password and the salt.
/// What the argon2 source shows of failure is stated too: the salt is
/// refused only when it is not 4 to 64 characters of the PHC alphabet, when
/// its B64 does not decode, or when it decodes to under 8 bytes; and the
/// password only past `u32::MAX` bytes. So a salt of 12 to 64 ASCII letters
/// and digits, a multiple of 4 long (it decodes to three bytes for every
/// four characters), always hashes a password of up to 2^30 - 1 characters.
#[verifier::external_body]
pub(crate) fn hash_password(password: &str, salt: &str) -> (r: Option<String>)
    ensures
        r.deep_view() == argon2_phc(password@, salt@),
        (12 <= salt@.len() <= 64 && salt@.len() % 4 == 0 && password@.len() < 0x4000_0000 && (forall|i: int| 0 <= i < salt@.len() ==> is_ascii_alphanumeric(#[trigger] salt@[i]))) ==> r is Some,
{
    match Argon2::default().hash_password(password.as_bytes(), salt) {
        Ok(hash) => Some(hash.to_string()),
        Err(_) => None,
    }
}

/// Checks a password against a stored PHC string.
///
/// Trusted: parses the text with `PasswordHash::new` and checks it with
/// `Argon2::default().verify_password`. Besides naming the result, the
/// contract states what the password-hash source shows: verification
/// recomputes the hash with the salt and parameters read back from the PHC
/// string, so a password checks out against a hash made from it.
#[verifier::external_body]
pub(crate) fn password_matches(password: &str, phc: &str) -> (r: Option<bool>)
    ensures
        r == argon2_matches(password@, phc@),
        forall|salt: Seq<char>| #[trigger] argon2_phc(password@, salt) == Some(phc@) ==> r == Some(true),
{
    match PasswordHash::new(phc) {
        Ok(hash) => Some(Argon2::default().verify_password(password.as_bytes(), &hash).is_ok()),
        Err(_) => None,
    }
}

/// Decodes bytes as UTF-8.
///
/// Trusted: `std::str::from_utf8`, which fails exactly on invalid UTF-8;
/// the decoded text is named `utf8_text`.
#[verifier::external_body]
pub(crate) fn decode_utf8(bytes: &[u8]) -> (r: Option<String>)
    ensures
        r.deep_view() == utf8_text(bytes@),
{
    match std::str::from_utf8(bytes) {
        Ok(s) => Some(s.to_string()),
        Err(_) => None,
    }
}

/// Signs claims into an HS256 token.
///
/// Trusted: keys `Hmac<Sha256>` with the secret's bytes and signs the map
/// of the claims with jwt's `SignWithKey`. The token is named
/// `hs256_token`: the header, the JSON of the sorted claims and the HMAC are
/// functions of the secret and the claims.
#[verifier::external_body]
pub(crate) fn sign_claims(secret: &str, claims: &Vec<(String, String)>) -> (r: Option<String>)
    ensures
        r.deep_view() == hs256_token(secret@, claims.deep_view()),
{
    let key: Hmac<Sha256> = match Hmac::new_from_slice(secret.as_bytes()) {
        Ok(key) => key,
        Err(_) => return None,
    };
    let map: BTreeMap<String, String> = claims.iter().cloned().collect();
    map.sign_with_key(&key).ok()
}

/// Reads the claims of an HS256 token whose signature checks out.
///
/// Trusted: jwt's `VerifyWithKey` into a map of string claims, keyed
/// `Hmac<Sha256>` with the secret's bytes. Besides naming the result, the
/// contract states what jwt's source shows: a token that signing produced
/// with the same secret verifies and carries the same claims.
#[verifier::external_body]
pub(crate) fn verify_claims(secret: &str, token: &str) -> (r: Option<Vec<(String, String)>>)
    ensures
        r.deep_view() == hs256_claims(secret@, token@),
        forall|c: ClaimSeq| #[trigger] hs256_token(secret@, c) == Some(token@) ==> r is Some && claims_map(r.unwrap().deep_view()) == claims_map(c),
{
    let key: Hmac<Sha256> = match Hmac::new_from_slice(secret.as_bytes()) {
        Ok(key) => key,
        Err(_) => return None,
    };
    let claims: Result<BTreeMap<String, String>, jwt::Error> = token.verify_with_key(&key);
    claims.ok().map(|map| map.into_iter().collect())
}

/// Lowercases a text.
///
/// Trusted: `str::to_lowercase` from std; the result is named `lowercase`.
/// Two facts of Unicode lowercasing are stated: no uppercase ASCII letter
/// is left, and an ASCII text keeps its length (each of its characters
/// lowercases to one character).
#[verifier::external_body]
pub(crate) fn to_lowercase(text: &str) -> (r: String)
    ensures
        r@ == lowercase(text@),
        forall|k: int| 0 <= k < r@.len() ==> !is_ascii_upper(#[trigger] r@[k]),
        is_ascii_text(text@) ==> r@.len() == text@.len(),
{
    text.to_lowercase()
}

/// The runs of ASCII letters of a text.
///
/// Trusted: the matches of the regex `[a-zA-Z]+` (regex's `find_iter`), in
/// order: leftmost, non-overlapping and greedy, which are the maximal runs
/// of ASCII letters that `letter_runs` spells out.
#[verifier::external_body]
pub(crate) fn find_letter_runs(text: &str) -> (r: Vec<String>)
    ensures
        r.deep_view() == letter_runs(text@),
{
    let words = regex::Regex::new(r"[a-zA-Z]+").unwrap();
    words.find_iter(text).map(|word| word.as_str().to_string()).collect()
}

/// Random words of lorem ipsum text.
///
/// Trusted: lipsum's `lipsum_words(n)`, which draws from a random number
/// generator. What its source shows of every draw is stated: the words come
/// from the crate's two ASCII texts, whose longest word has 17 characters,
/// joined by single spaces, with at most one `.` added at the end.
#[verifier::external_body]
pub(crate) fn lorem_words(n: usize) -> (r: String)
    ensures
        r@.len() <= 18 * n + 1,
        is_ascii_text(r@),
{
    lipsum::lipsum_words(n)
}

/// Random ASCII letters and digits.
///
/// Trusted: rand's `Alphanumeric.sample_string(&mut thread_rng(), len)`,
/// documented to draw each character from `a-z`, `A-Z` and `0-9`; the
/// contract states the length and that alphabet, nothing of the draw.
#[verifier::external_body]
pub(crate) fn random_alphanumeric(len: usize) -> (r: String)
    ensures
        r@.len() == len,
        forall|i: int| 0 <= i < len ==> is_ascii_alphanumeric(#[trigger] r@[i]),
{
    Alphanumeric.sample_string(&mut rand::thread_rng(), len)
}

} // verus!
