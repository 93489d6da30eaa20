//! Password hashes: Argon2id for new ones, plain SHA-256 in hex for the old ones.

use argon2::password_hash::{rand_core::OsRng, PasswordHash, PasswordHasher, PasswordVerifier, SaltString};
use argon2::Argon2;
use sha2::{Digest, Sha256};
use vstd::prelude::*;

verus! {

/// What an Argon2id hash starts with.
pub const ARGON2_PREFIX: &'static str = "$argon2id$";

/// The longest password, in bytes, that Argon2 takes.
pub const MAX_PASSWORD_BYTES: usize = 0xFFFF_FFFF;

/// Errors of password hashes.
#[derive(Debug, Clone, Copy, PartialEq, Eq, Structural)]
pub enum PasswordError {
    InvalidFormat,
    HashFailed,
    VerifyFailed,
}

impl PasswordError {
    /// The message of the error.
    pub open spec fn message(self) -> Seq<char> {
        match self {
            PasswordError::InvalidFormat => "invalid password hash format"@,
            PasswordError::HashFailed => "failed to hash password"@,
            PasswordError::VerifyFailed => "password verification failed"@,
        }
    }

    /// The message of the error as a string.
    pub fn to_string(&self) -> (s: String)
        ensures
            s@ == self.message(),
    {
        match self {
            PasswordError::InvalidFormat => "invalid password hash format".to_owned(),
            PasswordError::HashFailed => "failed to hash password".to_owned(),
            PasswordError::VerifyFailed => "password verification failed".to_owned(),
        }
    }
}

/// How a stored hash is to be read.
#[derive(Debug, Clone, Copy, PartialEq, Eq, Structural)]
pub enum Scheme {
    /// The hash is empty: no password is configured.
    Unset,
    /// The hash starts with [`ARGON2_PREFIX`].
    Argon2id,
    /// Anything else is compared with the SHA-256 digest in hex.
    Sha256Hex,
}

/// The scheme of a stored hash.
pub open spec fn scheme(hash: Seq<char>) -> Scheme {
    if hash.len() == 0 {
        Scheme::Unset
    } else if ARGON2_PREFIX@.is_prefix_of(hash) {
        Scheme::Argon2id
    } else {
        Scheme::Sha256Hex
    }
}

/// Whether Argon2 finds that `password` is the one `hash` was made of.
pub uninterp spec fn argon2_accepts(password: Seq<char>, hash: Seq<char>) -> bool;

/// The SHA-256 digest of some bytes.
pub uninterp spec fn sha256(data: Seq<u8>) -> Seq<u8>;

/// The lower-case hex digit of a value below sixteen.
pub open spec fn hex_digit(v: int) -> char {
    if v < 10 {
        (48 + v) as char
    } else {
        (87 + v) as char
    }
}

/// The lower-case hex notation of some bytes: two digits per byte, the high one first.
pub open spec fn hex_lower(data: Seq<u8>) -> Seq<char> {
    Seq::new(
        2 * data.len(),
        |i: int|
            if i % 2 == 0 {
                hex_digit(data[i / 2] as int / 16)
            } else {
                hex_digit(data[i / 2] as int % 16)
            },
    )
}

/// The old hash of a password: the SHA-256 digest of its UTF-8 bytes in hex.
pub open spec fn sha256_hex(password: Seq<char>) -> Seq<char> {
    hex_lower(sha256(vstd::utf8::encode_utf8(password)))
}

/// Whether a count of nine digits or more follows `p=` at a place of a text.
pub open spec fn long_count_at(text: Seq<u8>, i: int) -> bool {
    &&& 0 <= i
    &&& i + 11 <= text.len()
    &&& text[i] == 112
    &&& text[i + 1] == 61
    &&& forall|j: int| i + 2 <= j < i + 11 ==> 48 <= #[trigger] text[j] <= 57
}

/// Whether no count of lanes in an Argon2id hash, after `p=`, has more than eight digits. The
/// most lanes that Argon2 knows have eight.
pub open spec fn lanes_small(hash: Seq<char>) -> bool {
    forall|i: int| !#[trigger] long_count_at(vstd::utf8::encode_utf8(hash), i)
}

/// Whether `password` passes against the stored `hash`.
pub open spec fn accepts(password: Seq<char>, hash: Seq<char>) -> bool {
    match scheme(hash) {
        Scheme::Unset => false,
        Scheme::Argon2id => lanes_small(hash) && argon2_accepts(password, hash),
        Scheme::Sha256Hex => sha256_hex(password) == hash,
    }
}

/// Whether a character is a hex digit, of either case.
pub open spec fn hex_char(c: char) -> bool {
    '0' <= c <= '9' || 'a' <= c <= 'f' || 'A' <= c <= 'F'
}

/// Whether a stored hash is one of the old kind: sixty-four hex digits.
pub open spec fn old_format(hash: Seq<char>) -> bool {
    &&& hash.len() == 64
    &&& forall|i: int| 0 <= i < hash.len() ==> hex_char(#[trigger] hash[i])
}

/// Argon2 takes passwords up to a length.
pub open spec fn hashable(password: Seq<char>) -> bool {
    vstd::utf8::encode_utf8(password).len() <= MAX_PASSWORD_BYTES
}

/// `Argon2::hash_password` with the default parameters and a fresh random salt of
/// `SaltString::generate`, as the text that `PasswordHash` prints. The claim: it succeeds on
/// a password within the length limit, the text starts with the name of the algorithm, asks for
/// few lanes (the default is one), and `Argon2::verify_password` accepts the password against
/// it. The salt, and with it the rest of the text, is left to chance.
#[verifier::external_body]
fn argon2_hash(password: &str) -> (hash: String)
    requires
        hashable(password@),
    ensures
        ARGON2_PREFIX@.is_prefix_of(hash@),
        lanes_small(hash@),
        argon2_accepts(password@, hash@),
{
    let salt = SaltString::generate(&mut OsRng);
    Argon2::default()
        .hash_password(password.as_bytes(), &salt)
        .expect("Argon2 password hashing failed")
        .to_string()
}

/// `PasswordHash::new` and `Argon2::verify_password`: whether the text reads as a password
/// hash and the password, hashed anew with the parameters and the salt written there, gives
/// the digest written there. It depends on the two texts alone. A count of lanes of nine digits
/// is left out: eight times such a number may overflow where Argon2 checks its parameters.
#[verifier::external_body]
fn argon2_verify(password: &str, hash: &str) -> (ok: bool)
    requires
        lanes_small(hash@),
    ensures
        ok == argon2_accepts(password@, hash@),
{
    match PasswordHash::new(hash) {
        Ok(parsed) => Argon2::default().verify_password(password.as_bytes(), &parsed).is_ok(),
        Err(_) => false,
    }
}

/// `Sha256::digest`: the digest of the bytes, thirty-two bytes long.
#[verifier::external_body]
fn sha256_digest(data: &[u8]) -> (digest: Vec<u8>)
    ensures
        digest@ == sha256(data@),
        digest@.len() == 32,
{
    Sha256::digest(data).to_vec()
}

/// `hex::encode`: the lower-case hex notation of the bytes.
#[verifier::external_body]
pub(crate) fn hex_encode(data: &Vec<u8>) -> (text: String)
    ensures
        text@ == hex_lower(data@),
{
    hex::encode(data)
}

/// Whether `text` starts with `prefix`.
fn has_prefix(text: &str, prefix: &str) -> (b: bool)
    ensures
        b == prefix@.is_prefix_of(text@),
{
    let n: usize = prefix.unicode_len();
    if text.unicode_len() < n {
        return false;
    }
    let mut i: usize = 0;
    while i < n
        invariant
            n == prefix@.len(),
            n <= text@.len(),
            i <= n,
            forall|j: int| 0 <= j < i ==> text@[j] == prefix@[j],
        decreases n - i,
    {
        if text.get_char(i) != prefix.get_char(i) {
            assert(text@.subrange(0, n as int)[i as int] != prefix@[i as int]);
            return false;
        }
        i += 1;
    }
    assert(text@.subrange(0, n as int) =~= prefix@);
    true
}

/// The scheme of a stored hash.
pub fn scheme_of(hash: &str) -> (s: Scheme)
    ensures
        s == scheme(hash@),
{
    if hash.is_empty() {
        Scheme::Unset
    } else if has_prefix(hash, ARGON2_PREFIX) {
        Scheme::Argon2id
    } else {
        Scheme::Sha256Hex
    }
}

/// The Argon2id hash of a password, with a fresh salt; nothing for an empty password.
///
/// The hash accepts the password it was made of.
pub fn hash_password(password: &str) -> (hash: String)
    requires
        hashable(password@),
    ensures
        password@.len() == 0 ==> hash@.len() == 0,
        password@.len() != 0 ==> scheme(hash@) == Scheme::Argon2id,
        password@.len() != 0 ==> accepts(password@, hash@),
        password@.len() != 0 ==> "$argon2id$"@.is_prefix_of(hash@) && argon2_accepts(
            password@,
            hash@,
        ),
{
    if password.is_empty() {
        return String::new();
    }
    proof {
        reveal_strlit("$argon2id$");
    }
    argon2_hash(password)
}

/// Whether no count of lanes in an Argon2id hash has more than eight digits.
fn has_small_lanes(hash: &str) -> (b: bool)
    ensures
        b == lanes_small(hash@),
{
    let text: &[u8] = hash.as_bytes();
    let mut i: usize = 0;
    while i < text.len()
        invariant
            text@ == vstd::utf8::encode_utf8(hash@),
            i <= text@.len(),
            forall|k: int| k < i ==> !#[trigger] long_count_at(text@, k),
        decreases text@.len() - i,
    {
        if text.len() - i >= 11 && text[i] == 112 && text[i + 1] == 61 {
            let end: usize = i + 11;
            let mut j: usize = i + 2;
            while j < end && 48 <= text[j] && text[j] <= 57
                invariant
                    end == i + 11,
                    end <= text@.len(),
                    i + 2 <= j <= end,
                    forall|k: int| i + 2 <= k < j ==> 48 <= #[trigger] text@[k] <= 57,
                decreases end - j,
            {
                j += 1;
            }
            if j == end {
                assert(long_count_at(text@, i as int));
                return false;
            }
            assert(!(48 <= text@[j as int] <= 57));
        }
        i += 1;
    }
    true
}

/// Whether a password passes against a stored hash of either kind.
///
/// Against an empty hash nothing passes. What passes against a hash that is no Argon2id one
/// shows it to be one of the old kind.
pub fn verify_password(password: &str, hash: &str) -> (ok: bool)
    ensures
        ok == accepts(password@, hash@),
        ok && scheme(hash@) == Scheme::Sha256Hex ==> old_format(hash@),
        hash@.len() == 0 ==> !ok,
        "$argon2id$"@.is_prefix_of(hash@) && ok ==> argon2_accepts(password@, hash@),
        "$argon2id$"@.is_prefix_of(hash@) && argon2_accepts(password@, hash@) && lanes_small(hash@)
            ==> ok,
        hash@.len() != 0 && !"$argon2id$"@.is_prefix_of(hash@) ==> ok == (hash@ == hex_lower(
            sha256(vstd::utf8::encode_utf8(password@)),
        )),
{
    proof {
        reveal_strlit("$argon2id$");
    }
    match scheme_of(hash) {
        Scheme::Unset => false,
        Scheme::Argon2id => has_small_lanes(hash) && argon2_verify(password, hash),
        Scheme::Sha256Hex => verify_sha256(password, hash),
    }
}

/// Whether a stored hash is of the old kind.
pub fn is_old_format(hash: &str) -> (b: bool)
    ensures
        b == old_format(hash@),
        b ==> hash@.len() == 64,
        b ==> forall|i: int|
            0 <= i < 64 ==> ('0' <= #[trigger] hash@[i] <= '9' || 'a' <= hash@[i] <= 'f' || 'A'
                <= hash@[i] <= 'F'),
        hash@.len() == 64 && (forall|i: int|
            0 <= i < 64 ==> ('0' <= #[trigger] hash@[i] <= '9' || 'a' <= hash@[i] <= 'f' || 'A'
                <= hash@[i] <= 'F')) ==> b,
{
    if hash.unicode_len() != 64 {
        return false;
    }
    let mut i: usize = 0;
    while i < 64
        invariant
            hash@.len() == 64,
            i <= 64,
            forall|j: int| 0 <= j < i ==> hex_char(#[trigger] hash@[j]),
        decreases 64 - i,
    {
        if !is_hex_char(hash.get_char(i)) {
            return false;
        }
        i += 1;
    }
    true
}

/// Whether a character is a hex digit, of either case.
fn is_hex_char(c: char) -> (b: bool)
    ensures
        b == hex_char(c),
{
    ('0' <= c && c <= '9') || ('a' <= c && c <= 'f') || ('A' <= c && c <= 'F')
}

/// Whether a password's digest is the stored hash. One that is a digest is of the old kind.
pub fn verify_sha256(password: &str, hash: &str) -> (ok: bool)
    ensures
        ok == (sha256_hex(password@) == hash@),
        ok == (hex_lower(sha256(vstd::utf8::encode_utf8(password@))) == hash@),
        ok ==> old_format(hash@),
{
    digest_matches(&hash_sha256(password), hash)
}

/// Whether a digest in hex is the stored hash.
pub fn digest_matches(digest: &String, hash: &str) -> (ok: bool)
    ensures
        ok == (digest@ == hash@),
{
    *digest == hash.to_owned()
}

/// The old hash of a text. It is recognised as an old one, and accepts the text.
pub fn hash_sha256(input: &str) -> (hash: String)
    ensures
        hash@ == sha256_hex(input@),
        hash@ == hex_lower(sha256(vstd::utf8::encode_utf8(input@))),
        hash@.len() == 64,
        old_format(hash@),
        accepts(input@, hash@),
{
    let digest = sha256_digest(input.as_bytes());
    proof {
        lemma_hex_is_no_argon2(digest@);
        lemma_hex_alphabet(digest@);
    }
    hex_encode(&digest)
}

/// A password can be hashed as long as its bytes can be counted in thirty-two bits.
pub proof fn lemma_hashable_length(password: Seq<char>)
    ensures
        hashable(password) <==> vstd::utf8::encode_utf8(password).len() < 0x1_0000_0000,
{
}

/// Without a stored hash no password passes, the empty one included.
pub proof fn lemma_fail_closed(password: Seq<char>)
    ensures
        !accepts(password, Seq::<char>::empty()),
{
}

/// Against an Argon2id hash Argon2 alone decides, and on the whole password: none passes that it
/// does not find to be the one of the hash. One that it does passes, unless the hash asks for
/// more lanes than there can be.
pub proof fn lemma_argon2_decides(password: Seq<char>, hash: Seq<char>)
    requires
        "$argon2id$"@.is_prefix_of(hash),
    ensures
        accepts(password, hash) ==> argon2_accepts(password, hash),
        argon2_accepts(password, hash) && (forall|i: int|
            0 <= i && i + 11 <= vstd::utf8::encode_utf8(hash).len() && (
            #[trigger] vstd::utf8::encode_utf8(hash)[i]) == 112u8 && vstd::utf8::encode_utf8(
                hash,
            )[i + 1] == 61u8 ==> exists|j: int|
                i + 2 <= j < i + 11 && !(48 <= #[trigger] vstd::utf8::encode_utf8(hash)[j] <= 57))
            ==> accepts(password, hash),
{
    reveal_strlit("$argon2id$");
    let text = vstd::utf8::encode_utf8(hash);
    if !lanes_small(hash) {
        let i = choose|i: int| #[trigger] long_count_at(text, i);
        assert(text[i] == 112);
    }
}

/// Against any other hash only the text passes whose SHA-256 digest in hex it is, letter by
/// letter.
pub proof fn lemma_digest_decides(password: Seq<char>, hash: Seq<char>)
    requires
        hash.len() != 0,
        !"$argon2id$"@.is_prefix_of(hash),
    ensures
        accepts(password, hash) <==> {
            let digest = sha256(vstd::utf8::encode_utf8(password));
            &&& hash.len() == 2 * digest.len()
            &&& forall|i: int|
                0 <= i < digest.len() ==> {
                    &&& hash[2 * i] == "0123456789abcdef"@[(#[trigger] digest[i]) as int / 16]
                    &&& hash[2 * i + 1] == "0123456789abcdef"@[digest[i] as int % 16]
                }
        },
{
    let digest = sha256(vstd::utf8::encode_utf8(password));
    lemma_hex_digits(digest);
    if hash.len() == 2 * digest.len() && (forall|i: int|
        0 <= i < digest.len() ==> {
            &&& hash[2 * i] == "0123456789abcdef"@[(#[trigger] digest[i]) as int / 16]
            &&& hash[2 * i + 1] == "0123456789abcdef"@[digest[i] as int % 16]
        }) {
        assert forall|k: int| 0 <= k < hash.len() implies hash[k] == hex_lower(digest)[k] by {
            let i = k / 2;
            assert(0 <= i < digest.len() && (k == 2 * i || k == 2 * i + 1));
            assert(digest[i] == digest[i]);
        }
        assert(hash =~= hex_lower(digest));
    }
}

/// A hex notation writes each byte with two of sixteen digits: first how many sixteens it holds,
/// then what is left.
pub proof fn lemma_hex_digits(data: Seq<u8>)
    ensures
        hex_lower(data).len() == 2 * data.len(),
        forall|i: int|
            0 <= i < data.len() ==> {
                &&& hex_lower(data)[2 * i] == "0123456789abcdef"@[(#[trigger] data[i]) as int / 16]
                &&& hex_lower(data)[2 * i + 1] == "0123456789abcdef"@[data[i] as int % 16]
            },
{
    reveal_strlit("0123456789abcdef");
    assert forall|i: int| 0 <= i < data.len() implies {
        &&& hex_lower(data)[2 * i] == "0123456789abcdef"@[(#[trigger] data[i]) as int / 16]
        &&& hex_lower(data)[2 * i + 1] == "0123456789abcdef"@[data[i] as int % 16]
    } by {
        let high = 2 * i;
        let low = 2 * i + 1;
        assert(high / 2 == i && high % 2 == 0 && low / 2 == i && low % 2 == 1);
        assert(hex_lower(data)[high] == hex_digit(data[high / 2] as int / 16));
        assert(hex_lower(data)[low] == hex_digit(data[low / 2] as int % 16));
    }
}

/// The two kinds of hashes are told apart: an Argon2id hash is none of the old kind.
pub proof fn lemma_kinds_apart(hash: Seq<char>)
    ensures
        scheme(hash) == Scheme::Argon2id ==> !old_format(hash),
        old_format(hash) ==> scheme(hash) == Scheme::Sha256Hex,
{
    reveal_strlit("$argon2id$");
    if ARGON2_PREFIX@.is_prefix_of(hash) {
        assert(hash[0] == ARGON2_PREFIX@[0]);
    }
}

/// Every character of a hex notation is a digit or one of `a` to `f`.
pub proof fn lemma_hex_alphabet(data: Seq<u8>)
    ensures
        hex_lower(data).len() == 2 * data.len(),
        forall|i: int|
            0 <= i < hex_lower(data).len() ==> ('0' <= #[trigger] hex_lower(data)[i] <= '9' || 'a'
                <= hex_lower(data)[i] <= 'f'),
{
}

/// Different bytes have different hex notations.
pub proof fn lemma_hex_injective(a: Seq<u8>, b: Seq<u8>)
    requires
        hex_lower(a) == hex_lower(b),
    ensures
        a == b,
{
    lemma_hex_alphabet(a);
    lemma_hex_alphabet(b);
    assert forall|i: int| 0 <= i < a.len() implies a[i] == b[i] by {
        let high = 2 * i;
        let low = 2 * i + 1;
        assert(high / 2 == i && high % 2 == 0 && low / 2 == i && low % 2 == 1);
        assert(hex_lower(a)[high] == hex_digit(a[high / 2] as int / 16));
        assert(hex_lower(b)[high] == hex_digit(b[high / 2] as int / 16));
        assert(hex_lower(a)[low] == hex_digit(a[low / 2] as int % 16));
        assert(hex_lower(b)[low] == hex_digit(b[low / 2] as int % 16));
    }
    assert(a =~= b);
}

/// A hex notation does not start as an Argon2id hash does.
proof fn lemma_hex_is_no_argon2(data: Seq<u8>)
    ensures
        !ARGON2_PREFIX@.is_prefix_of(hex_lower(data)),
{
    reveal_strlit("$argon2id$");
    lemma_hex_alphabet(data);
    if ARGON2_PREFIX@.is_prefix_of(hex_lower(data)) {
        assert(hex_lower(data)[0] == ARGON2_PREFIX@[0]);
    }
}

} // verus!
