use vstd::prelude::*;
use vstd::utf8::{encode_utf8, is_ascii_chars, is_ascii_chars_encode_utf8};

verus! {

/// Default PBKDF2 iteration count reported for unknown accounts.
pub const DEFAULT_KDF_ITERATIONS: i32 = 600_000;

/// Default key-derivation function identifier (0 = PBKDF2-SHA256).
pub const DEFAULT_KDF: i32 = 0;

/// Iteration count used when the stored setting reinterprets as zero.
pub const FALLBACK_KDF_ITERATIONS: u32 = 100_000;

/// Length in bytes of a PBKDF2-HMAC-SHA256 derived key.
pub const DERIVED_KEY_LEN: usize = 32;

/// Inputs to HMAC-SHA256 must stay below this many bytes, or the digest's bit
/// length would not fit in 64 bits.
pub open spec fn kdf_input_limit() -> int {
    0x1000_0000_0000_0000
}

// ===================== Base64 =====================

/// The symbol of the standard base64 alphabet for the 6-bit value `v`.
pub open spec fn base64_symbol(v: int) -> char {
    if v < 26 {
        (65 + v) as char
    } else if v < 52 {
        (97 + (v - 26)) as char
    } else if v < 62 {
        (48 + (v - 52)) as char
    } else if v == 62 {
        '+'
    } else {
        '/'
    }
}

/// Standard padded base64 (RFC 4648, section 4): every group of three bytes
/// becomes four symbols, a final group of one or two bytes is padded with `=`.
pub open spec fn base64_encode(bytes: Seq<u8>) -> Seq<char>
    decreases bytes.len(),
{
    if bytes.len() == 0 {
        seq![]
    } else if bytes.len() == 1 {
        let b0 = bytes[0] as int;
        seq![base64_symbol(b0 / 4), base64_symbol((b0 % 4) * 16), '=', '=']
    } else if bytes.len() == 2 {
        let b0 = bytes[0] as int;
        let b1 = bytes[1] as int;
        seq![
            base64_symbol(b0 / 4),
            base64_symbol((b0 % 4) * 16 + b1 / 16),
            base64_symbol((b1 % 16) * 4),
            '=',
        ]
    } else {
        let b0 = bytes[0] as int;
        let b1 = bytes[1] as int;
        let b2 = bytes[2] as int;
        seq![
            base64_symbol(b0 / 4),
            base64_symbol((b0 % 4) * 16 + b1 / 16),
            base64_symbol((b1 % 16) * 4 + b2 / 64),
            base64_symbol(b2 % 64),
        ] + base64_encode(bytes.skip(3))
    }
}

/// The encoding of `n` bytes has four symbols per started group of three.
pub proof fn lemma_base64_len(bytes: Seq<u8>)
    ensures
        base64_encode(bytes).len() == 4 * ((bytes.len() + 2) / 3),
    decreases bytes.len(),
{
    if bytes.len() >= 3 {
        lemma_base64_len(bytes.skip(3));
    }
}

/// No symbol of the alphabet is the padding symbol.
pub proof fn lemma_symbol_is_not_padding(v: int)
    requires
        0 <= v < 64,
    ensures
        base64_symbol(v) != '=',
{
    if v < 26 {
        assert(((65 + v) as char) as int == 65 + v);
    } else if v < 52 {
        assert(((97 + (v - 26)) as char) as int == 97 + (v - 26));
    } else if v < 62 {
        assert(((48 + (v - 52)) as char) as int == 48 + (v - 52));
    }
}

/// When the byte count leaves two bytes over, the encoding ends in exactly
/// one padding symbol.
pub proof fn lemma_base64_one_pad(bytes: Seq<u8>)
    requires
        bytes.len() % 3 == 2,
    ensures
        base64_encode(bytes).len() >= 2,
        base64_encode(bytes).last() == '=',
        base64_encode(bytes)[base64_encode(bytes).len() - 2] != '=',
    decreases bytes.len(),
{
    lemma_base64_len(bytes);
    if bytes.len() == 2 {
        let b1 = bytes[1] as int;
        lemma_symbol_is_not_padding((b1 % 16) * 4);
    } else {
        let rest = bytes.skip(3);
        lemma_base64_one_pad(rest);
        lemma_base64_len(rest);
        let b0 = bytes[0] as int;
        let b1 = bytes[1] as int;
        let b2 = bytes[2] as int;
        let head = seq![
            base64_symbol(b0 / 4),
            base64_symbol((b0 % 4) * 16 + b1 / 16),
            base64_symbol((b1 % 16) * 4 + b2 / 64),
            base64_symbol(b2 % 64),
        ];
        assert(base64_encode(bytes) == head + base64_encode(rest));
    }
}

/// `data_encoding::BASE64.encode`: the standard padded base64 text of the
/// input. The crate asserts that the input is at most `usize::MAX / 512` bytes.
#[verifier::external_body]
fn base64_encode_bytes(bytes: &[u8]) -> (text: String)
    requires
        bytes@.len() <= usize::MAX / 512,
    ensures
        text@ == base64_encode(bytes@),
{
    data_encoding::BASE64.encode(bytes)
}

/// The standard padded base64 text of some bytes.
pub fn random_text(bytes: &[u8]) -> (t: String)
    requires
        bytes@.len() <= usize::MAX / 512,
    ensures
        t@ == base64_encode(bytes@),
        t@.len() == 4 * ((bytes@.len() + 2) / 3),
{
    proof {
        lemma_base64_len(bytes@);
    }
    base64_encode_bytes(bytes)
}

// ===================== PBKDF2 =====================

/// The 32-byte key that PBKDF2-HMAC-SHA256 derives from `secret` with `salt`
/// in `iterations` rounds (RFC 2898, section 5.2).
pub uninterp spec fn pbkdf2_hmac_sha256(iterations: u32, salt: Seq<u8>, secret: Seq<u8>) -> Seq<u8>;

/// `ring::pbkdf2::derive` with `PBKDF2_HMAC_SHA256` into a 32-byte buffer.
/// The result is named, not described; its length is the buffer's. ring
/// panics when salt or secret is too long for the digest, which the bound in
/// `requires` rules out.
#[verifier::external_body]
fn pbkdf2_derive(iterations: u32, salt: &[u8], secret: &[u8]) -> (key: Vec<u8>)
    requires
        iterations > 0,
        salt@.len() < kdf_input_limit(),
        secret@.len() < kdf_input_limit(),
    ensures
        key@ == pbkdf2_hmac_sha256(iterations, salt@, secret@),
        key@.len() == DERIVED_KEY_LEN,
{
    let mut out = [0u8; 32];
    ring::pbkdf2::derive(
        ring::pbkdf2::PBKDF2_HMAC_SHA256,
        std::num::NonZeroU32::new(iterations).unwrap(),
        salt,
        secret,
        &mut out,
    );
    out.to_vec()
}

// ===================== Lower-casing =====================

/// The Unicode lower-case mapping of a string, as `str::to_lowercase` computes it.
pub uninterp spec fn lowercase(s: Seq<char>) -> Seq<char>;

/// ASCII lower-casing: `A`..`Z` become `a`..`z`, every other character stays.
pub open spec fn ascii_lowercase(s: Seq<char>) -> Seq<char> {
    Seq::new(s.len(), |i: int| if 'A' <= s[i] <= 'Z' { ((s[i] as int) + 32) as char } else { s[i] })
}

/// ASCII lower-casing keeps the length and the text ASCII.
pub proof fn lemma_ascii_lowercase(s: Seq<char>)
    requires
        is_ascii_chars(s),
    ensures
        ascii_lowercase(s).len() == s.len(),
        is_ascii_chars(ascii_lowercase(s)),
{
    assert forall|i: int| 0 <= i < ascii_lowercase(s).len() implies '\0' <= #[trigger] ascii_lowercase(s)[i] <= '\u{7f}' by {
        if 'A' <= s[i] <= 'Z' {
            assert((((s[i] as int) + 32) as char) as int == (s[i] as int) + 32);
        }
    }
}

/// `str::to_lowercase`. Lower case is the Unicode lower-case mapping, which on
/// ASCII text is the ASCII one; beyond that the result is only named.
#[verifier::external_body]
pub(crate) fn str_to_lowercase(s: &str) -> (lower: String)
    ensures
        lower@ == lowercase(s@),
        is_ascii_chars(s@) ==> lower@ == ascii_lowercase(s@),
{
    s.to_lowercase()
}

// ===================== Password hashing =====================

/// The iteration count handed to PBKDF2 for the setting `iterations`: the
/// setting reinterpreted as an unsigned 32-bit number, or the fallback when
/// that number is zero.
pub open spec fn effective_iterations(iterations: i32) -> u32 {
    if iterations as u32 == 0 {
        FALLBACK_KDF_ITERATIONS
    } else {
        iterations as u32
    }
}

/// The stored master-password hash: base64 of PBKDF2-HMAC-SHA256 over the
/// password's UTF-8 bytes, salted with the lower-cased e-mail address.
pub open spec fn password_hash(password: Seq<char>, email: Seq<char>, iterations: i32) -> Seq<char> {
    base64_encode(
        pbkdf2_hmac_sha256(
            effective_iterations(iterations),
            encode_utf8(lowercase(email)),
            encode_utf8(password),
        ),
    )
}

/// `stored` is the hash of `password` for the account with e-mail `email`.
pub open spec fn password_verifies(password: Seq<char>, email: Seq<char>, iterations: i32, stored: Seq<char>) -> bool {
    password_hash(password, email, iterations) == stored
}

/// The lower-cased e-mail is short enough to salt the digest; for an ASCII
/// address, whose lower-case form has its length, that is its own length.
pub open spec fn salt_fits(email: Seq<char>) -> bool {
    if is_ascii_chars(email) {
        email.len() < kdf_input_limit()
    } else {
        encode_utf8(lowercase(email)).len() < kdf_input_limit()
    }
}

/// Password and salt are short enough for the digest.
pub open spec fn kdf_inputs_fit(password: Seq<char>, email: Seq<char>) -> bool {
    &&& encode_utf8(password).len() < kdf_input_limit()
    &&& salt_fits(email)
}

proof fn lemma_salt_fits(email: Seq<char>, salt: Seq<char>)
    requires
        salt == lowercase(email),
        is_ascii_chars(email) ==> salt == ascii_lowercase(email),
    ensures
        salt_fits(email) == (encode_utf8(salt).len() < kdf_input_limit()),
{
    if is_ascii_chars(email) {
        lemma_ascii_lowercase(email);
        is_ascii_chars_encode_utf8(salt);
    }
}

/// Whether password and lower-cased e-mail fit the digest.
fn kdf_inputs_checked(password: &str, email: &str) -> (fits: bool)
    ensures
        fits == kdf_inputs_fit(password@, email@),
{
    let salt = str_to_lowercase(email);
    proof {
        lemma_salt_fits(email@, salt@);
    }
    let salt_len: usize = salt.as_str().as_bytes().len();
    let password_len: usize = password.as_bytes().len();
    (password_len as u64) < 0x1000_0000_0000_0000u64 && (salt_len as u64) < 0x1000_0000_0000_0000u64
}

/// Computes the iteration count handed to PBKDF2.
pub fn kdf_iterations(iterations: i32) -> (n: u32)
    ensures
        n == effective_iterations(iterations),
        n > 0,
{
    let n: u32 = iterations as u32;
    if n == 0 {
        FALLBACK_KDF_ITERATIONS
    } else {
        n
    }
}

/// Hashes the master password using PBKDF2-HMAC-SHA256 with the lower-cased
/// e-mail as salt; the result is the base64 text of the 32-byte key.
pub fn hash_password(password: &str, email: &str, iterations: i32) -> (hash: String)
    requires
        kdf_inputs_fit(password@, email@),
    ensures
        hash@ == password_hash(password@, email@, iterations),
        hash@ == base64_encode(
            pbkdf2_hmac_sha256(
                if iterations == 0 { 100_000u32 } else { iterations as u32 },
                encode_utf8(lowercase(email@)),
                encode_utf8(password@),
            ),
        ),
        exists|key: Seq<u8>| key.len() == 32 && hash@ == #[trigger] base64_encode(key),
        hash@.len() == 44,
        hash@[43] == '=',
        hash@[42] != '=',
{
    let salt = str_to_lowercase(email);
    proof {
        lemma_salt_fits(email@, salt@);
    }
    let key = pbkdf2_derive(kdf_iterations(iterations), salt.as_str().as_bytes(), password.as_bytes());
    proof {
        lemma_base64_len(key@);
        lemma_base64_one_pad(key@);
        assert(iterations as u32 == 0 <==> iterations == 0) by (bit_vector);
    }
    random_text(key.as_slice())
}

/// Hashes the master password when password and salt fit the digest, and
/// answers `None` otherwise.
pub fn try_hash_password(password: &str, email: &str, iterations: i32) -> (hash: Option<String>)
    ensures
        match hash {
            Some(h) => kdf_inputs_fit(password@, email@) && h@ == password_hash(
                password@,
                email@,
                iterations,
            ),
            None => !kdf_inputs_fit(password@, email@),
        },
{
    if !kdf_inputs_checked(password, email) {
        None
    } else {
        Some(hash_password(password, email, iterations))
    }
}

/// Checks a password against a known hash: true exactly when hashing the
/// password gives that hash.
pub fn verify_password(password: &str, email: &str, iterations: i32, expected_hash: &str) -> (ok: bool)
    requires
        kdf_inputs_fit(password@, email@),
    ensures
        ok == password_verifies(password@, email@, iterations, expected_hash@),
        ok == (expected_hash@ == base64_encode(
            pbkdf2_hmac_sha256(
                if iterations == 0 { 100_000u32 } else { iterations as u32 },
                encode_utf8(lowercase(email@)),
                encode_utf8(password@),
            ),
        )),
{
    let computed = hash_password(password, email, iterations);
    let expected = String::from_str(expected_hash);
    computed == expected
}

/// Checks a password against a known hash when password and salt fit the
/// digest, and answers `None` otherwise.
pub fn try_verify_password(password: &str, email: &str, iterations: i32, expected_hash: &str) -> (ok: Option<bool>)
    ensures
        match ok {
            Some(b) => kdf_inputs_fit(password@, email@) && b == password_verifies(
                password@,
                email@,
                iterations,
                expected_hash@,
            ),
            None => !kdf_inputs_fit(password@, email@),
        },
{
    if !kdf_inputs_checked(password, email) {
        None
    } else {
        Some(verify_password(password, email, iterations, expected_hash))
    }
}

// ===================== Random tokens =====================

/// `ring::rand::SystemRandom::fill` on a fresh buffer of `len` bytes, or
/// `None` when the system generator reports a failure. Nothing is stated of
/// which bytes come back.
#[verifier::external_body]
fn system_random_bytes(len: usize) -> (bytes: Option<Vec<u8>>)
    ensures
        bytes matches Some(b) ==> b@.len() == len,
{
    let mut buf = vec![0u8; len];
    match ring::rand::SecureRandom::fill(&ring::rand::SystemRandom::new(), &mut buf) {
        Ok(()) => Some(buf),
        Err(_) => None,
    }
}

/// `text` is the base64 encoding of some `len` bytes.
pub open spec fn is_random_text(text: Seq<char>, len: nat) -> bool {
    exists|bytes: Seq<u8>| bytes.len() == len && #[trigger] base64_encode(bytes) == text
}

/// Draws `len` bytes from the system generator and returns them as base64;
/// `None` when the generator fails.
pub fn generate_random_bytes(len: usize) -> (text: Option<String>)
    requires
        len <= usize::MAX / 512,
    ensures
        text matches Some(t) ==> is_random_text(t@, len as nat) && t@.len() == 4 * ((len + 2) / 3),
{
    match system_random_bytes(len) {
        Some(bytes) => {
            let text = random_text(bytes.as_slice());
            proof {
                assert(base64_encode(bytes@) == text@);
            }
            Some(text)
        },
        None => None,
    }
}

/// A fresh 32-byte secret as base64 (refresh tokens, authenticator keys):
/// 44 symbols; `None` when the system generator fails.
pub fn generate_token() -> (token: Option<String>)
    ensures
        token matches Some(t) ==> is_random_text(t@, 32) && t@.len() == 44,
{
    generate_random_bytes(32)
}

// ===================== Laws =====================

/// The stored hash is the base64 text of PBKDF2-HMAC-SHA256 over the whole
/// UTF-8 password, salted with the whole UTF-8 lower-cased e-mail, in the
/// given number of rounds (100000 for a zero setting).
pub proof fn law_password_hash_is_pbkdf2(password: Seq<char>, email: Seq<char>, iterations: i32)
    ensures
        password_hash(password, email, iterations) == base64_encode(
            pbkdf2_hmac_sha256(
                if iterations == 0 { 100_000u32 } else { iterations as u32 },
                encode_utf8(lowercase(email)),
                encode_utf8(password),
            ),
        ),
        password_verifies(password, email, iterations, password_hash(password, email, iterations)),
        forall|stored: Seq<char>| #[trigger] password_verifies(password, email, iterations, stored) <==> stored
            == base64_encode(
            pbkdf2_hmac_sha256(
                if iterations == 0 { 100_000u32 } else { iterations as u32 },
                encode_utf8(lowercase(email)),
                encode_utf8(password),
            ),
        ),
{
    assert(iterations as u32 == 0 <==> iterations == 0) by (bit_vector);
}

/// A positive setting is used as the round count itself; zero falls back to 100000.
pub proof fn law_effective_iterations(iterations: i32)
    ensures
        iterations > 0 ==> effective_iterations(iterations) == iterations as u32 && effective_iterations(iterations) as int == iterations as int,
        iterations == 0 ==> effective_iterations(iterations) == 100_000,
        effective_iterations(iterations) > 0,
{
    assert(iterations as u32 == 0 <==> iterations == 0) by (bit_vector);
    assert(iterations > 0 ==> (iterations as u32) as int == iterations as int) by (bit_vector);
}

/// A password verifies against its own hash.
pub proof fn law_hash_then_verify(password: Seq<char>, email: Seq<char>, iterations: i32)
    ensures
        password_verifies(password, email, iterations, password_hash(password, email, iterations)),
{
}

/// Hashing is insensitive to the case of the e-mail: a hash made under one
/// address verifies under any address with the same lower-case form.
pub proof fn law_hash_ignores_email_case(password: Seq<char>, e1: Seq<char>, e2: Seq<char>, iterations: i32)
    requires
        lowercase(e1) == lowercase(e2),
    ensures
        password_hash(password, e1, iterations) == password_hash(password, e2, iterations),
        password_verifies(password, e2, iterations, password_hash(password, e1, iterations)),
{
}

/// A zero iteration setting hashes as the fallback count does.
pub proof fn law_zero_iterations_fall_back(password: Seq<char>, email: Seq<char>)
    ensures
        password_hash(password, email, 0) == password_hash(password, email, 100_000),
{
}

} // verus!
