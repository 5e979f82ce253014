//! Sign-up tokens: `timestamp,discord-id,username`, encrypted with AES-256-CBC
//! under a process-wide key, then Base64 encoded. A token is accepted for the
//! Discord user it was issued to, within five minutes of its timestamp.
use crate::text::{
    decimal, find_char, has_char, lemma_decimal_injective, lemma_find_char_concat, lemma_no_comma_in_decimal, split_once_char, str_eq, u64_to_decimal, cat3,
};
use base64::DecodeError;
use chrono::{DateTime, Utc};
use openssl::error::ErrorStack;
use openssl::symm::{decrypt, encrypt, Cipher};
use rand::Rng;
use std::time::{SystemTime, UNIX_EPOCH};
use vstd::prelude::*;
use vstd::utf8::*;

verus! {

#[verifier::external_type_specification]
#[verifier::external_body]
pub struct ExErrorStack(ErrorStack);

#[verifier::external_type_specification]
#[verifier::external_body]
pub struct ExDecodeError(DecodeError);

/// What `base64::encode` returns for the given bytes.
pub uninterp spec fn spec_base64_encode(data: Seq<u8>) -> Seq<char>;

/// What `base64::decode` returns for the given text (`None` for its error).
pub uninterp spec fn spec_base64_decode(text: Seq<char>) -> Option<Seq<u8>>;

/// What `openssl::symm::encrypt` with AES-256-CBC returns (`None` for its error).
pub uninterp spec fn spec_aes256cbc_encrypt(key: Seq<u8>, iv: Seq<u8>, data: Seq<u8>) -> Option<
    Seq<u8>,
>;

/// What `openssl::symm::decrypt` with AES-256-CBC returns (`None` for its error).
pub uninterp spec fn spec_aes256cbc_decrypt(key: Seq<u8>, iv: Seq<u8>, data: Seq<u8>) -> Option<
    Seq<u8>,
>;

/// What `DateTime::<Utc>::from_timestamp(secs, nanos)` then `to_rfc3339`
/// renders (`None` where `from_timestamp` has no such instant).
pub uninterp spec fn spec_rfc3339(secs: i64, nanos: u32) -> Option<Seq<char>>;

/// The Unix time in seconds of what `DateTime::parse_from_rfc3339` reads
/// from the text (`None` for its error).
pub uninterp spec fn spec_rfc3339_seconds(text: Seq<char>) -> Option<i64>;

/// The text of an optional `String`.
pub open spec fn opt_text(o: Option<String>) -> Option<Seq<char>> {
    match o {
        Some(s) => Some(s@),
        None => None,
    }
}

/// The Unix time of 9999-12-31T23:59:59Z.
pub open spec fn last_four_digit_year_second() -> int {
    253_402_300_799
}

/// The longest input, in bytes, that the cipher takes (`c_int::MAX`).
pub open spec fn cipher_input_limit() -> int {
    0x7fff_ffff
}

/// `base64::encode` (standard alphabet, with padding).
/// Its result is named, as a function of the bytes; `base64::decode` gives
/// the bytes back from it.
#[verifier::external_body]
fn base64_encode(data: &[u8]) -> (r: String)
    ensures
        r@ == spec_base64_encode(data@),
        spec_base64_decode(r@) == Some(data@),
{
    base64::encode(data)
}

/// `base64::decode` (standard alphabet, with padding).
/// Its result is named; decoding what `base64::encode` produced gives the
/// encoded bytes back.
#[verifier::external_body]
fn base64_decode(text: &str) -> (r: Result<Vec<u8>, DecodeError>)
    ensures
        match r {
            Ok(v) => spec_base64_decode(text@) == Some(v@),
            Err(_) => spec_base64_decode(text@) is None,
        },
        forall|b: Seq<u8>| text@ == #[trigger] spec_base64_encode(b) ==> r.is_ok() && r.unwrap()@ == b,
{
    base64::decode(text)
}

/// `openssl::symm::encrypt` with `Cipher::aes_256_cbc()` (PKCS#7 padding).
/// Its result is named, as a function of key, IV and data; `decrypt` with
/// the same key and IV gives the data back from a ciphertext it can take.
/// Data longer than `c_int::MAX` bytes is left out: `Crypter::update`
/// panics on it.
#[verifier::external_body]
fn aes256cbc_encrypt(key: &[u8], iv: &[u8], data: &[u8]) -> (r: Result<Vec<u8>, ErrorStack>)
    requires
        key@.len() == 32,
        iv@.len() == 16,
        data@.len() <= cipher_input_limit(),
    ensures
        match r {
            Ok(v) => spec_aes256cbc_encrypt(key@, iv@, data@) == Some(v@),
            Err(_) => spec_aes256cbc_encrypt(key@, iv@, data@) is None,
        },
        r matches Ok(v) ==> (v@.len() <= cipher_input_limit() ==> spec_aes256cbc_decrypt(
            key@,
            iv@,
            v@,
        ) == Some(data@)),
{
    encrypt(Cipher::aes_256_cbc(), key, Some(iv), data)
}

/// `openssl::symm::decrypt` with `Cipher::aes_256_cbc()` (PKCS#7 padding).
/// Data longer than `c_int::MAX` bytes is left out (`Crypter::update` panics
/// on it). Its result is named; decrypting with the same key and IV what
/// `aes256cbc_encrypt` produced gives the plaintext back.
#[verifier::external_body]
fn aes256cbc_decrypt(key: &[u8], iv: &[u8], data: &[u8]) -> (r: Result<Vec<u8>, ErrorStack>)
    requires
        key@.len() == 32,
        iv@.len() == 16,
        data@.len() <= cipher_input_limit(),
    ensures
        match r {
            Ok(v) => spec_aes256cbc_decrypt(key@, iv@, data@) == Some(v@),
            Err(_) => spec_aes256cbc_decrypt(key@, iv@, data@) is None,
        },
        forall|p: Seq<u8>| #[trigger] spec_aes256cbc_encrypt(key@, iv@, p) == Some(data@) ==> r.is_ok() && r.unwrap()@ == p,
{
    decrypt(Cipher::aes_256_cbc(), key, Some(iv), data)
}

/// `String::from_utf8`: the text the bytes encode, if they are valid UTF-8.
#[verifier::external_body]
fn utf8_to_string(bytes: Vec<u8>) -> (r: Option<String>)
    ensures
        r is Some <==> valid_utf8(bytes@),
        r matches Some(s) ==> s@ == decode_utf8(bytes@),
{
    String::from_utf8(bytes).ok()
}

/// `SystemTime::now().duration_since(UNIX_EPOCH)`: whether the clock reads
/// at or after 1970, and its distance from 1970 in whole seconds and the
/// nanoseconds beyond them (from the `Ok` duration, or from the duration of
/// the `Err` where the clock reads earlier). The clock decides the reading;
/// what holds of every reading is that the nanoseconds are below one second
/// (`Duration::subsec_nanos`).
#[verifier::external_body]
fn clock_reading() -> (r: (bool, u64, u32))
    ensures
        r.2 < 1_000_000_000,
{
    match SystemTime::now().duration_since(UNIX_EPOCH) {
        Ok(d) => (true, d.as_secs(), d.subsec_nanos()),
        Err(e) => (false, e.duration().as_secs(), e.duration().subsec_nanos()),
    }
}

/// `DateTime::<Utc>::from_timestamp(secs, nanos)` rendered with
/// `to_rfc3339`. Its result is named. An instant from 1970 to the end of
/// year 9999 exists, its rendering holds no comma (no rendering does), and
/// `parse_from_rfc3339` reads the same second back from it.
#[verifier::external_body]
fn rfc3339_at(secs: i64, nanos: u32) -> (r: Option<String>)
    ensures
        opt_text(r) == spec_rfc3339(secs, nanos),
        r matches Some(t) ==> !has_char(t@, ','),
        r is None ==> !(0 <= secs <= last_four_digit_year_second() && nanos < 1_000_000_000),
        r matches Some(t) ==> (0 <= secs <= last_four_digit_year_second() && nanos < 1_000_000_000
            ==> spec_rfc3339_seconds(t@) == Some(secs)),
{
    DateTime::<Utc>::from_timestamp(secs, nanos).map(|d| d.to_rfc3339())
}

/// `DateTime::parse_from_rfc3339`, as Unix seconds. Its result is named.
#[verifier::external_body]
fn rfc3339_seconds(text: &str) -> (r: Option<i64>)
    ensures
        r == spec_rfc3339_seconds(text@),
{
    match DateTime::parse_from_rfc3339(text) {
        Ok(dt) => Some(dt.timestamp()),
        Err(_) => None,
    }
}

/// 32 bytes from `rand::thread_rng()`; which bytes is left to chance.
#[verifier::external_body]
fn random_key_bytes() -> (r: Vec<u8>)
    ensures
        r@.len() == 32,
{
    rand::thread_rng().gen::<[u8; 32]>().to_vec()
}

/// Why a well-formed token is refused.
#[derive(Debug, PartialEq, Eq, Clone, Copy, Structural)]
pub enum TokenError {
    DiscordIdMismatch,
    TokenExpired,
}

impl TokenError {
    /// The text the error displays as (its variant's name).
    pub fn to_string(&self) -> (r: String)
        ensures
            r@ == token_error_text(*self),
    {
        match self {
            TokenError::DiscordIdMismatch => String::from_str("DiscordIdMismatch"),
            TokenError::TokenExpired => String::from_str("TokenExpired"),
        }
    }
}

pub open spec fn token_error_text(e: TokenError) -> Seq<char> {
    match e {
        TokenError::DiscordIdMismatch => "DiscordIdMismatch"@,
        TokenError::TokenExpired => "TokenExpired"@,
    }
}

/// The AES-256 key that tokens are encrypted under.
pub struct TokenKey {
    bytes: Vec<u8>,
}

impl View for TokenKey {
    type V = Seq<u8>;

    closed spec fn view(&self) -> Seq<u8> {
        self.bytes@
    }
}

impl TokenKey {
    #[verifier::type_invariant]
    spec fn inv(self) -> bool {
        self.bytes@.len() == 32
    }

    /// A fresh random key.
    pub fn generate() -> (k: TokenKey)
        ensures
            k@.len() == 32,
    {
        TokenKey { bytes: random_key_bytes() }
    }

    /// The key made of the given bytes, if there are 32 of them.
    pub fn from_bytes(bytes: &[u8]) -> (k: Option<TokenKey>)
        ensures
            k is Some <==> bytes@.len() == 32,
            k matches Some(k) ==> k@ == bytes@,
    {
        if bytes.len() == 32 {
            let mut v: Vec<u8> = Vec::new();
            let mut i: usize = 0;
            while i < bytes.len()
                invariant
                    i <= bytes@.len(),
                    v@ == bytes@.take(i as int),
                decreases bytes@.len() - i,
            {
                v.push(bytes[i]);
                i = i + 1;
                assert(v@ == bytes@.take(i as int));
            }
            assert(bytes@.take(32) == bytes@);
            Some(TokenKey { bytes: v })
        } else {
            None
        }
    }

    fn bytes(&self) -> (r: &[u8])
        ensures
            r@ == self@,
            r@.len() == 32,
    {
        proof {
            use_type_invariant(self);
        }
        self.bytes.as_slice()
    }
}

/// The all-zero IV the tokens are encrypted with.
pub open spec fn zero_iv() -> Seq<u8> {
    Seq::new(16, |i: int| 0u8)
}

fn zero_iv_bytes() -> (r: Vec<u8>)
    ensures
        r@ == zero_iv(),
{
    let mut v: Vec<u8> = Vec::new();
    while v.len() < 16
        invariant
            v.len() <= 16,
            forall|i: int| 0 <= i < v.len() ==> v@[i] == 0u8,
        decreases 16 - v.len(),
    {
        v.push(0u8);
    }
    assert(v@ =~= zero_iv());
    v
}

/// The ciphertext text for `plaintext`: its UTF-8 bytes, encrypted, in
/// Base64; `None` where the bytes or the ciphertext are longer than the
/// cipher takes, or encryption fails.
pub open spec fn spec_text_encrypt(key: Seq<u8>, plaintext: Seq<char>) -> Option<Seq<char>> {
    let bytes = encode_utf8(plaintext);
    if bytes.len() > cipher_input_limit() {
        None
    } else {
        match spec_aes256cbc_encrypt(key, zero_iv(), bytes) {
            Some(c) => if c.len() <= cipher_input_limit() {
                Some(spec_base64_encode(c))
            } else {
                None
            },
            None => None,
        }
    }
}

/// The plaintext of a ciphertext text, if it decodes to bytes the cipher
/// takes, decrypts and is UTF-8.
pub open spec fn spec_text_decrypt(key: Seq<u8>, ciphertext: Seq<char>) -> Option<Seq<char>> {
    match spec_base64_decode(ciphertext) {
        Some(c) => if c.len() > cipher_input_limit() {
            None
        } else {
            match spec_aes256cbc_decrypt(key, zero_iv(), c) {
                Some(p) => if valid_utf8(p) {
                    Some(decode_utf8(p))
                } else {
                    None
                },
                None => None,
            }
        },
        None => None,
    }
}

/// Encrypts `plaintext` under `key`; `None` where the plaintext or its
/// ciphertext is longer than the cipher takes, or encryption fails.
pub fn text_encrypt(key: &TokenKey, plaintext: &str) -> (r: Option<String>)
    ensures
        match r {
            Some(c) => spec_text_encrypt(key@, plaintext@) == Some(c@),
            None => spec_text_encrypt(key@, plaintext@) is None,
        },
        r matches Some(c) ==> spec_text_decrypt(key@, c@) == Some(plaintext@),
{
    let iv = zero_iv_bytes();
    let bytes = plaintext.as_bytes();
    proof {
        encode_utf8_valid_utf8(plaintext@);
        encode_utf8_decode_utf8(plaintext@);
    }
    if bytes.len() > 0x7fff_ffff {
        return None;
    }
    match aes256cbc_encrypt(key.bytes(), iv.as_slice(), bytes) {
        Ok(c) => {
            if c.len() > 0x7fff_ffff {
                None
            } else {
                Some(base64_encode(c.as_slice()))
            }
        },
        Err(_) => None,
    }
}

/// Decrypts a ciphertext text under `key`; `None` where it does not decode
/// to bytes the cipher takes, decrypt or hold UTF-8. What `text_encrypt`
/// produced under the same key decrypts to its plaintext.
pub fn text_decrypt(key: &TokenKey, ciphertext: &str) -> (r: Option<String>)
    ensures
        match r {
            Some(p) => spec_text_decrypt(key@, ciphertext@) == Some(p@),
            None => spec_text_decrypt(key@, ciphertext@) is None,
        },
        forall|p: Seq<char>|
            #[trigger] spec_text_encrypt(key@, p) == Some(ciphertext@) ==> (r matches Some(x)
                && x@ == p),
{
    let iv = zero_iv_bytes();
    let c = match base64_decode(ciphertext) {
        Ok(c) => c,
        Err(_) => {
            proof {
                assert forall|p: Seq<char>|
                    #[trigger] spec_text_encrypt(key@, p) != Some(ciphertext@) by {
                    if spec_text_encrypt(key@, p) == Some(ciphertext@) {
                        let b = spec_aes256cbc_encrypt(key@, zero_iv(), encode_utf8(p))->0;
                        assert(ciphertext@ == spec_base64_encode(b));
                    }
                }
            }
            return None;
        },
    };
    if c.len() > 0x7fff_ffff {
        proof {
            assert forall|p: Seq<char>|
                #[trigger] spec_text_encrypt(key@, p) != Some(ciphertext@) by {
                if spec_text_encrypt(key@, p) == Some(ciphertext@) {
                    let b = spec_aes256cbc_encrypt(key@, zero_iv(), encode_utf8(p))->0;
                    assert(ciphertext@ == spec_base64_encode(b));
                    assert(c@ == b);
                }
            }
        }
        return None;
    }
    let p = match aes256cbc_decrypt(key.bytes(), iv.as_slice(), c.as_slice()) {
        Ok(p) => p,
        Err(_) => {
            proof {
                assert forall|p: Seq<char>|
                    #[trigger] spec_text_encrypt(key@, p) != Some(ciphertext@) by {
                    if spec_text_encrypt(key@, p) == Some(ciphertext@) {
                        let b = spec_aes256cbc_encrypt(key@, zero_iv(), encode_utf8(p))->0;
                        assert(ciphertext@ == spec_base64_encode(b));
                        assert(c@ == b);
                        assert(spec_aes256cbc_encrypt(key@, iv@, encode_utf8(p)) == Some(c@));
                    }
                }
            }
            return None;
        },
    };
    let ghost pb = p@;
    let r = utf8_to_string(p);
    proof {
        assert forall|q: Seq<char>| #[trigger]
            spec_text_encrypt(key@, q) == Some(ciphertext@) implies (r matches Some(x) && x@
            == q) by {
            let b = spec_aes256cbc_encrypt(key@, zero_iv(), encode_utf8(q))->0;
            assert(ciphertext@ == spec_base64_encode(b));
            assert(c@ == b);
            assert(spec_aes256cbc_encrypt(key@, iv@, encode_utf8(q)) == Some(c@));
            assert(pb == encode_utf8(q));
            encode_utf8_valid_utf8(q);
            encode_utf8_decode_utf8(q);
        }
    }
    r
}

/// The text a token encrypts: `timestamp,discord-id,username`.
pub open spec fn token_payload(ts: Seq<char>, id: Seq<char>, user: Seq<char>) -> Seq<char> {
    ts + seq![','] + id + seq![','] + user
}

/// The token issued at timestamp text `ts` to the Discord user `issued_to`
/// for the account `user` (`None` where encryption fails).
pub open spec fn spec_token(key: Seq<u8>, ts: Seq<char>, issued_to: u64, user: Seq<char>) -> Option<
    Seq<char>,
> {
    spec_text_encrypt(key, token_payload(ts, decimal(issued_to as nat), user))
}

/// `s.splitn(3, ',')` when it has three parts: up to the first comma, up to
/// the second, and the rest.
pub open spec fn split_claims(s: Seq<char>) -> Option<(Seq<char>, Seq<char>, Seq<char>)> {
    match find_char(s, ',') {
        Some(i) => {
            let rest = s.skip(i + 1);
            match find_char(rest, ',') {
                Some(j) => Some((s.take(i), rest.take(j), rest.skip(j + 1))),
                None => None,
            }
        },
        None => None,
    }
}

/// The three claims a token holds: timestamp text, Discord id text, username.
pub open spec fn spec_read_token(key: Seq<u8>, token: Seq<char>) -> Option<
    (Seq<char>, Seq<char>, Seq<char>),
> {
    match spec_text_decrypt(key, token) {
        Some(p) => split_claims(p),
        None => None,
    }
}

/// The verdict on claims whose timestamp reads as `issued_at`, for the user
/// `user_id` at Unix time `now`.
pub open spec fn token_verdict(
    issued_at: i64,
    claimed_id: Seq<char>,
    user_id: u64,
    username: Seq<char>,
    now: i64,
) -> Result<Seq<char>, TokenError> {
    if claimed_id != decimal(user_id as nat) {
        Err(TokenError::DiscordIdMismatch)
    } else if now - issued_at > 300 {
        Err(TokenError::TokenExpired)
    } else {
        Ok(username)
    }
}

/// The verdict on a token: `None` where it is malformed (the token does
/// not decrypt, has fewer than three parts, or its timestamp does not parse).
pub open spec fn spec_parse_token(key: Seq<u8>, token: Seq<char>, user_id: u64, now: i64) -> Option<
    Result<Seq<char>, TokenError>,
> {
    match spec_read_token(key, token) {
        Some(c) => match spec_rfc3339_seconds(c.0) {
            Some(t) => Some(token_verdict(t, c.1, user_id, c.2, now)),
            None => None,
        },
        None => None,
    }
}

/// Whether a token decrypts to three claims whose timestamp parses.
pub open spec fn token_well_formed(key: Seq<u8>, token: Seq<char>) -> bool {
    match spec_read_token(key, token) {
        Some(c) => spec_rfc3339_seconds(c.0) is Some,
        None => false,
    }
}

/// The verdict on a token issued at second `issued_at` to `issued_to` for
/// the account `username`, presented by `user_id` at `now`.
pub open spec fn issued_verdict(
    issued_to: u64,
    issued_at: i64,
    user_id: u64,
    username: Seq<char>,
    now: i64,
) -> Result<Seq<char>, TokenError> {
    if issued_to != user_id {
        Err(TokenError::DiscordIdMismatch)
    } else if now - issued_at > 300 {
        Err(TokenError::TokenExpired)
    } else {
        Ok(username)
    }
}

/// Whether `token`, presented by any Discord user at any second, gets the
/// verdict on a token issued at second `issued_at` to `issued_to` for the
/// account `user`.
pub open spec fn verifies_as_issued(
    key: Seq<u8>,
    token: Seq<char>,
    issued_to: u64,
    issued_at: i64,
    user: Seq<char>,
) -> bool {
    forall|presenter: u64, now: i64| #[trigger]
        spec_parse_token(key, token, presenter, now) == Some(
            issued_verdict(issued_to, issued_at, presenter, user, now),
        )
}

/// A token that decrypts to the claims of `issued_to` and `user` at a
/// comma-free timestamp that reads as second `issued_at` gets, whoever
/// presents it and whenever, the verdict on a token so issued: accepted for
/// `issued_to` up to 300 seconds after `issued_at` (or before it), expired
/// after that, and refused for anyone else at any time. The account name
/// may hold commas.
pub proof fn lemma_issued_token_verifies(
    key: Seq<u8>,
    token: Seq<char>,
    ts: Seq<char>,
    issued_at: i64,
    issued_to: u64,
    user: Seq<char>,
)
    requires
        spec_text_decrypt(key, token) == Some(token_payload(ts, decimal(issued_to as nat), user)),
        !has_char(ts, ','),
        spec_rfc3339_seconds(ts) == Some(issued_at),
    ensures
        verifies_as_issued(key, token, issued_to, issued_at, user),
{
    lemma_no_comma_in_decimal(issued_to as nat);
    lemma_split_payload(ts, decimal(issued_to as nat), user);
    assert forall|presenter: u64, now: i64|
        #[trigger] spec_parse_token(key, token, presenter, now) == Some(
            issued_verdict(issued_to, issued_at, presenter, user, now),
        ) by {
        if decimal(issued_to as nat) == decimal(presenter as nat) {
            lemma_decimal_injective(issued_to as nat, presenter as nat);
        }
    }
}

/// The token issued at the instant `secs` seconds and `nanos` nanoseconds
/// after 1970 (before it, for negative `secs`): stamped with that instant's
/// RFC 3339 rendering; `None` where the instant has no rendering or
/// encryption fails.
pub open spec fn issued_token(
    key: Seq<u8>,
    secs: i64,
    nanos: u32,
    issued_to: u64,
    user: Seq<char>,
) -> Option<Seq<char>> {
    match spec_rfc3339(secs, nanos) {
        Some(ts) => spec_token(key, ts, issued_to, user),
        None => None,
    }
}

/// The instant a clock reading stands for, in seconds (negative before
/// 1970) and nanoseconds within the second; seconds beyond what an `i64`
/// holds are held at its bounds.
pub open spec fn reading_instant(after: bool, secs: u64, nanos: u32) -> (i64, u32) {
    if after {
        if secs > i64::MAX {
            (i64::MAX, nanos)
        } else {
            (secs as i64, nanos)
        }
    } else if nanos == 0 {
        if secs > i64::MAX {
            (i64::MIN, 0)
        } else {
            ((-(secs as int)) as i64, 0)
        }
    } else if secs >= i64::MAX {
        (i64::MIN, (1_000_000_000 - nanos) as u32)
    } else {
        ((-(secs as int) - 1) as i64, (1_000_000_000 - nanos) as u32)
    }
}

/// The instant of a clock reading (`after` 1970 or not, whole seconds from
/// 1970, nanoseconds beyond them).
pub fn instant_of_reading(after: bool, secs: u64, nanos: u32) -> (r: (i64, u32))
    requires
        nanos < 1_000_000_000,
    ensures
        r == reading_instant(after, secs, nanos),
        r.1 < 1_000_000_000,
{
    if after {
        if secs > 0x7fff_ffff_ffff_ffff {
            (0x7fff_ffff_ffff_ffff, nanos)
        } else {
            (secs as i64, nanos)
        }
    } else if nanos == 0 {
        if secs > 0x7fff_ffff_ffff_ffff {
            (-0x8000_0000_0000_0000, 0)
        } else {
            (0 - (secs as i64), 0)
        }
    } else if secs >= 0x7fff_ffff_ffff_ffff {
        (-0x8000_0000_0000_0000, 1_000_000_000 - nanos)
    } else {
        (0 - (secs as i64) - 1, 1_000_000_000 - nanos)
    }
}

pub open spec fn verdict_view(r: Result<String, TokenError>) -> Result<Seq<char>, TokenError> {
    match r {
        Ok(s) => Ok(s@),
        Err(e) => Err(e),
    }
}

pub open spec fn claims_view(r: Option<(String, String, String)>) -> Option<
    (Seq<char>, Seq<char>, Seq<char>),
> {
    match r {
        Some(c) => Some((c.0@, c.1@, c.2@)),
        None => None,
    }
}

/// The claims of a payload built from a timestamp and an id without commas
/// are read back as they were written.
pub proof fn lemma_split_payload(ts: Seq<char>, id: Seq<char>, user: Seq<char>)
    requires
        !has_char(ts, ','),
        !has_char(id, ','),
    ensures
        split_claims(token_payload(ts, id, user)) == Some((ts, id, user)),
{
    let s = token_payload(ts, id, user);
    let tail = id + seq![','] + user;
    assert(s =~= ts + seq![','] + tail);
    lemma_find_char_concat(ts, ',', tail);
    let rest = s.skip(ts.len() as int + 1);
    assert(rest =~= tail);
    lemma_find_char_concat(id, ',', user);
    assert(s.take(ts.len() as int) =~= ts);
    assert(rest.take(id.len() as int) =~= id);
    assert(rest.skip(id.len() as int + 1) =~= user);
}

/// `splitn(3, ',')` of a text, when it yields three parts.
pub fn split_claims_str(s: &str) -> (r: Option<(String, String, String)>)
    ensures
        claims_view(r) == split_claims(s@),
{
    let (first, rest) = split_once_char(s, ',');
    match rest {
        None => None,
        Some(rest) => {
            let (second, third) = split_once_char(rest.as_str(), ',');
            match third {
                None => None,
                Some(third) => Some((first, second, third)),
            }
        },
    }
}

/// The text a token for `discord_id` and `username` at timestamp text
/// `timestamp` encrypts.
pub fn token_payload_text(timestamp: &str, discord_id: u64, username: &str) -> (r: String)
    ensures
        r@ == token_payload(timestamp@, decimal(discord_id as nat), username@),
{
    let id = u64_to_decimal(discord_id);
    let mut s = cat3(timestamp, ",", id.as_str());
    s.append(",");
    s.append(username);
    proof {
        reveal_strlit(",");
    }
    s
}

/// The token for `discord_id` and `username` at timestamp text `timestamp`;
/// `None` where encryption fails.
pub fn generate_token_at(key: &TokenKey, timestamp: &str, discord_id: u64, username: &str) -> (r:
    Option<String>)
    ensures
        match r {
            Some(t) => spec_token(key@, timestamp@, discord_id, username@) == Some(t@),
            None => spec_token(key@, timestamp@, discord_id, username@) is None,
        },
        r matches Some(t) ==> spec_text_decrypt(key@, t@) == Some(
            token_payload(timestamp@, decimal(discord_id as nat), username@),
        ),
{
    let payload = token_payload_text(timestamp, discord_id, username);
    text_encrypt(key, payload.as_str())
}

/// The token for `discord_id` and `username` stamped with the instant `secs`
/// seconds and `nanos` nanoseconds after 1970; `None` where that instant has
/// no rendering or encryption fails.
pub fn generate_token_at_instant(
    key: &TokenKey,
    secs: i64,
    nanos: u32,
    discord_id: u64,
    username: &str,
) -> (r: Option<String>)
    ensures
        opt_text(r) == issued_token(key@, secs, nanos, discord_id, username@),
        r matches Some(t) ==> (0 <= secs <= last_four_digit_year_second() && nanos < 1_000_000_000
            ==> verifies_as_issued(key@, t@, discord_id, secs, username@)),
{
    match rfc3339_at(secs, nanos) {
        Some(ts) => {
            let r = generate_token_at(key, ts.as_str(), discord_id, username);
            proof {
                if r is Some && 0 <= secs <= last_four_digit_year_second() && nanos
                    < 1_000_000_000 {
                    lemma_issued_token_verifies(key@, r->0@, ts@, secs, discord_id, username@);
                }
            }
            r
        },
        None => None,
    }
}

/// A token for `discord_id` and `username`, stamped with the instant the
/// clock reads; `None` where that instant has no rendering or encryption
/// fails.
pub fn generate_token(key: &TokenKey, discord_id: u64, username: &str) -> (r: Option<String>)
    ensures
        exists|secs: i64, nanos: u32|
            nanos < 1_000_000_000 && opt_text(r) == #[trigger] issued_token(
                key@,
                secs,
                nanos,
                discord_id,
                username@,
            ) && (r matches Some(t) ==> (0 <= secs <= last_four_digit_year_second()
                ==> verifies_as_issued(key@, t@, discord_id, secs, username@))),
{
    let (after, s, n) = clock_reading();
    let (secs, nanos) = instant_of_reading(after, s, n);
    generate_token_at_instant(key, secs, nanos, discord_id, username)
}

/// The three claims of a token; `None` where it does not decrypt or has
/// fewer than three parts. A token issued with a timestamp text without
/// commas is read back as it was issued.
pub fn read_token(key: &TokenKey, token: &str) -> (r: Option<(String, String, String)>)
    ensures
        claims_view(r) == spec_read_token(key@, token@),
        forall|ts: Seq<char>, issued_to: u64, user: Seq<char>|
            !has_char(ts, ',') && #[trigger] spec_token(key@, ts, issued_to, user) == Some(token@)
                ==> claims_view(r) == Some((ts, decimal(issued_to as nat), user)),
{
    let r = match text_decrypt(key, token) {
        Some(p) => split_claims_str(p.as_str()),
        None => None,
    };
    proof {
        assert forall|ts: Seq<char>, issued_to: u64, user: Seq<char>|
            !has_char(ts, ',') && #[trigger] spec_token(key@, ts, issued_to, user) == Some(
                token@,
            ) implies claims_view(r) == Some((ts, decimal(issued_to as nat), user)) by {
            let payload = token_payload(ts, decimal(issued_to as nat), user);
            assert(spec_text_encrypt(key@, payload) == Some(token@));
            lemma_no_comma_in_decimal(issued_to as nat);
            lemma_split_payload(ts, decimal(issued_to as nat), user);
        }
    }
    r
}

/// The verdict on `token` presented by `discord_id` at Unix time `now`;
/// `None` where the token is malformed. A token issued to `issued_to` for
/// `user` at a comma-free timestamp text that parses gets the verdict
/// `issued_verdict`: accepted for its own user within 300 seconds of the
/// second the timestamp reads as.
pub fn parse_token_at(key: &TokenKey, discord_id: u64, token: &str, now: i64) -> (r: Option<
    Result<String, TokenError>,
>)
    ensures
        match r {
            Some(v) => spec_parse_token(key@, token@, discord_id, now) == Some(verdict_view(v)),
            None => spec_parse_token(key@, token@, discord_id, now) is None,
        },
        forall|ts: Seq<char>, issued_to: u64, user: Seq<char>|
            !has_char(ts, ',') && spec_rfc3339_seconds(ts) is Some && #[trigger] spec_token(
                key@,
                ts,
                issued_to,
                user,
            ) == Some(token@) ==> (r matches Some(v) && verdict_view(v) == issued_verdict(
                issued_to,
                spec_rfc3339_seconds(ts)->0,
                discord_id,
                user,
                now,
            )),
{
    let r = match read_token(key, token) {
        None => None,
        Some((ts, claimed, user)) => match rfc3339_seconds(ts.as_str()) {
            None => None,
            Some(t) => {
                let id = u64_to_decimal(discord_id);
                if !str_eq(claimed.as_str(), id.as_str()) {
                    Some(Err(TokenError::DiscordIdMismatch))
                } else if (now as i128) - (t as i128) > 300 {
                    Some(Err(TokenError::TokenExpired))
                } else {
                    Some(Ok(user))
                }
            },
        },
    };
    proof {
        assert forall|ts: Seq<char>, issued_to: u64, user: Seq<char>|
            !has_char(ts, ',') && spec_rfc3339_seconds(ts) is Some && #[trigger] spec_token(
                key@,
                ts,
                issued_to,
                user,
            ) == Some(token@) implies (r matches Some(v) && verdict_view(v) == issued_verdict(
            issued_to,
            spec_rfc3339_seconds(ts)->0,
            discord_id,
            user,
            now,
        )) by {
            if decimal(issued_to as nat) == decimal(discord_id as nat) {
                lemma_decimal_injective(issued_to as nat, discord_id as nat);
            }
        }
    }
    r
}

/// The verdict on a well-formed `token` presented by `discord_id` at the
/// second of the clock reading (`after` 1970 or not, whole seconds from it,
/// nanoseconds beyond them).
pub fn parse_token_at_reading(
    key: &TokenKey,
    discord_id: u64,
    token: &str,
    after: bool,
    secs: u64,
    nanos: u32,
) -> (r: Result<String, TokenError>)
    requires
        token_well_formed(key@, token@),
        nanos < 1_000_000_000,
    ensures
        spec_parse_token(key@, token@, discord_id, reading_instant(after, secs, nanos).0) == Some(
            verdict_view(r),
        ),
{
    let (now, _nanos) = instant_of_reading(after, secs, nanos);
    match parse_token_at(key, discord_id, token, now) {
        Some(v) => v,
        None => Err(TokenError::TokenExpired),
    }
}

/// The verdict on a well-formed `token` presented by `discord_id` at the
/// second the clock reads (before 1970, a negative second).
pub fn parse_token(key: &TokenKey, discord_id: u64, token: &str) -> (r: Result<String, TokenError>)
    requires
        token_well_formed(key@, token@),
    ensures
        exists|after: bool, secs: u64, nanos: u32|
            nanos < 1_000_000_000 && #[trigger] spec_parse_token(
                key@,
                token@,
                discord_id,
                reading_instant(after, secs, nanos).0,
            ) == Some(verdict_view(r)),
        exists|now: i64|
            #[trigger] spec_parse_token(key@, token@, discord_id, now) == Some(verdict_view(r)),
{
    let (after, s, n) = clock_reading();
    parse_token_at_reading(key, discord_id, token, after, s, n)
}

/// The verdict on `token` presented by `discord_id` now; `None` where the
/// token is malformed.
pub fn try_parse_token(key: &TokenKey, discord_id: u64, token: &str) -> (r: Option<
    Result<String, TokenError>,
>)
    ensures
        r is None <==> !token_well_formed(key@, token@),
        r matches Some(v) ==> exists|now: i64|
            #[trigger] spec_parse_token(key@, token@, discord_id, now) == Some(verdict_view(v)),
{
    match read_token(key, token) {
        None => None,
        Some((ts, _claimed, _user)) => match rfc3339_seconds(ts.as_str()) {
            None => None,
            Some(_) => Some(parse_token(key, discord_id, token)),
        },
    }
}

/// A token that verifies as issued to `issued_to` at second `issued_at` is
/// refused for any other Discord user whatever its age; for its own user it
/// is accepted up to 300 seconds (five minutes) after `issued_at`, and at any
/// earlier second, and expired once more than 300 seconds have passed.
pub proof fn lemma_issued_verdicts(
    key: Seq<u8>,
    token: Seq<char>,
    issued_to: u64,
    issued_at: i64,
    user: Seq<char>,
    presenter: u64,
    now: i64,
)
    requires
        verifies_as_issued(key, token, issued_to, issued_at, user),
    ensures
        presenter != issued_to ==> spec_parse_token(key, token, presenter, now) == Some(
            Err::<Seq<char>, TokenError>(TokenError::DiscordIdMismatch),
        ),
        presenter == issued_to && now <= issued_at + 300 ==> spec_parse_token(
            key,
            token,
            presenter,
            now,
        ) == Some(Ok::<Seq<char>, TokenError>(user)),
        presenter == issued_to && now > issued_at + 300 ==> spec_parse_token(
            key,
            token,
            presenter,
            now,
        ) == Some(Err::<Seq<char>, TokenError>(TokenError::TokenExpired)),
{
    assert(spec_parse_token(key, token, presenter, now) == Some(
        issued_verdict(issued_to, issued_at, presenter, user, now),
    ));
}

/// The instant of a clock reading is the reading's signed distance from
/// 1970: its seconds times a billion plus its nanoseconds give the
/// distance in nanoseconds, positive after 1970 and negative before, with
/// the nanoseconds below a second.
pub proof fn lemma_reading_instant(after: bool, secs: u64, nanos: u32)
    requires
        nanos < 1_000_000_000,
        secs < i64::MAX,
    ensures
        reading_instant(after, secs, nanos).1 < 1_000_000_000,
        after ==> reading_instant(after, secs, nanos).0 * 1_000_000_000int + reading_instant(
            after,
            secs,
            nanos,
        ).1 == secs * 1_000_000_000int + nanos,
        !after ==> reading_instant(after, secs, nanos).0 * 1_000_000_000int + reading_instant(
            after,
            secs,
            nanos,
        ).1 == -(secs * 1_000_000_000int + nanos),
{
    let r = reading_instant(after, secs, nanos);
    if after {
        assert(r.0 == secs && r.1 == nanos);
    } else if nanos == 0 {
        assert(r.0 == -(secs as int) && r.1 == 0);
    } else {
        assert(r.0 == -(secs as int) - 1 && r.1 == 1_000_000_000 - nanos);
    }
}

} // verus!
