//! Primitives that the privacy layer takes from outside crates and from std:
//! SHA-256, lower-case hex, ChaCha20Poly1305, randomness, the wall clock and
//! UTF-8 decoding. Every function here is a trusted boundary; its doc comment
//! says what its contract claims of the code it calls.
use vstd::prelude::*;
use vstd::utf8::*;
use sha2::Digest;
use rand::RngCore;
use chacha20poly1305::aead::{Aead, KeyInit};

verus! {

/// The SHA-256 digest of a byte string (FIPS 180-4), as computed by `sha2`.
pub uninterp spec fn sha256_spec(data: Seq<u8>) -> Seq<u8>;

/// Calls `sha2::Sha256::digest`. Claimed: the 32-byte result is the SHA-256
/// digest of `data`, a function of `data` alone.
#[verifier::external_body]
pub(crate) fn sha256(data: &[u8]) -> (res: [u8; 32])
    ensures
        res@ == sha256_spec(data@),
{
    sha2::Sha256::digest(data).into()
}

/// The lower-case hexadecimal digit for a value below 16.
pub open spec fn hex_digit(v: u8) -> char {
    if v < 10 {
        ((v + 48) as u8) as char
    } else {
        ((v + 87) as u8) as char
    }
}

/// Two lower-case hex digits per byte, high nibble first.
pub open spec fn hex_lower(data: Seq<u8>) -> Seq<char>
    decreases data.len(),
{
    if data.len() == 0 {
        Seq::empty()
    } else {
        seq![hex_digit(data[0] / 16), hex_digit(data[0] % 16)] + hex_lower(data.drop_first())
    }
}

/// Hex strings are ASCII and two characters per byte.
pub proof fn lemma_hex_lower_shape(data: Seq<u8>)
    ensures
        hex_lower(data).len() == 2 * data.len(),
        is_ascii_chars(hex_lower(data)),
        encode_utf8(hex_lower(data)).len() == 2 * data.len(),
    decreases data.len(),
{
    if data.len() > 0 {
        lemma_hex_lower_shape(data.drop_first());
        let h = hex_lower(data);
        let t = hex_lower(data.drop_first());
        assert(h == seq![hex_digit(data[0] / 16), hex_digit(data[0] % 16)] + t);
        assert forall|i: int| 0 <= i < h.len() implies '\0' <= #[trigger] h[i] <= '\u{7f}' by {
            if i >= 2 {
                assert(h[i] == t[i - 2]);
            }
        }
    }
    is_ascii_chars_encode_utf8(hex_lower(data));
}

/// Calls `hex::encode`. Claimed (as its source shows, with the table
/// `0123456789abcdef`): two lower-case digits per byte, high nibble first.
#[verifier::external_body]
pub(crate) fn hex_encode(data: &[u8]) -> (res: String)
    ensures
        res@ == hex_lower(data@),
{
    hex::encode(data)
}

/// The ChaCha20Poly1305 sealing (RFC 8439, empty associated data) of
/// `plaintext` under `key` and `nonce`: ciphertext followed by the 16-byte tag.
pub uninterp spec fn chacha20poly1305_seal(key: Seq<u8>, nonce: Seq<u8>, plaintext: Seq<u8>) -> Seq<u8>;

/// The ChaCha20Poly1305 opening of `sealed` (ciphertext then tag) under `key`
/// and `nonce`: the plaintext, or `None` where the tag does not authenticate.
pub uninterp spec fn chacha20poly1305_open(key: Seq<u8>, nonce: Seq<u8>, sealed: Seq<u8>) -> Option<Seq<u8>>;

/// No 16-byte tag but `tag` opens `ciphertext` under `key` and `nonce`.
pub open spec fn tag_is_unique(key: Seq<u8>, nonce: Seq<u8>, ciphertext: Seq<u8>, tag: Seq<u8>) -> bool {
    forall|t: Seq<u8>|
        t.len() == 16 && #[trigger] chacha20poly1305_open(key, nonce, ciphertext + t) is Some ==> t == tag
}

/// Calls `Aead::encrypt` of `chacha20poly1305::ChaCha20Poly1305`.
/// Claimed, as the crate's source shows: it fails exactly when the plaintext
/// spans `u32::MAX` blocks of 64 bytes or more; otherwise the result is the
/// sealing of `plaintext`, 16 bytes longer than it, and opening it under the
/// same key and nonce gives the plaintext back (AEAD correctness); and no
/// 16-byte tag but the one made here opens the ciphertext made here, since
/// decryption takes the last 16 bytes as the tag, recomputes the Poly1305
/// tag from key, nonce and the bytes before it alone, and accepts only that
/// tag. Nothing is claimed of inputs whose split falls elsewhere.
#[verifier::external_body]
pub(crate) fn chacha20poly1305_encrypt(key: &[u8; 32], nonce: &[u8; 12], plaintext: &[u8]) -> (res: Option<Vec<u8>>)
    requires
        plaintext@.len() + 16 <= isize::MAX,
    ensures
        res is Some <==> plaintext@.len() / 64 < u32::MAX,
        res matches Some(c) ==> {
            &&& c@ == chacha20poly1305_seal(key@, nonce@, plaintext@)
            &&& c@.len() == plaintext@.len() + 16
            &&& chacha20poly1305_open(key@, nonce@, c@) == Some(plaintext@)
            &&& tag_is_unique(
                key@,
                nonce@,
                c@.subrange(0, plaintext@.len() as int),
                c@.subrange(plaintext@.len() as int, c@.len() as int),
            )
        },
{
    let cipher = chacha20poly1305::ChaCha20Poly1305::new(chacha20poly1305::Key::from_slice(key));
    cipher.encrypt(chacha20poly1305::Nonce::from_slice(nonce), plaintext).ok()
}

/// Calls `Aead::decrypt` of `chacha20poly1305::ChaCha20Poly1305`.
/// Claimed: the result is the opening of `sealed` under `key` and `nonce`
/// (`None` where the tag does not authenticate). That a forged input is
/// refused is not stated: it rests on the cipher's security, not on code.
#[verifier::external_body]
pub(crate) fn chacha20poly1305_decrypt(key: &[u8; 32], nonce: &[u8; 12], sealed: &[u8]) -> (res: Option<Vec<u8>>)
    ensures
        match res {
            Some(p) => chacha20poly1305_open(key@, nonce@, sealed@) == Some(p@),
            None => chacha20poly1305_open(key@, nonce@, sealed@) is None,
        },
{
    let cipher = chacha20poly1305::ChaCha20Poly1305::new(chacha20poly1305::Key::from_slice(key));
    cipher.decrypt(chacha20poly1305::Nonce::from_slice(nonce), sealed).ok()
}

/// Calls `rand::thread_rng().fill_bytes` on a fresh buffer of `n` bytes.
/// Claimed: `n` bytes come back; what they hold is chance.
#[verifier::external_body]
pub(crate) fn random_bytes(n: usize) -> (res: Vec<u8>)
    ensures
        res@.len() == n,
{
    let mut buf = vec![0u8; n];
    rand::thread_rng().fill_bytes(&mut buf);
    buf
}

/// Calls `rand::random::<u64>()`. Nothing is claimed of the value.
#[verifier::external_body]
pub(crate) fn random_u64() -> (res: u64) {
    rand::random::<u64>()
}

/// Seconds since the Unix epoch from `std::time::SystemTime::now`, or `None`
/// where the clock stands before the epoch. Nothing is claimed of the value.
#[verifier::external_body]
pub(crate) fn unix_time_secs() -> (res: Option<u64>) {
    std::time::SystemTime::now().duration_since(std::time::UNIX_EPOCH).ok().map(|d| d.as_secs())
}

/// Nanoseconds since the Unix epoch from `std::time::SystemTime::now`, or
/// `None` where the clock stands before the epoch. Nothing is claimed of the
/// value.
#[verifier::external_body]
pub(crate) fn unix_time_nanos() -> (res: Option<u128>) {
    std::time::SystemTime::now().duration_since(std::time::UNIX_EPOCH).ok().map(|d| d.as_nanos())
}

/// `std::time::Instant`, carried through without looking inside.
#[verifier::external_type_specification]
#[verifier::external_body]
pub struct ExInstant(std::time::Instant);

/// Calls `std::time::Instant::now`. Nothing is claimed of the value.
#[verifier::external_body]
pub(crate) fn instant_now() -> (res: std::time::Instant) {
    std::time::Instant::now()
}

/// Calls `Instant::elapsed`. Nothing is claimed of the value.
#[verifier::external_body]
pub(crate) fn instant_elapsed(start: &std::time::Instant) -> (res: std::time::Duration) {
    start.elapsed()
}

/// `Clone` of `std::time::Duration`. Claimed: the copy equals the
/// original, as for every `Copy` type of std.
pub assume_specification[ <std::time::Duration as Clone>::clone ](d: &std::time::Duration) -> (res: std::time::Duration)
    ensures
        res == *d,
;

/// Calls `Duration::as_nanos`. Nothing is claimed of the value, as the
/// duration is opaque here.
#[verifier::external_body]
pub(crate) fn duration_nanos(d: &std::time::Duration) -> (res: u128) {
    d.as_nanos()
}

/// Whole milliseconds in `nanos` nanoseconds, rounded up.
pub open spec fn millis_rounded_up(nanos: u128) -> int {
    nanos / 1_000_000 + if nanos % 1_000_000 == 0 {
        0int
    } else {
        1int
    }
}

/// The whole milliseconds passed since `start`, rounded up, so that a
/// time that passed at all counts as at least one millisecond.
pub(crate) fn elapsed_millis_rounded_up(start: &std::time::Instant) -> (res: u128)
    ensures
        exists|nanos: u128| res == #[trigger] millis_rounded_up(nanos),
{
    let d = instant_elapsed(start);
    let nanos = duration_nanos(&d);
    let whole = nanos / 1_000_000;
    let res = if nanos % 1_000_000 == 0 {
        whole
    } else {
        whole + 1
    };
    assert(res == millis_rounded_up(nanos));
    res
}

/// Calls `Duration::as_millis`. Nothing is claimed of the value, as the
/// duration is opaque here.
#[verifier::external_body]
pub(crate) fn duration_millis(d: &std::time::Duration) -> (res: u128) {
    d.as_millis()
}

/// Calls `Duration::from_millis`. Nothing is claimed of the value, which
/// is opaque here.
#[verifier::external_body]
pub(crate) fn duration_from_millis(ms: u64) -> (res: std::time::Duration) {
    std::time::Duration::from_millis(ms)
}

/// Calls `Instant::duration_since`, which gives zero where `earlier` is
/// later. Nothing is claimed of the value.
#[verifier::external_body]
pub(crate) fn instant_duration_since(now: &std::time::Instant, earlier: &std::time::Instant) -> (res: std::time::Duration) {
    now.duration_since(*earlier)
}

/// Compares two durations with `<`. Nothing is claimed of the answer, as
/// the durations are opaque here.
#[verifier::external_body]
pub(crate) fn duration_lt(a: &std::time::Duration, b: &std::time::Duration) -> (res: bool) {
    *a < *b
}

/// Compares two instants with `<`. Nothing is claimed of the answer, as
/// the instants are opaque here.
#[verifier::external_body]
pub(crate) fn instant_lt(a: &std::time::Instant, b: &std::time::Instant) -> (res: bool) {
    *a < *b
}

/// Formats a duration with `format!("{:?}", d)`. Nothing is claimed of the
/// text, which std leaves to its `Debug` implementation.
#[verifier::external_body]
pub(crate) fn format_duration_debug(d: &std::time::Duration) -> (res: String) {
    format!("{:?}", d)
}

/// Calls `Duration::from_secs`. Nothing is claimed of the value, which is
/// opaque here.
#[verifier::external_body]
pub(crate) fn duration_from_secs(secs: u64) -> (res: std::time::Duration) {
    std::time::Duration::from_secs(secs)
}

/// Calls `String::from_utf8`. Claimed, as std documents: it succeeds exactly on
/// valid UTF-8, and the string holds the decoded characters.
#[verifier::external_body]
pub(crate) fn string_from_utf8(bytes: Vec<u8>) -> (res: Option<String>)
    ensures
        res is Some <==> valid_utf8(bytes@),
        res matches Some(s) ==> s@ == decode_utf8(bytes@),
{
    String::from_utf8(bytes).ok()
}

/// Calls `String::push`. Claimed, as std documents: the character is
/// appended.
#[verifier::external_body]
pub(crate) fn string_push(s: &mut String, c: char)
    ensures
        final(s)@ == old(s)@.push(c),
{
    s.push(c)
}

} // verus!
