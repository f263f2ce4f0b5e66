use vstd::prelude::*;

use crate::crypto::{base32_decoded, decode_base32, hmac_sha1, hmac_sha1_of};
use crate::error::TotpError;

verus! {

/// Length of one time step, in seconds.
pub const STEP_SECONDS: u64 = 30;

/// Seconds left in the time step that contains `now`.
pub open spec fn seconds_left(now: u64) -> int {
    STEP_SECONDS - (now % STEP_SECONDS) as int
}

/// The eight bytes of `x`, most significant first.
pub open spec fn be_bytes(x: u64) -> Seq<u8> {
    seq![
        (x >> 56) as u8,
        (x >> 48) as u8,
        (x >> 40) as u8,
        (x >> 32) as u8,
        (x >> 24) as u8,
        (x >> 16) as u8,
        (x >> 8) as u8,
        x as u8,
    ]
}

/// Where dynamic truncation reads: the low four bits of byte 19.
pub open spec fn truncation_offset(d: Seq<u8>) -> int {
    (d[19] & 0x0f) as int
}

/// Dynamic truncation: four bytes from the offset, big-endian, top bit cleared.
pub open spec fn truncated_value(d: Seq<u8>) -> int {
    let o = truncation_offset(d);
    (d[o] & 0x7f) as int * 0x1000000 + d[o + 1] as int * 0x10000 + d[o + 2] as int * 0x100
        + d[o + 3] as int
}

/// The decimal digit `k` (0 to 9) as a character.
pub open spec fn digit_char(k: int) -> char {
    if k == 0 {
        '0'
    } else if k == 1 {
        '1'
    } else if k == 2 {
        '2'
    } else if k == 3 {
        '3'
    } else if k == 4 {
        '4'
    } else if k == 5 {
        '5'
    } else if k == 6 {
        '6'
    } else if k == 7 {
        '7'
    } else if k == 8 {
        '8'
    } else {
        '9'
    }
}

/// The last six decimal digits of `n`, zero-padded on the left.
pub open spec fn six_digits(n: int) -> Seq<char> {
    seq![
        digit_char((n / 100000) % 10),
        digit_char((n / 10000) % 10),
        digit_char((n / 1000) % 10),
        digit_char((n / 100) % 10),
        digit_char((n / 10) % 10),
        digit_char(n % 10),
    ]
}

/// The six-digit code that an HMAC-SHA1 digest stands for.
pub open spec fn code_text(d: Seq<u8>) -> Seq<char> {
    six_digits(truncated_value(d) % 1_000_000)
}

/// The 8-byte big-endian counter for the time step that holds `now`.
pub fn step_counter(now: u64) -> (r: [u8; 8])
    ensures
        r@ == be_bytes(now / STEP_SECONDS),
{
    let step = now / STEP_SECONDS;
    let r = [
        (step >> 56) as u8,
        (step >> 48) as u8,
        (step >> 40) as u8,
        (step >> 32) as u8,
        (step >> 24) as u8,
        (step >> 16) as u8,
        (step >> 8) as u8,
        step as u8,
    ];
    assert(r@ =~= be_bytes(step));
    r
}

/// Dynamic truncation of a 20-byte HMAC-SHA1 digest to a 31-bit integer.
pub fn truncate(digest: &[u8]) -> (r: u32)
    requires
        digest@.len() == 20,
    ensures
        r == truncated_value(digest@),
        r < 0x80000000,
{
    let last = digest[19];
    let offset = (last & 0x0f) as usize;
    assert(last & 0x0f <= 15) by (bit_vector);
    let first = digest[offset];
    let b0 = first & 0x7f;
    assert(first & 0x7f <= 0x7f) by (bit_vector);
    let b1 = digest[offset + 1];
    let b2 = digest[offset + 2];
    let b3 = digest[offset + 3];
    (b0 as u32) * 0x1000000 + (b1 as u32) * 0x10000 + (b2 as u32) * 0x100 + (b3 as u32)
}

/// The text of one decimal digit.
fn digit_str(k: u32) -> (r: &'static str)
    requires
        k < 10,
    ensures
        r@ == seq![digit_char(k as int)],
{
    proof {
        reveal_strlit("0");
        reveal_strlit("1");
        reveal_strlit("2");
        reveal_strlit("3");
        reveal_strlit("4");
        reveal_strlit("5");
        reveal_strlit("6");
        reveal_strlit("7");
        reveal_strlit("8");
        reveal_strlit("9");
    }
    match k {
        0 => "0",
        1 => "1",
        2 => "2",
        3 => "3",
        4 => "4",
        5 => "5",
        6 => "6",
        7 => "7",
        8 => "8",
        _ => "9",
    }
}

/// `value` as exactly six decimal digits, zero-padded (7 gives "000007").
pub fn format_code(value: u32) -> (r: String)
    requires
        value < 1_000_000,
    ensures
        r@ == six_digits(value as int),
{
    let mut out = String::new();
    out.append(digit_str(value / 100000 % 10));
    out.append(digit_str(value / 10000 % 10));
    out.append(digit_str(value / 1000 % 10));
    out.append(digit_str(value / 100 % 10));
    out.append(digit_str(value / 10 % 10));
    out.append(digit_str(value % 10));
    assert(out@ =~= six_digits(value as int));
    out
}

/// The six-digit code for a 20-byte HMAC-SHA1 digest.
pub fn code_from_digest(digest: &[u8]) -> (r: String)
    requires
        digest@.len() == 20,
    ensures
        r@ == code_text(digest@),
{
    let value = truncate(digest);
    format_code(value % 1_000_000)
}

/// What `Totp::generate_code` yields for the secret text `secret` at `now`.
pub open spec fn totp_code(secret: Seq<char>, now: u64) -> Result<Seq<char>, TotpError> {
    match base32_decoded(secret) {
        None => Err(TotpError::InvalidSecret),
        Some(key) => match hmac_sha1_of(key, be_bytes(now / STEP_SECONDS)) {
            None => Err(TotpError::InvalidKey),
            Some(d) => Ok(code_text(d)),
        },
    }
}

/// The code depends on nothing but the secret and the time step: two
/// instants in the same 30-second window give the same outcome.
pub proof fn lemma_code_fixed_within_step(secret: Seq<char>, t1: u64, t2: u64)
    requires
        t1 / STEP_SECONDS == t2 / STEP_SECONDS,
    ensures
        totp_code(secret, t1) == totp_code(secret, t2),
{
}

/// A site's shared secret, as Base32 text.
#[derive(Clone)]
pub struct Totp {
    secret: String,
}

impl View for Totp {
    type V = Seq<char>;

    closed spec fn view(&self) -> Seq<char> {
        self.secret@
    }
}

impl Totp {
    pub fn new(secret: String) -> (r: Self)
        ensures
            r@ == secret@,
    {
        Self { secret }
    }

    /// The six-digit code for the time step that holds `now` (Unix seconds).
    pub fn generate_code(&self, now: u64) -> (r: Result<String, TotpError>)
        ensures
            match r {
                Ok(c) => totp_code(self@, now) == Ok::<Seq<char>, TotpError>(c@),
                Err(e) => totp_code(self@, now) == Err::<Seq<char>, TotpError>(e),
            },
    {
        let key = match decode_base32(self.secret.as_str()) {
            Some(k) => k,
            None => return Err(TotpError::InvalidSecret),
        };
        let counter = step_counter(now);
        let digest = match hmac_sha1(key.as_slice(), &counter) {
            Ok(d) => d,
            Err(_) => return Err(TotpError::InvalidKey),
        };
        Ok(code_from_digest(digest.as_slice()))
    }

    /// Seconds until the code for `now` (Unix seconds) expires; a fresh window
    /// counts as a full 30, never as 0.
    pub fn remaining_seconds(now: u64) -> (r: u64)
        ensures
            r == seconds_left(now),
            1 <= r <= STEP_SECONDS,
            r == STEP_SECONDS <==> now % STEP_SECONDS == 0,
    {
        STEP_SECONDS - now % STEP_SECONDS
    }
}

} // verus!
