use vstd::prelude::*;

verus! {

#[verifier::external_type_specification]
#[verifier::external_body]
pub struct ExInvalidLength(hmac::digest::InvalidLength);

/// The bytes that Base32 text (RFC 4648 alphabet, no padding expected)
/// decodes to, or `None` where it is not such text.
pub uninterp spec fn base32_decoded(s: Seq<char>) -> Option<Seq<u8>>;

/// The HMAC-SHA1 tag of `msg` under `key`, or `None` where the key is refused.
pub uninterp spec fn hmac_sha1_of(key: Seq<u8>, msg: Seq<u8>) -> Option<Seq<u8>>;

/// Relies on `base32::decode` with `Alphabet::Rfc4648 { padding: false }`:
/// the result depends on the text alone.
#[verifier::external_body]
pub(crate) fn decode_base32(s: &str) -> (r: Option<Vec<u8>>)
    ensures
        match r {
            Some(v) => base32_decoded(s@) == Some(v@),
            None => base32_decoded(s@) is None,
        },
{
    base32::decode(base32::Alphabet::Rfc4648 { padding: false }, s)
}

/// Relies on `hmac::Hmac::<sha1::Sha1>` (`new_from_slice`, `update`,
/// `finalize`): the tag depends on key and message alone and is SHA-1's
/// 20 bytes long.
#[verifier::external_body]
pub(crate) fn hmac_sha1(key: &[u8], msg: &[u8]) -> (r: Result<Vec<u8>, hmac::digest::InvalidLength>)
    ensures
        match r {
            Ok(d) => hmac_sha1_of(key@, msg@) == Some(d@) && d@.len() == 20,
            Err(_) => hmac_sha1_of(key@, msg@) is None,
        },
{
    let mut mac = match <hmac::Hmac<sha1::Sha1> as hmac::Mac>::new_from_slice(key) {
        Ok(m) => m,
        Err(e) => return Err(e),
    };
    hmac::Mac::update(&mut mac, msg);
    Ok(hmac::Mac::finalize(mac).into_bytes().to_vec())
}

} // verus!
