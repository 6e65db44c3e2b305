use vstd::prelude::*;
use crate::error::EmbedError;
use ark_bls12_381::Bls12_381;
use ark_groth16::VerifyingKey;
use ark_serialize::{CanonicalDeserialize, CanonicalSerialize, Compress, SerializationError, Valid, Validate};

verus! {

/// A Groth16 verifying key over BLS12-381, carried unopened from decoding to
/// checking and re-encoding. (`VerifyingKey<E: Pairing>` cannot be declared
/// to the verifier: its bound is a trait of another crate.)
#[verifier::external_body]
pub struct DecodedKey {
    key: VerifyingKey<Bls12_381>,
}

#[verifier::external_type_specification]
pub struct ExCompress(ark_serialize::Compress);

#[verifier::external_type_specification]
#[verifier::external_body]
pub struct ExSerializationError(ark_serialize::SerializationError);

/// What decoding a verifying key from the start of `raw` in the compressed
/// (`true`) or uncompressed (`false`) encoding gives: the key and the number
/// of bytes read, or nothing.
pub uninterp spec fn vk_decode(raw: Seq<u8>, compressed: bool) -> Option<(DecodedKey, nat)>;

/// Whether every point of the key lies on the curve and in the prime-order
/// subgroup.
pub uninterp spec fn key_valid(k: DecodedKey) -> bool;

/// The compressed encoding of the key.
pub uninterp spec fn key_compressed(k: DecodedKey) -> Seq<u8>;

/// Relies on `CanonicalDeserialize::deserialize_with_mode` of
/// `ark_groth16::VerifyingKey<Bls12_381>` read from an `ark_std::io::Cursor`:
/// the key and the cursor's position after it depend on the bytes and the
/// encoding alone, and a cursor never moves past its data.
#[verifier::external_body]
fn deserialize_vk(raw: &[u8], mode: Compress) -> (r: Result<(DecodedKey, usize), SerializationError>)
    ensures
        match r {
            Ok((k, n)) => vk_decode(raw@, mode is Yes) == Some((k, n as nat)) && n <= raw@.len(),
            Err(_) => vk_decode(raw@, mode is Yes) is None,
        },
{
    let mut cursor = ark_std::io::Cursor::new(raw);
    let key = VerifyingKey::<Bls12_381>::deserialize_with_mode(&mut cursor, mode, Validate::Yes)?;
    Ok((DecodedKey { key }, cursor.position() as usize))
}

/// Relies on the derived `Valid::check` of `ark_groth16::VerifyingKey`, which
/// checks every point with `Affine::check`: on the curve and in the subgroup.
#[verifier::external_body]
fn check_vk(k: &DecodedKey) -> (r: Result<(), SerializationError>)
    ensures
        r is Ok <==> key_valid(*k),
{
    k.key.check()
}

/// Relies on `CanonicalSerialize::serialize_with_mode` of
/// `ark_groth16::VerifyingKey<Bls12_381>` with `Compress::Yes` into a fresh
/// vector, which cannot fail; of a valid key, reading the bytes back in the
/// compressed encoding gives the same key and uses every byte.
#[verifier::external_body]
fn serialize_vk_compressed(k: &DecodedKey) -> (r: Result<Vec<u8>, SerializationError>)
    ensures
        r is Ok,
        r matches Ok(v) ==> v@ == key_compressed(*k),
        r matches Ok(v) ==> (key_valid(*k) ==> vk_decode(v@, true) == Some((*k, v@.len()))),
{
    let mut out = Vec::new();
    k.key.serialize_with_mode(&mut out, Compress::Yes).map(|_| out)
}

/// Whether `raw` is, as a whole, a valid key in the given encoding: it
/// decodes, every byte is used, and every point passes the check.
pub open spec fn vk_accepts(raw: Seq<u8>, compressed: bool) -> bool {
    match vk_decode(raw, compressed) {
        Some((k, n)) => n == raw.len() && key_valid(k),
        None => false,
    }
}

/// Whether `raw` holds a valid key in either supported encoding.
pub open spec fn vk_recognized(raw: Seq<u8>) -> bool {
    vk_accepts(raw, true) || vk_accepts(raw, false)
}

/// The key that `raw` holds: read as compressed where that is accepted, else
/// as uncompressed.
pub open spec fn vk_key(raw: Seq<u8>) -> DecodedKey {
    if vk_accepts(raw, true) {
        vk_decode(raw, true)->Some_0.0
    } else {
        vk_decode(raw, false)->Some_0.0
    }
}

/// The canonical bytes of a recognized key: its compressed encoding.
pub open spec fn vk_canonical(raw: Seq<u8>) -> Seq<u8> {
    key_compressed(vk_key(raw))
}

/// One attempt: the key decoded from the whole of `raw` in the given encoding
/// and checked, if there is one.
fn decode_whole(raw: &[u8], mode: Compress) -> (r: Option<DecodedKey>)
    ensures
        r is Some <==> vk_accepts(raw@, mode is Yes),
        r matches Some(k) ==> k == vk_decode(raw@, mode is Yes)->Some_0.0,
{
    match deserialize_vk(raw, mode) {
        Ok((k, n)) => {
            if n != raw.len() {
                return None;
            }
            match check_vk(&k) {
                Ok(()) => Some(k),
                Err(_) => None,
            }
        },
        Err(_) => None,
    }
}

/// Normalizes verifying-key bytes to the canonical compressed encoding: the
/// key is decoded, with full validation and no byte left over, as compressed
/// and else as uncompressed, and the decoded key is encoded afresh in
/// compressed form.
pub fn normalize_vk(raw: &[u8]) -> (r: Result<Vec<u8>, EmbedError>)
    ensures
        raw@.len() == 0 <==> r == Err::<Vec<u8>, EmbedError>(EmbedError::EmptyKey),
        (raw@.len() > 0 && !vk_recognized(raw@))
            <==> r == Err::<Vec<u8>, EmbedError>(EmbedError::UnrecognizedKeyFormat),
        (raw@.len() > 0 && vk_recognized(raw@)) <==> r is Ok,
        r matches Ok(v) ==> v@ == vk_canonical(raw@),
        r matches Ok(v) ==> vk_recognized(v@) && vk_canonical(v@) == v@,
{
    if raw.len() == 0 {
        return Err(EmbedError::EmptyKey);
    }
    let k = match decode_whole(raw, Compress::Yes) {
        Some(k) => k,
        None => match decode_whole(raw, Compress::No) {
            Some(k) => k,
            None => return Err(EmbedError::UnrecognizedKeyFormat),
        },
    };
    match serialize_vk_compressed(&k) {
        Ok(v) => {
            assert(vk_accepts(v@, true));
            Ok(v)
        },
        Err(_) => Err(EmbedError::SerializationFault),
    }
}

/// The two wire forms of one key normalize alike: where `kc` is accepted as
/// compressed, `ku` only as uncompressed, and both hold the same key, their
/// canonical bytes are equal.
pub proof fn lemma_format_equivalence(kc: Seq<u8>, ku: Seq<u8>)
    requires
        vk_accepts(kc, true),
        vk_accepts(ku, false),
        !vk_accepts(ku, true),
        vk_decode(kc, true)->Some_0.0 == vk_decode(ku, false)->Some_0.0,
    ensures
        vk_recognized(kc),
        vk_recognized(ku),
        vk_canonical(kc) == vk_canonical(ku),
{
}

} // verus!
