use vstd::prelude::*;

verus! {

/// The default domain separator for program-hash derivation.
pub const DS_PROGRAM_DEFAULT: &'static str = "NONOS:ZK:PROGRAM:v1";

/// BLAKE3 in key-derivation mode: the 32-byte key derived from `material`
/// under the context string `context`.
pub uninterp spec fn blake3_derive_key(context: Seq<char>, material: Seq<u8>) -> Seq<u8>;

/// Relies on `blake3::derive_key`: BLAKE3's key-derivation mode, whose
/// 32-byte output depends on the context string and the key material alone.
#[verifier::external_body]
fn blake3_derive(context: &str, material: &[u8]) -> (r: [u8; 32])
    ensures
        r@ == blake3_derive_key(context@, material@),
{
    blake3::derive_key(context, material)
}

/// The program hash of `id` under the domain separator `ds`.
pub open spec fn program_hash_spec(ds: Seq<char>, id: Seq<u8>) -> Seq<u8> {
    blake3_derive_key(ds, id)
}

/// Derives the 32-byte program hash of the identifier bytes `program_id_bytes`,
/// bound to the domain separator `ds`.
pub fn derive_program_hash(ds: &str, program_id_bytes: &[u8]) -> (r: [u8; 32])
    ensures
        r@ == program_hash_spec(ds@, program_id_bytes@),
        r@.len() == 32,
{
    blake3_derive(ds, program_id_bytes)
}

/// Deriving the program hash is deterministic: two derivations from the same
/// domain separator and the same identifier bytes give the same 32 bytes.
pub proof fn lemma_program_hash_deterministic(ds: Seq<char>, id: Seq<u8>, r1: Seq<u8>, r2: Seq<u8>)
    requires
        r1 == program_hash_spec(ds, id),
        r2 == program_hash_spec(ds, id),
    ensures
        r1 == r2,
{
}

} // verus!
