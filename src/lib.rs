//! Build-time helpers that bind a zero-knowledge program to its Groth16
//! verifying key: a domain-separated program hash, a canonical (compressed)
//! verifying-key encoding, and the source snippet that embeds both.

mod error;
mod ident;
mod program_hash;
mod program_id;
mod snippet;
mod strings;
mod vk;

pub use error::EmbedError;
pub use ident::{sanitize_ident, sanitized_spec, DEFAULT_IDENT};
pub use snippet::{
    array_body, array_entries, build_snippet, entry_literal, lemma_array_literal_complete,
    literal_value, snippet_spec, ROW_WIDTH,
};
pub use program_hash::{
    blake3_derive_key, derive_program_hash, lemma_program_hash_deterministic, program_hash_spec,
    DS_PROGRAM_DEFAULT,
};
pub use program_id::{
    decode_program_id_hex, hex_decodable, hex_decoded, hex_payload, program_id_from_hex,
    program_id_from_text, select_program_id_source, trimmed_utf8, ProgramIdSource,
};
pub use vk::{
    key_compressed, key_valid, lemma_format_equivalence, normalize_vk, vk_accepts, vk_canonical,
    vk_decode, vk_key, vk_recognized, DecodedKey,
};
