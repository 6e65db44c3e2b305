use ark_bls12_381::{Bls12_381, Fr, G1Affine, G2Affine};
use ark_ec::{AffineRepr, CurveGroup};
use ark_groth16::VerifyingKey;
use ark_serialize::CanonicalSerialize;
use zk_embed::{
    build_snippet, decode_program_id_hex, derive_program_hash, normalize_vk, program_id_from_hex,
    program_id_from_text, sanitize_ident, select_program_id_source, EmbedError, ProgramIdSource,
    DS_PROGRAM_DEFAULT,
};

fn fixture_key() -> VerifyingKey<Bls12_381> {
    let g1 = G1Affine::generator();
    let g2 = G2Affine::generator();
    VerifyingKey {
        alpha_g1: (g1 * Fr::from(3u64)).into_affine(),
        beta_g2: (g2 * Fr::from(5u64)).into_affine(),
        gamma_g2: (g2 * Fr::from(7u64)).into_affine(),
        delta_g2: (g2 * Fr::from(11u64)).into_affine(),
        gamma_abc_g1: vec![(g1 * Fr::from(13u64)).into_affine(), (g1 * Fr::from(17u64)).into_affine()],
    }
}

fn compressed(vk: &VerifyingKey<Bls12_381>) -> Vec<u8> {
    let mut out = Vec::new();
    vk.serialize_compressed(&mut out).unwrap();
    out
}

fn uncompressed(vk: &VerifyingKey<Bls12_381>) -> Vec<u8> {
    let mut out = Vec::new();
    vk.serialize_uncompressed(&mut out).unwrap();
    out
}

/// Every `0xNN` literal in `text`, in order.
fn parse_literals(text: &str) -> Vec<u8> {
    let mut out = Vec::new();
    let mut rest = text;
    while let Some(pos) = rest.find("0x") {
        let digits = &rest[pos + 2..pos + 4];
        out.push(u8::from_str_radix(digits, 16).unwrap());
        rest = &rest[pos + 4..];
    }
    out
}

fn section<'a>(text: &'a str, start: &str) -> &'a str {
    let from = text.find(start).unwrap() + start.len();
    let len = text[from..].find("];").unwrap();
    &text[from..from + len]
}

#[test]
fn sanitize_maps_characters() {
    assert_eq!(sanitize_ident("attest v1"), "ATTEST_V1");
    assert_eq!(sanitize_ident("a-b.c"), "A_B_C");
    assert_eq!(sanitize_ident("zk9"), "ZK9");
}

#[test]
fn sanitize_falls_back_to_default() {
    assert_eq!(sanitize_ident(""), "PROGRAM");
    assert_eq!(sanitize_ident("!!!"), "PROGRAM");
    assert_eq!(sanitize_ident("é ü"), "PROGRAM");
}

#[test]
fn sanitize_non_ascii_is_one_underscore_per_char() {
    assert_eq!(sanitize_ident("héllo"), "H_LLO");
}

#[test]
fn program_hash_matches_blake3_derive_key_mode() {
    let mut hasher = blake3::Hasher::new_derive_key("NONOS:ZK:PROGRAM:v1");
    hasher.update(b"demo");
    let expected = *hasher.finalize().as_bytes();
    assert_eq!(derive_program_hash(DS_PROGRAM_DEFAULT, b"demo"), expected);
}

#[test]
fn program_hash_is_deterministic() {
    let a = derive_program_hash("ctx", b"some program");
    let b = derive_program_hash("ctx", b"some program");
    assert_eq!(a, b);
    assert_eq!(a.len(), 32);
}

#[test]
fn program_hash_depends_on_domain_separator() {
    let a = derive_program_hash("NONOS:ZK:PROGRAM:v1", b"demo");
    let b = derive_program_hash("NONOS:ZK:PROGRAM:v2", b"demo");
    assert_ne!(a, b);
    let c = derive_program_hash("NONOS:ZK:PROGRAM:v1", b"");
    let d = derive_program_hash("other", b"");
    assert_ne!(c, d);
}

#[test]
fn program_hash_of_empty_identifier() {
    let h = derive_program_hash(DS_PROGRAM_DEFAULT, b"");
    assert_eq!(h, blake3::derive_key("NONOS:ZK:PROGRAM:v1", b""));
    assert_ne!(h, derive_program_hash(DS_PROGRAM_DEFAULT, b"demo"));
}

#[test]
fn source_selection_needs_exactly_one() {
    assert_eq!(select_program_id_source(true, false, false), Ok(ProgramIdSource::Text));
    assert_eq!(select_program_id_source(false, true, false), Ok(ProgramIdSource::Hex));
    assert_eq!(select_program_id_source(false, false, true), Ok(ProgramIdSource::File));
    assert_eq!(select_program_id_source(false, false, false), Err(EmbedError::Usage));
    assert_eq!(select_program_id_source(true, true, false), Err(EmbedError::Usage));
    assert_eq!(select_program_id_source(true, true, true), Err(EmbedError::Usage));
}

#[test]
fn text_identifier_is_its_utf8() {
    assert_eq!(program_id_from_text("demo"), b"demo".to_vec());
    assert_eq!(program_id_from_text("é"), vec![0xc3, 0xa9]);
    assert_eq!(program_id_from_text(""), Vec::<u8>::new());
}

#[test]
fn hex_identifier_decodes() {
    assert_eq!(program_id_from_hex("0a0B"), Ok(vec![0x0a, 0x0b]));
    assert_eq!(program_id_from_hex("  0xdeadBEEF\n"), Ok(vec![0xde, 0xad, 0xbe, 0xef]));
    assert_eq!(program_id_from_hex("0X00ff"), Ok(vec![0x00, 0xff]));
    assert_eq!(program_id_from_hex(""), Ok(vec![]));
}

#[test]
fn hex_identifier_strips_one_marker() {
    assert_eq!(decode_program_id_hex(b"0x0x12"), Err(EmbedError::HexDecode));
    assert_eq!(decode_program_id_hex(b"0x0X34"), Err(EmbedError::HexDecode));
    assert_eq!(decode_program_id_hex(b"0X0x12"), Err(EmbedError::HexDecode));
    assert_eq!(decode_program_id_hex(b"0x0012"), Ok(vec![0x00, 0x12]));
    assert_eq!(decode_program_id_hex(b"0X"), Ok(vec![]));
}

#[test]
fn hex_identifier_rejects_bad_text() {
    assert_eq!(program_id_from_hex("abc"), Err(EmbedError::HexDecode));
    assert_eq!(program_id_from_hex("zz"), Err(EmbedError::HexDecode));
    assert_eq!(program_id_from_hex("12 34"), Err(EmbedError::HexDecode));
}

#[test]
fn normalize_rejects_empty_key() {
    assert_eq!(normalize_vk(&[]), Err(EmbedError::EmptyKey));
}

#[test]
fn normalize_compressed_key_is_canonical() {
    let vk = fixture_key();
    let kc = compressed(&vk);
    assert_eq!(normalize_vk(&kc), Ok(kc.clone()));
}

#[test]
fn normalize_uncompressed_key_gives_compressed_form() {
    let vk = fixture_key();
    let kc = compressed(&vk);
    let ku = uncompressed(&vk);
    assert_ne!(kc, ku);
    assert_eq!(normalize_vk(&ku), Ok(kc));
}

#[test]
fn normalize_format_equivalence() {
    let vk = fixture_key();
    assert_eq!(normalize_vk(&compressed(&vk)), normalize_vk(&uncompressed(&vk)));
}

#[test]
fn normalize_is_idempotent() {
    let vk = fixture_key();
    for raw in [compressed(&vk), uncompressed(&vk)] {
        let once = normalize_vk(&raw).unwrap();
        assert_eq!(normalize_vk(&once), Ok(once.clone()));
    }
}

#[test]
fn normalize_rejects_zero_bytes() {
    let vk = fixture_key();
    let zeros_c = vec![0u8; compressed(&vk).len()];
    let zeros_u = vec![0u8; uncompressed(&vk).len()];
    assert_eq!(normalize_vk(&zeros_c), Err(EmbedError::UnrecognizedKeyFormat));
    assert_eq!(normalize_vk(&zeros_u), Err(EmbedError::UnrecognizedKeyFormat));
}

#[test]
fn normalize_rejects_flipped_bit() {
    let vk = fixture_key();
    let mut kc = compressed(&vk);
    kc[5] ^= 0x80;
    assert_eq!(normalize_vk(&kc), Err(EmbedError::UnrecognizedKeyFormat));
}

#[test]
fn normalize_rejects_garbage() {
    assert_eq!(normalize_vk(&[1, 2, 3]), Err(EmbedError::UnrecognizedKeyFormat));
}

#[test]
fn snippet_exact_text() {
    let mut hash = [0u8; 32];
    for (i, b) in hash.iter_mut().enumerate() {
        *b = i as u8;
    }
    let vk = [0xab, 0x01, 0xff];
    let text = build_snippet("DEMO", "ctx", &hash, &vk);
    let expected = "// --- paste into src/zk/zkverify.rs ---\n\
// DS: ctx\n\n\
pub const PROGRAM_HASH_DEMO: [u8; 32] = [\n    \
0x00, 0x01, 0x02, 0x03, 0x04, 0x05, 0x06, 0x07, 0x08, 0x09, 0x0a, 0x0b, 0x0c, 0x0d, 0x0e, 0x0f, \n    \
0x10, 0x11, 0x12, 0x13, 0x14, 0x15, 0x16, 0x17, 0x18, 0x19, 0x1a, 0x1b, 0x1c, 0x1d, 0x1e, 0x1f\n\
];\n\n\
pub const VK_DEMO_BLS12_381_GROTH16: &[u8] = &[\n    \
0xab, 0x01, 0xff];\n\n\
#[cfg(feature = \"zk-groth16\")]\n\
fn program_vk_lookup(program_hash: &[u8; 32]) -> Option<&'static [u8]> {\n    \
if ct_eq32(program_hash, &PROGRAM_HASH_DEMO) {\n        \
return Some(VK_DEMO_BLS12_381_GROTH16);\n    \
}\n    \
None\n\
}\n\
\n// done.\n";
    assert_eq!(text, expected);
}

#[test]
fn snippet_with_empty_key() {
    let text = build_snippet("P", "d", &[7u8; 32], &[]);
    assert!(text.contains("pub const VK_P_BLS12_381_GROTH16: &[u8] = &[\n];\n\n"));
}

#[test]
fn snippet_array_holds_every_byte_in_order() {
    let vk: Vec<u8> = (0..=40u8).map(|i| i.wrapping_mul(37)).collect();
    let hash = [0x5au8; 32];
    let text = build_snippet("X", "d", &hash, &vk);
    let body = section(&text, "pub const VK_X_BLS12_381_GROTH16: &[u8] = &[\n");
    assert_eq!(parse_literals(body), vk);
    let hash_body = section(&text, "pub const PROGRAM_HASH_X: [u8; 32] = [\n");
    assert_eq!(parse_literals(hash_body), hash.to_vec());
}

#[test]
fn end_to_end_demo() {
    let id = program_id_from_text("demo");
    let hash = derive_program_hash(DS_PROGRAM_DEFAULT, &id);
    let vk = fixture_key();
    let canonical = normalize_vk(&uncompressed(&vk)).unwrap();
    let prefix = sanitize_ident("PROGRAM");
    let text = build_snippet(&prefix, DS_PROGRAM_DEFAULT, &hash, &canonical);

    let mut hasher = blake3::Hasher::new_derive_key("NONOS:ZK:PROGRAM:v1");
    hasher.update(b"demo");
    let reference_hash = hasher.finalize().as_bytes().to_vec();
    let hash_body = section(&text, "pub const PROGRAM_HASH_PROGRAM: [u8; 32] = [\n");
    assert_eq!(parse_literals(hash_body), reference_hash);
    let vk_body = section(&text, "pub const VK_PROGRAM_BLS12_381_GROTH16: &[u8] = &[\n");
    assert_eq!(parse_literals(vk_body), compressed(&vk));
    assert!(text.contains("// DS: NONOS:ZK:PROGRAM:v1\n"));
}

#[test]
fn error_messages_are_distinct() {
    let all = [
        EmbedError::Usage,
        EmbedError::HexDecode,
        EmbedError::EmptyKey,
        EmbedError::UnrecognizedKeyFormat,
        EmbedError::SerializationFault,
    ];
    for (i, a) in all.iter().enumerate() {
        assert!(!a.message().is_empty());
        for b in &all[i + 1..] {
            assert_ne!(a.message(), b.message());
        }
    }
}

#[test]
fn normalize_rejects_trailing_bytes() {
    let vk = fixture_key();
    let mut kc = compressed(&vk);
    kc.push(0);
    assert_eq!(normalize_vk(&kc), Err(EmbedError::UnrecognizedKeyFormat));
    let mut ku = uncompressed(&vk);
    ku.extend_from_slice(&[1, 2, 3]);
    assert_eq!(normalize_vk(&ku), Err(EmbedError::UnrecognizedKeyFormat));
}

#[test]
fn normalize_rejects_truncated_key() {
    let vk = fixture_key();
    let kc = compressed(&vk);
    assert_eq!(normalize_vk(&kc[..kc.len() - 1]), Err(EmbedError::UnrecognizedKeyFormat));
}

#[test]
fn canonical_key_length() {
    let vk = fixture_key();
    let c = normalize_vk(&uncompressed(&vk)).unwrap();
    assert_eq!(c.len(), 344 + 48 * vk.gamma_abc_g1.len());
    assert!(c.len() < uncompressed(&vk).len());
}
