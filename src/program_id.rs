use vstd::prelude::*;
use crate::error::EmbedError;
use vstd::string::StringSliceAdditionalSpecFns;

verus! {

/// Where the program identifier comes from.
#[derive(Debug, Clone, Copy, PartialEq, Eq, Structural)]
pub enum ProgramIdSource {
    /// A UTF-8 string, taken byte for byte.
    Text,
    /// A hex string, decoded.
    Hex,
    /// The raw contents of a file.
    File,
}

/// Picks the identifier source among those that were given; exactly one must be.
pub fn select_program_id_source(has_text: bool, has_hex: bool, has_file: bool) -> (r: Result<ProgramIdSource, EmbedError>)
    ensures
        r == (if has_text && !has_hex && !has_file {
            Ok(ProgramIdSource::Text)
        } else if !has_text && has_hex && !has_file {
            Ok(ProgramIdSource::Hex)
        } else if !has_text && !has_hex && has_file {
            Ok(ProgramIdSource::File)
        } else {
            Err(EmbedError::Usage)
        }),
{
    match (has_text, has_hex, has_file) {
        (true, false, false) => Ok(ProgramIdSource::Text),
        (false, true, false) => Ok(ProgramIdSource::Hex),
        (false, false, true) => Ok(ProgramIdSource::File),
        _ => Err(EmbedError::Usage),
    }
}

/// The identifier bytes of a UTF-8 string: its encoding.
pub fn program_id_from_text(s: &str) -> (r: Vec<u8>)
    ensures
        r@ == s.spec_bytes(),
{
    vstd::slice::slice_to_vec(s.as_bytes())
}

pub open spec fn is_hex_digit(b: u8) -> bool {
    (48 <= b && b <= 57) || (65 <= b && b <= 70) || (97 <= b && b <= 102)
}

pub open spec fn hex_digit_value(b: u8) -> int {
    if 48 <= b && b <= 57 {
        b - 48
    } else if 65 <= b && b <= 70 {
        b - 55
    } else {
        b - 87
    }
}

/// Whether `s` is hex text: an even number of hex digits of either case.
pub open spec fn hex_decodable(s: Seq<u8>) -> bool {
    &&& s.len() % 2 == 0
    &&& forall|i: int| 0 <= i < s.len() ==> is_hex_digit(#[trigger] s[i])
}

/// The bytes that hex text `s` spells, one for each pair of digits.
pub open spec fn hex_decoded(s: Seq<u8>) -> Seq<u8> {
    Seq::new((s.len() / 2) as nat, |i: int| (hex_digit_value(s[2 * i]) * 16 + hex_digit_value(s[2 * i + 1])) as u8)
}

/// Hex text without its optional `0x` or `0X` marker.
pub open spec fn hex_payload(s: Seq<u8>) -> Seq<u8> {
    if s.len() >= 2 && s[0] == 48 && (s[1] == 120 || s[1] == 88) {
        s.subrange(2, s.len() as int)
    } else {
        s
    }
}

/// Text with leading and trailing white space removed, as UTF-8 bytes.
pub uninterp spec fn trimmed_utf8(s: Seq<u8>) -> Seq<u8>;

/// Relies on `str::trim`: the result depends on the string alone.
#[verifier::external_body]
fn trim_str(s: &str) -> (r: &str)
    ensures
        r.spec_bytes() == trimmed_utf8(s.spec_bytes()),
{
    s.trim()
}

#[verifier::external_type_specification]
#[verifier::external_body]
pub struct ExFromHexError(hex::FromHexError);

/// Relies on `hex::decode`: it succeeds exactly on an even number of hex
/// digits of either case, and then gives one byte for each pair, high digit
/// first.
#[verifier::external_body]
fn hex_decode(data: &[u8]) -> (r: Result<Vec<u8>, hex::FromHexError>)
    ensures
        r is Ok <==> hex_decodable(data@),
        r matches Ok(v) ==> v@ == hex_decoded(data@),
{
    hex::decode(data)
}

/// Decodes the hex form of a program identifier that was already trimmed:
/// one leading `0x` or `0X` marker is dropped, the rest must be hex text.
pub fn decode_program_id_hex(trimmed: &[u8]) -> (r: Result<Vec<u8>, EmbedError>)
    ensures
        r is Ok <==> hex_decodable(hex_payload(trimmed@)),
        r matches Ok(v) ==> v@ == hex_decoded(hex_payload(trimmed@)),
        r matches Err(e) ==> e == EmbedError::HexDecode,
{
    let n = trimmed.len();
    let start: usize = if n >= 2 && trimmed[0] == 48 && (trimmed[1] == 120 || trimmed[1] == 88) {
        2
    } else {
        0
    };
    proof {
        assert(trimmed@.subrange(0, n as int) =~= trimmed@);
    }
    let payload = vstd::slice::slice_to_vec(&trimmed[start..n]);
    assert(payload@ =~= hex_payload(trimmed@));
    match hex_decode(payload.as_slice()) {
        Ok(v) => Ok(v),
        Err(_) => Err(EmbedError::HexDecode),
    }
}

/// The identifier bytes of a hex string: white space around it is ignored,
/// then it is decoded as `decode_program_id_hex` says.
pub fn program_id_from_hex(h: &str) -> (r: Result<Vec<u8>, EmbedError>)
    ensures
        r is Ok <==> hex_decodable(hex_payload(trimmed_utf8(h.spec_bytes()))),
        r matches Ok(v) ==> v@ == hex_decoded(hex_payload(trimmed_utf8(h.spec_bytes()))),
        r matches Err(e) ==> e == EmbedError::HexDecode,
{
    let t = trim_str(h);
    decode_program_id_hex(t.as_bytes())
}

} // verus!
