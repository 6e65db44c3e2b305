use vstd::prelude::*;

verus! {

/// Bytes per row in an emitted array literal.
pub const ROW_WIDTH: usize = 16;

/// The lower-case hex digit of a value below sixteen.
pub open spec fn hex_digit(d: u8) -> char {
    if d < 10 {
        (d + 48) as u8 as char
    } else {
        (d + 87) as u8 as char
    }
}

/// The value of a lower-case hex digit.
pub open spec fn hex_value(c: char) -> int {
    if '0' <= c && c <= '9' {
        c as int - 48
    } else {
        c as int - 87
    }
}

/// The literal `0xNN` of one byte.
pub open spec fn byte_literal(b: u8) -> Seq<char> {
    seq!['0', 'x', hex_digit(b / 16), hex_digit(b % 16)]
}

/// The text of the entry at index `i` of an `n`-byte array literal: an
/// indentation at the start of each row, the byte's literal, a separator after
/// every entry but the last, and a line break at the end of each full row.
pub open spec fn array_entry(i: int, b: u8, n: int) -> Seq<char> {
    (if i % 16 == 0 { seq![' ', ' ', ' ', ' '] } else { Seq::empty() })
        + byte_literal(b)
        + (if i + 1 != n { seq![',', ' '] } else { Seq::empty() })
        + (if i % 16 == 15 { seq!['\n'] } else { Seq::empty() })
}

/// The first `k` entries of the array literal of `bytes`.
pub open spec fn array_prefix(bytes: Seq<u8>, k: int) -> Seq<char>
    decreases k,
{
    if k <= 0 {
        Seq::empty()
    } else {
        array_prefix(bytes, k - 1) + array_entry(k - 1, bytes[k - 1], bytes.len() as int)
    }
}

/// The body of the array literal of `bytes`, between its brackets.
pub open spec fn array_body(bytes: Seq<u8>) -> Seq<char> {
    array_prefix(bytes, bytes.len() as int)
}

/// The complete emitted snippet.
pub open spec fn snippet_spec(prefix: Seq<char>, ds: Seq<char>, hash: Seq<u8>, vk: Seq<u8>) -> Seq<char> {
    "// --- paste into src/zk/zkverify.rs ---\n"@
        + "// DS: "@ + ds + "\n\n"@
        + "pub const PROGRAM_HASH_"@ + prefix + ": [u8; 32] = [\n"@
        + array_body(hash) + "];\n\n"@
        + "pub const VK_"@ + prefix + "_BLS12_381_GROTH16: &[u8] = &[\n"@
        + array_body(vk) + "];\n\n"@
        + "#[cfg(feature = \"zk-groth16\")]\n"@
        + "fn program_vk_lookup(program_hash: &[u8; 32]) -> Option<&'static [u8]> {\n"@
        + "    if ct_eq32(program_hash, &PROGRAM_HASH_"@ + prefix + ") {\n"@
        + "        return Some(VK_"@ + prefix + "_BLS12_381_GROTH16);\n"@
        + "    }\n"@ + "    None\n"@ + "}\n"@
        + "\n// done.\n"@
}

/// The entries of the array literal of `bytes`, one for each byte, in order.
pub open spec fn array_entries(bytes: Seq<u8>) -> Seq<Seq<char>> {
    Seq::new(bytes.len(), |i: int| array_entry(i, bytes[i], bytes.len() as int))
}

/// The byte literal inside an entry, after the row indentation if any.
pub open spec fn entry_literal(e: Seq<char>) -> Seq<char> {
    if e.len() > 0 && e[0] == ' ' {
        e.subrange(4, 8)
    } else {
        e.subrange(0, 4)
    }
}

/// The value that a `0xNN` literal spells.
pub open spec fn literal_value(lit: Seq<char>) -> int {
    hex_value(lit[2]) * 16 + hex_value(lit[3])
}

proof fn lemma_prefix_entries(bytes: Seq<u8>, k: int)
    requires
        0 <= k <= bytes.len(),
    ensures
        array_prefix(bytes, k) == array_entries(bytes).subrange(0, k).flatten_alt(),
    decreases k,
{
    let es = array_entries(bytes).subrange(0, k);
    if k > 0 {
        lemma_prefix_entries(bytes, k - 1);
        assert(es.drop_last() =~= array_entries(bytes).subrange(0, k - 1));
    } else {
        assert(es =~= Seq::<Seq<char>>::empty());
    }
}

/// An emitted array literal is complete: its body is exactly one entry for
/// each input byte, in the input's order, and the `0xNN` literal in each entry
/// spells that entry's byte.
pub proof fn lemma_array_literal_complete(bytes: Seq<u8>)
    ensures
        array_body(bytes) == array_entries(bytes).flatten(),
        array_entries(bytes).len() == bytes.len(),
        forall|i: int|
            0 <= i < bytes.len() ==> {
                let lit = entry_literal(#[trigger] array_entries(bytes)[i]);
                &&& lit.len() == 4
                &&& lit[0] == '0' && lit[1] == 'x'
                &&& literal_value(lit) == bytes[i] as int
            },
{
    lemma_prefix_entries(bytes, bytes.len() as int);
    assert(array_entries(bytes).subrange(0, bytes.len() as int) =~= array_entries(bytes));
    array_entries(bytes).lemma_flatten_and_flatten_alt_are_equivalent();
    assert forall|i: int| 0 <= i < bytes.len() implies {
        let lit = entry_literal(#[trigger] array_entries(bytes)[i]);
        &&& lit.len() == 4
        &&& lit[0] == '0' && lit[1] == 'x'
        &&& literal_value(lit) == bytes[i] as int
    } by {
        let b = bytes[i];
        let e = array_entry(i, b, bytes.len() as int);
        assert(entry_literal(e) =~= byte_literal(b));
        let hi = b / 16;
        let lo = b % 16;
        assert(hex_value(hex_digit(hi)) == hi as int);
        assert(hex_value(hex_digit(lo)) == lo as int);
    }
}

fn hex_digit_exec(d: u8) -> (c: char)
    requires
        d < 16,
    ensures
        c == hex_digit(d),
{
    if d < 10 {
        (d + 48) as char
    } else {
        (d + 87) as char
    }
}

/// Appends the array-literal body of `bytes` to `out`.
fn push_array_body(out: &mut String, bytes: &[u8])
    ensures
        final(out)@ == old(out)@ + array_body(bytes@),
{
    let n = bytes.len();
    let ghost start = out@;
    for i in 0..n
        invariant
            n == bytes@.len(),
            out@ == start + array_prefix(bytes@, i as int),
    {
        let ghost before = out@;
        let b = bytes[i];
        if i % ROW_WIDTH == 0 {
            out.push_str("    ");
        }
        out.push('0');
        out.push('x');
        out.push(hex_digit_exec(b / 16));
        out.push(hex_digit_exec(b % 16));
        if i + 1 != n {
            out.push_str(", ");
        }
        if i % ROW_WIDTH == 15 {
            out.push('\n');
        }
        proof {
            reveal_strlit("    ");
            reveal_strlit(", ");
            assert(out@ =~= before + array_entry(i as int, b, n as int));
        }
    }
}

/// Emits the source snippet that embeds `program_hash` and `vk_bytes` under
/// constants named with `prefix`, followed by a lookup stub. The stub compares
/// digests with `ct_eq32`, which the consuming crate must implement in
/// constant time.
pub fn build_snippet(prefix: &str, ds: &str, program_hash: &[u8; 32], vk_bytes: &[u8]) -> (r: String)
    ensures
        r@ == snippet_spec(prefix@, ds@, program_hash@, vk_bytes@),
{
    let mut out = String::new();
    out.push_str("// --- paste into src/zk/zkverify.rs ---\n");
    out.push_str("// DS: ");
    out.push_str(ds);
    out.push_str("\n\n");
    out.push_str("pub const PROGRAM_HASH_");
    out.push_str(prefix);
    out.push_str(": [u8; 32] = [\n");
    push_array_body(&mut out, program_hash.as_slice());
    out.push_str("];\n\n");
    out.push_str("pub const VK_");
    out.push_str(prefix);
    out.push_str("_BLS12_381_GROTH16: &[u8] = &[\n");
    push_array_body(&mut out, vk_bytes);
    out.push_str("];\n\n");
    out.push_str("#[cfg(feature = \"zk-groth16\")]\n");
    out.push_str("fn program_vk_lookup(program_hash: &[u8; 32]) -> Option<&'static [u8]> {\n");
    out.push_str("    if ct_eq32(program_hash, &PROGRAM_HASH_");
    out.push_str(prefix);
    out.push_str(") {\n");
    out.push_str("        return Some(VK_");
    out.push_str(prefix);
    out.push_str("_BLS12_381_GROTH16);\n");
    out.push_str("    }\n");
    out.push_str("    None\n");
    out.push_str("}\n");
    out.push_str("\n// done.\n");
    proof {
        assert(out@ =~= snippet_spec(prefix@, ds@, program_hash@, vk_bytes@));
    }
    out
}

} // verus!
