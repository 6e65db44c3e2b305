use vstd::prelude::*;

verus! {

/// The identifier used when the input holds no ASCII alphanumeric character.
pub const DEFAULT_IDENT: &'static str = "PROGRAM";

pub open spec fn is_ascii_alnum(c: char) -> bool {
    ('0' <= c && c <= '9') || ('a' <= c && c <= 'z') || ('A' <= c && c <= 'Z')
}

pub open spec fn upper_spec(c: char) -> char {
    if 'a' <= c && c <= 'z' {
        ((c as u8) - 32) as u8 as char
    } else {
        c
    }
}

/// Each ASCII alphanumeric character upper-cased; every other character
/// becomes an underscore.
pub open spec fn ident_char(c: char) -> char {
    if is_ascii_alnum(c) {
        upper_spec(c)
    } else {
        '_'
    }
}

/// The sanitized identifier for `s`: `s` mapped character by character, or the
/// default identifier where `s` holds no ASCII alphanumeric character.
pub open spec fn sanitized_spec(s: Seq<char>) -> Seq<char> {
    if forall|i: int| 0 <= i < s.len() ==> !is_ascii_alnum(#[trigger] s[i]) {
        DEFAULT_IDENT@
    } else {
        s.map_values(|c: char| ident_char(c))
    }
}

fn ident_char_exec(c: char) -> (r: char)
    ensures
        r == ident_char(c),
{
    if ('0' <= c && c <= '9') || ('A' <= c && c <= 'Z') {
        c
    } else if 'a' <= c && c <= 'z' {
        ((c as u8) - 32) as char
    } else {
        '_'
    }
}

/// Turns a free-form name into a constant-name prefix: upper-case ASCII
/// letters, digits and underscores only, never empty.
pub fn sanitize_ident(s: &str) -> (r: String)
    ensures
        r@ == sanitized_spec(s@),
        r@.len() > 0,
{
    let mut out = String::new();
    let mut any_alnum = false;
    for ch in it: s.chars()
        invariant
            it.seq() == s@,
            out@ == s@.subrange(0, it.index() as int).map_values(|c: char| ident_char(c)),
            any_alnum <==> exists|i: int| 0 <= i < it.index() && is_ascii_alnum(#[trigger] s@[i]),
    {
        if ('0' <= ch && ch <= '9') || ('a' <= ch && ch <= 'z') || ('A' <= ch && ch <= 'Z') {
            any_alnum = true;
        }
        out.push(ident_char_exec(ch));
        assert(s@.subrange(0, it.index() + 1 as int) =~= s@.subrange(0, it.index() as int).push(ch));
        assert(out@ =~= s@.subrange(0, it.index() + 1 as int).map_values(|c: char| ident_char(c)));
    }
    if !any_alnum {
        proof { reveal_strlit("PROGRAM"); }
        DEFAULT_IDENT.to_owned()
    } else {
        assert(s@.subrange(0, s@.len() as int) =~= s@);
        out
    }
}

} // verus!
