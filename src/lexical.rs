use unicode_xid::UnicodeXID;
use vstd::prelude::*;

verus! {

/// Whether `c` has the Unicode `XID_Start` property.
pub uninterp spec fn xid_start(c: char) -> bool;

/// Whether `c` has the Unicode `XID_Continue` property.
pub uninterp spec fn xid_continue(c: char) -> bool;

pub open spec fn is_ascii_letter(c: char) -> bool {
    ('a' <= c && c <= 'z') || ('A' <= c && c <= 'Z')
}

pub open spec fn is_digit(c: char) -> bool {
    '0' <= c && c <= '9'
}

/// Relies on `unicode_xid::UnicodeXID::is_xid_start` for `char`, which
/// answers ASCII characters by a fast path that accepts the letters alone.
#[verifier::external_body]
fn xid_start_exec(c: char) -> (r: bool)
    ensures
        r == xid_start(c),
        c <= '\x7f' ==> (r <==> is_ascii_letter(c)),
{
    c.is_xid_start()
}

/// Relies on `unicode_xid::UnicodeXID::is_xid_continue` for `char`, which
/// answers ASCII characters by a fast path that accepts letters, digits and
/// the underscore.
#[verifier::external_body]
fn xid_continue_exec(c: char) -> (r: bool)
    ensures
        r == xid_continue(c),
        c <= '\x7f' ==> (r <==> (is_ascii_letter(c) || is_digit(c) || c == '_')),
{
    c.is_xid_continue()
}

/// An identifier starts with an `XID_Start` character or an underscore.
/// Among ASCII characters those are the letters and the underscore.
pub open spec fn ident_start(c: char) -> bool {
    if c <= '\x7f' {
        is_ascii_letter(c) || c == '_'
    } else {
        xid_start(c)
    }
}

/// An identifier goes on with `XID_Continue` characters. Among ASCII
/// characters those are the letters, the digits and the underscore.
pub open spec fn ident_continue(c: char) -> bool {
    if c <= '\x7f' {
        is_ascii_letter(c) || is_digit(c) || c == '_'
    } else {
        xid_continue(c)
    }
}

pub fn is_ident_start(c: char) -> (r: bool)
    ensures
        r == ident_start(c),
{
    c == '_' || xid_start_exec(c)
}

pub fn is_ident_continue(c: char) -> (r: bool)
    ensures
        r == ident_continue(c),
{
    xid_continue_exec(c)
}

pub open spec fn is_ws(c: char) -> bool {
    c == ' ' || c == '\t' || c == '\n' || c == '\r'
}

/// The first position at or after `pos` that does not hold whitespace.
pub open spec fn spec_skip_ws(src: Seq<char>, pos: usize) -> usize
    decreases src.len() - pos,
    when src.len() <= usize::MAX
{
    if pos < src.len() && is_ws(src[pos as int]) {
        spec_skip_ws(src, (pos + 1) as usize)
    } else {
        pos
    }
}

pub proof fn lemma_skip_ws_bounds(src: Seq<char>, pos: usize)
    requires
        pos <= src.len() <= usize::MAX,
    ensures
        pos <= spec_skip_ws(src, pos) <= src.len(),
    decreases src.len() - pos,
{
    if pos < src.len() && is_ws(src[pos as int]) {
        lemma_skip_ws_bounds(src, (pos + 1) as usize);
    }
}

pub fn skip_ws(src: &[char], pos: usize) -> (r: usize)
    requires
        pos <= src@.len(),
    ensures
        r == spec_skip_ws(src@, pos),
        pos <= r <= src@.len(),
{
    let mut i = pos;
    while i < src.len() && (src[i] == ' ' || src[i] == '\t' || src[i] == '\n' || src[i] == '\r')
        invariant
            pos <= i <= src@.len(),
            spec_skip_ws(src@, pos) == spec_skip_ws(src@, i),
        decreases src@.len() - i,
    {
        i = i + 1;
    }
    i
}

/// Whether `src` holds the character `c` at `pos`.
pub open spec fn char_at(src: Seq<char>, pos: usize, c: char) -> bool {
    pos < src.len() && src[pos as int] == c
}

pub fn is_char_at(src: &[char], pos: usize, c: char) -> (r: bool)
    ensures
        r == char_at(src@, pos, c),
{
    pos < src.len() && src[pos] == c
}

/// Whether the keyword `str` stands at `pos`, not followed by a character
/// that would continue it into a longer identifier.
pub open spec fn str_keyword_at(src: Seq<char>, pos: usize) -> bool {
    &&& pos + 3 <= src.len()
    &&& src[pos as int] == 's'
    &&& src[pos + 1] == 't'
    &&& src[pos + 2] == 'r'
    &&& !(pos + 3 < src.len() && ident_continue(src[pos + 3]))
}

pub fn is_str_keyword_at(src: &[char], pos: usize) -> (r: bool)
    requires
        pos <= src@.len(),
    ensures
        r == str_keyword_at(src@, pos),
{
    if src.len() - pos < 3 {
        return false;
    }
    if src[pos] != 's' || src[pos + 1] != 't' || src[pos + 2] != 'r' {
        return false;
    }
    !(pos + 3 < src.len() && is_ident_continue(src[pos + 3]))
}

} // verus!
