use vstd::prelude::*;

verus! {

/// True of the ASCII uppercase letters.
pub open spec fn is_ascii_upper(c: char) -> bool {
    65 <= c as u32 && c as u32 <= 90
}

/// True of the ASCII lowercase letters.
pub open spec fn is_ascii_lower(c: char) -> bool {
    97 <= c as u32 && c as u32 <= 122
}

/// The ASCII lowercase form of a character: uppercase letters are shifted
/// into the lowercase range, every other character is unchanged.
pub open spec fn lower_char(c: char) -> char {
    if is_ascii_upper(c) {
        ((c as u32) + 32) as char
    } else {
        c
    }
}

/// The ASCII uppercase form of a character: lowercase letters are shifted
/// into the uppercase range, every other character is unchanged.
pub open spec fn upper_char(c: char) -> char {
    if is_ascii_lower(c) {
        ((c as u32) - 32) as char
    } else {
        c
    }
}

/// Relies on `<str as PartialEq>::eq`: equality of string slices compares
/// their character contents.
#[verifier::external_body]
pub(crate) fn str_eq(a: &str, b: &str) -> (r: bool)
    ensures
        r == (a@ == b@),
{
    a == b
}

/// Relies on `String::push`: appends the given character to the end of the
/// string.
#[verifier::external_body]
pub(crate) fn push_char(s: &mut String, c: char)
    ensures
        final(s)@ == old(s)@.push(c),
{
    s.push(c)
}

/// Relies on `char::to_ascii_lowercase`: ASCII uppercase letters map to
/// their lowercase equivalent, every other character is returned unchanged.
#[verifier::external_body]
pub(crate) fn to_lower(c: char) -> (r: char)
    ensures
        r == lower_char(c),
{
    c.to_ascii_lowercase()
}

/// Relies on `char::to_ascii_uppercase`: ASCII lowercase letters map to
/// their uppercase equivalent, every other character is returned unchanged.
#[verifier::external_body]
pub(crate) fn to_upper(c: char) -> (r: char)
    ensures
        r == upper_char(c),
{
    c.to_ascii_uppercase()
}

/// The characters position `j` of `s` contributes to the snake-case form:
/// an uppercase letter after the first position becomes an underscore plus
/// its lowercase form; every other character is just lowercased.
pub open spec fn snake_piece(s: Seq<char>, j: int) -> Seq<char> {
    if 0 < j && is_ascii_upper(s[j]) {
        seq!['_', lower_char(s[j])]
    } else {
        seq![lower_char(s[j])]
    }
}

/// The snake-case form of the first `i` characters of `s`.
pub open spec fn snake_prefix(s: Seq<char>, i: int) -> Seq<char>
    decreases i,
{
    if i <= 0 {
        Seq::empty()
    } else {
        snake_prefix(s, i - 1) + snake_piece(s, i - 1)
    }
}

/// The snake-case form of a camel-case identifier:
/// `SomeButton` becomes `some_button`.
pub open spec fn snake_of(s: Seq<char>) -> Seq<char> {
    snake_prefix(s, s.len() as int)
}

/// `s` with its first character uppercased: `label` becomes `Label`.
pub open spec fn upper_first_of(s: Seq<char>) -> Seq<char> {
    if s.len() == 0 {
        s
    } else {
        seq![upper_char(s[0])] + s.skip(1)
    }
}

/// Computes the snake-case form of an identifier.
pub fn snake_case(s: &str) -> (r: String)
    ensures
        r@ == snake_of(s@),
{
    let mut out = String::new();
    proof {
        assert(out@ =~= snake_prefix(s@, 0));
    }
    let n = s.unicode_len();
    let mut i: usize = 0;
    while i < n
        invariant
            n == s@.len(),
            i <= n,
            out@ == snake_prefix(s@, i as int),
        decreases n - i,
    {
        let c = s.get_char(i);
        if 0 < i && 65 <= c as u32 && c as u32 <= 90 {
            push_char(&mut out, '_');
        }
        push_char(&mut out, to_lower(c));
        i = i + 1;
        proof {
            assert(out@ =~= snake_prefix(s@, i as int));
        }
    }
    out
}

/// Computes an identifier with its first character uppercased.
pub fn upper_first(s: &str) -> (r: String)
    ensures
        r@ == upper_first_of(s@),
{
    let n = s.unicode_len();
    if n == 0 {
        let r = String::new();
        proof {
            assert(r@ =~= upper_first_of(s@));
        }
        r
    } else {
        let mut out = String::new();
        push_char(&mut out, to_upper(s.get_char(0)));
        let rest = s.substring_char(1, n);
        out.append(rest);
        proof {
            assert(out@ =~= upper_first_of(s@));
        }
        out
    }
}

} // verus!
