//! Character and byte helpers shared by the keyboard and the input mappers.

use vstd::prelude::*;
use vstd::utf8::encode_utf8;
use vstd::utf8::encode_scalar;
use vstd::utf8::has_width_1_encoding;

verus! {

/// Turns one `char` into a one-character `String` through std's
/// `<char as ToString>::to_string`. Claimed: the string holds exactly `c`
/// (std documents that `Display` for `char` writes the character itself).
#[verifier::external_body]
pub(crate) fn char_to_string(c: char) -> (s: String)
    ensures
        s@ == seq![c],
{
    c.to_string()
}

/// The UTF-8 bytes of a single character.
pub open spec fn char_bytes(c: char) -> Seq<u8> {
    encode_utf8(seq![c])
}

/// The UTF-8 encoding of `c`, as `c.to_string().into_bytes()` gives it.
pub fn char_to_bytes(c: char) -> (v: Vec<u8>)
    ensures
        v@ == char_bytes(c),
{
    let s = char_to_string(c);
    s.as_str().as_bytes_vec()
}

pub open spec fn is_ascii_lowercase(c: char) -> bool {
    'a' <= c && c <= 'z'
}

pub open spec fn is_ascii_uppercase(c: char) -> bool {
    'A' <= c && c <= 'Z'
}

/// ASCII upper-casing: `a..=z` map to `A..=Z`, every other character is kept.
pub open spec fn ascii_upper(c: char) -> char {
    if is_ascii_lowercase(c) {
        ((c as u32) - 32) as char
    } else {
        c
    }
}

/// `true` exactly for the ASCII letters, of either case.
pub open spec fn is_ascii_letter(c: char) -> bool {
    is_ascii_uppercase(ascii_upper(c))
}

/// The control code that Ctrl plus the letter `c` produces: `A` (or `a`) is 1,
/// `Z` (or `z`) is 26.
pub open spec fn ctrl_code(c: char) -> u8 {
    ((ascii_upper(c) as u32) - 64) as u8
}

/// What a terminal receives for Ctrl held with `c`: the control code for a
/// letter, the character's own UTF-8 bytes for anything else.
pub open spec fn ctrl_bytes(c: char) -> Seq<u8> {
    if is_ascii_letter(c) {
        seq![ctrl_code(c)]
    } else {
        char_bytes(c)
    }
}

/// One upper-case hexadecimal digit for a value below 16.
pub open spec fn hex_digit(n: u8) -> char {
    if n < 10 {
        (('0' as u32) + n) as char
    } else {
        (('A' as u32) + n - 10) as char
    }
}

/// A byte written as two upper-case hexadecimal digits (`{:02X}`).
pub open spec fn hex2(b: u8) -> Seq<char> {
    seq![hex_digit(b / 16), hex_digit(b % 16)]
}

pub fn to_ascii_uppercase(c: char) -> (u: char)
    ensures
        u == ascii_upper(c),
{
    if 'a' <= c && c <= 'z' {
        ((c as u8) - 32) as char
    } else {
        c
    }
}

pub fn is_ascii_upper_char(c: char) -> (b: bool)
    ensures
        b == is_ascii_uppercase(c),
{
    'A' <= c && c <= 'Z'
}

/// The bytes sent for Ctrl held together with `c`.
pub fn ctrl_char_bytes(c: char) -> (v: Vec<u8>)
    ensures
        v@ == ctrl_bytes(c),
{
    let upper = to_ascii_uppercase(c);
    if is_ascii_upper_char(upper) {
        let code: u8 = (upper as u8) - 64;
        vec![code]
    } else {
        char_to_bytes(c)
    }
}

fn hex_digit_char(n: u8) -> (c: char)
    requires
        n < 16,
    ensures
        c == hex_digit(n),
{
    if n < 10 {
        (48u8 + n) as char
    } else {
        (55u8 + n) as char
    }
}

/// Appends `b` as two upper-case hexadecimal digits.
pub fn push_hex2(s: &mut String, b: u8)
    ensures
        final(s)@ == old(s)@ + hex2(b),
{
    let hi = char_to_string(hex_digit_char(b / 16));
    let lo = char_to_string(hex_digit_char(b % 16));
    s.append(hi.as_str());
    s.append(lo.as_str());
}

/// Appends one character.
pub fn push_char(s: &mut String, c: char)
    ensures
        final(s)@ == old(s)@.push(c),
{
    let t = char_to_string(c);
    s.append(t.as_str());
}

/// Whether `needle` occurs in `hay` as a contiguous run.
pub open spec fn contains_seq(hay: Seq<char>, needle: Seq<char>) -> bool {
    exists|i: int| 0 <= i && i + needle.len() <= hay.len() && #[trigger] hay.subrange(i, i + needle.len()) == needle
}

/// Whether `needle` occurs in `hay` (as `str::contains` with a `&str`
/// pattern).
pub fn str_contains(hay: &str, needle: &str) -> (b: bool)
    ensures
        b == contains_seq(hay@, needle@),
{
    let hl = hay.unicode_len();
    let nl = needle.unicode_len();
    if nl > hl {
        return false;
    }
    let mut i: usize = 0;
    while i <= hl - nl
        invariant
            hl == hay@.len(),
            nl == needle@.len(),
            nl <= hl,
            0 <= i <= hl - nl + 1,
            forall|k: int| 0 <= k < i ==> #[trigger] hay@.subrange(k, k + nl) != needle@,
        decreases hl - nl + 1 - i,
    {
        let mut j: usize = 0;
        let mut same = true;
        while j < nl
            invariant_except_break
                same,
            invariant
                hl == hay@.len(),
                nl == needle@.len(),
                i + nl <= hl,
                0 <= j <= nl,
                forall|m: int| 0 <= m < j ==> hay@[i + m] == needle@[m],
            ensures
                same ==> j == nl,
                same ==> forall|m: int| 0 <= m < nl ==> hay@[i + m] == needle@[m],
                !same ==> exists|m: int| 0 <= m < nl && hay@[i + m] != needle@[m],
            decreases nl - j,
        {
            if hay.get_char(i + j) != needle.get_char(j) {
                same = false;
                assert(hay@[i + j] != needle@[j as int]);
                break;
            }
            j += 1;
        }
        if same {
            assert(hay@.subrange(i as int, i + nl) =~= needle@);
            return true;
        }
        assert(hay@.subrange(i as int, i + nl) != needle@) by {
            let m = choose|m: int| 0 <= m < nl && hay@[i + m] != needle@[m];
            assert(hay@.subrange(i as int, i + nl)[m] == hay@[i + m]);
        }
        i += 1;
    }
    false
}

/// The lower-case form of a string, as std's `str::to_lowercase` computes
/// it from Unicode's case tables.
pub uninterp spec fn lowercase(s: Seq<char>) -> Seq<char>;

/// std's `str::to_lowercase`. Claimed: the result is `lowercase` of the
/// argument, a function of its characters alone.
#[verifier::external_body]
pub(crate) fn to_lowercase(s: &str) -> (r: String)
    ensures
        r@ == lowercase(s@),
{
    s.to_lowercase()
}

/// `n` copies of `c`.
pub open spec fn repeat_char(c: char, n: nat) -> Seq<char> {
    Seq::new(n, |i: int| c)
}

/// Appends `n` copies of `c`, as `push_str(&c.to_string().repeat(n))` does.
pub fn push_repeated(s: &mut String, c: char, n: usize)
    ensures
        final(s)@ == old(s)@ + repeat_char(c, n as nat),
{
    let piece = char_to_string(c);
    let mut i: usize = 0;
    while i < n
        invariant
            0 <= i <= n,
            piece@ == seq![c],
            s@ == old(s)@ + repeat_char(c, i as nat),
        decreases n - i,
    {
        s.append(piece.as_str());
        i += 1;
        assert(s@ =~= old(s)@ + repeat_char(c, i as nat));
    }
}

/// A string holding exactly the given characters.
pub fn string_from_chars(chars: &Vec<char>) -> (s: String)
    ensures
        s@ == chars@,
{
    let mut s = String::new();
    let mut i: usize = 0;
    while i < chars.len()
        invariant
            0 <= i <= chars@.len(),
            s@ == chars@.take(i as int),
        decreases chars@.len() - i,
    {
        push_char(&mut s, chars[i]);
        i += 1;
        assert(s@ =~= chars@.take(i as int));
    }
    assert(chars@.take(chars@.len() as int) =~= chars@);
    s
}

/// UTF-8 encoding distributes over concatenation.
pub proof fn lemma_encode_utf8_concat(a: Seq<char>, b: Seq<char>)
    ensures
        encode_utf8(a + b) == encode_utf8(a) + encode_utf8(b),
    decreases a.len(),
{
    if a.len() == 0 {
        assert(a + b =~= b);
        assert(encode_utf8(a) + encode_utf8(b) =~= encode_utf8(b));
    } else {
        lemma_encode_utf8_concat(a.drop_first(), b);
        assert((a + b).drop_first() =~= a.drop_first() + b);
        assert((a + b)[0] == a[0]);
        assert(encode_utf8(a + b) =~= encode_scalar(a[0] as u32) + (encode_utf8(a.drop_first()) + encode_utf8(b)));
    }
}

/// An ASCII character takes one byte.
pub proof fn lemma_encode_ascii_char(c: char)
    requires
        (c as u32) < 128,
    ensures
        encode_utf8(seq![c]).len() == 1,
{
    let s = seq![c];
    assert(s.drop_first() =~= Seq::<char>::empty());
    assert(encode_utf8(s.drop_first()) =~= Seq::<u8>::empty());
    assert(s[0] == c);
    assert(has_width_1_encoding(c as u32));
    assert(encode_scalar(c as u32).len() == 1);
    assert(encode_utf8(s) == encode_scalar(s[0] as u32) + encode_utf8(s.drop_first()));
}

} // verus!
