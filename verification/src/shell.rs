//! The shell command line that the session starts.

use vstd::prelude::*;
use crate::text::push_char;

verus! {

/// Unicode's White_Space characters: tab through carriage return, space,
/// next line, no-break space, ogham space mark, the spaces from en quad to
/// hair space, line and paragraph separators, narrow no-break space, medium
/// mathematical space and ideographic space.
pub open spec fn is_white_space(c: char) -> bool {
    let u = c as u32;
    ||| 0x09 <= u <= 0x0D
    ||| u == 0x20
    ||| u == 0x85
    ||| u == 0xA0
    ||| u == 0x1680
    ||| 0x2000 <= u <= 0x200A
    ||| u == 0x2028
    ||| u == 0x2029
    ||| u == 0x202F
    ||| u == 0x205F
    ||| u == 0x3000
}

/// Whether `c` is white space, as `char::is_whitespace` decides.
pub fn is_whitespace(c: char) -> (b: bool)
    ensures
        b == is_white_space(c),
{
    let u = c as u32;
    (0x09 <= u && u <= 0x0D) || u == 0x20 || u == 0x85 || u == 0xA0 || u == 0x1680 || (0x2000 <= u && u
        <= 0x200A) || u == 0x2028 || u == 0x2029 || u == 0x202F || u == 0x205F || u == 0x3000
}

/// Reading `s` from the left: the words completed so far and the word being
/// read.
pub open spec fn scan_words(s: Seq<char>) -> (Seq<Seq<char>>, Seq<char>)
    decreases s.len(),
{
    if s.len() == 0 {
        (seq![], seq![])
    } else {
        let (done, cur) = scan_words(s.drop_last());
        let c = s.last();
        if is_white_space(c) {
            if cur.len() > 0 {
                (done.push(cur), seq![])
            } else {
                (done, cur)
            }
        } else {
            (done, cur.push(c))
        }
    }
}

/// The maximal runs of non-white-space characters of `s`, in order
/// (`str::split_whitespace`).
pub open spec fn split_words(s: Seq<char>) -> Seq<Seq<char>> {
    let (done, cur) = scan_words(s);
    if cur.len() > 0 {
        done.push(cur)
    } else {
        done
    }
}

pub open spec fn strings_view(v: Seq<String>) -> Seq<Seq<char>> {
    v.map_values(|s: String| s@)
}

/// The words of a command line.
pub fn split_whitespace(s: &str) -> (words: Vec<String>)
    ensures
        strings_view(words@) == split_words(s@),
{
    let n = s.unicode_len();
    let mut words: Vec<String> = Vec::new();
    let mut cur = String::new();
    let mut cur_len: usize = 0;
    let mut i: usize = 0;
    while i < n
        invariant
            n == s@.len(),
            0 <= i <= n,
            cur_len == cur@.len(),
            cur_len <= i,
            (strings_view(words@), cur@) == scan_words(s@.take(i as int)),
        decreases n - i,
    {
        let c = s.get_char(i);
        let ghost prefix = s@.take(i as int);
        assert(s@.take(i + 1).drop_last() =~= prefix);
        assert(s@.take(i + 1).last() == c);
        if is_whitespace(c) {
            if cur_len > 0 {
                let ghost before = words@;
                words.push(cur);
                assert(strings_view(words@) =~= strings_view(before).push(cur@));
                cur = String::new();
                cur_len = 0;
                assert(cur@ =~= Seq::<char>::empty());
            }
        } else {
            push_char(&mut cur, c);
            cur_len += 1;
        }
        i += 1;
    }
    assert(s@.take(n as int) =~= s@);
    if cur_len > 0 {
        let ghost before = words@;
        words.push(cur);
        assert(strings_view(words@) =~= strings_view(before).push(cur@));
    }
    words
}

/// The program and the arguments to start for a shell command line: its
/// first word and the rest; `/bin/bash` when the line has no word.
pub fn shell_command_parts(shell: &str) -> (parts: (String, Vec<String>))
    ensures
        ({
            let w = split_words(shell@);
            if w.len() == 0 {
                parts.0@ == "/bin/bash"@ && parts.1@.len() == 0
            } else {
                parts.0@ == w[0] && strings_view(parts.1@) == w.drop_first()
            }
        }),
{
    let mut words = split_whitespace(shell);
    if words.len() == 0 {
        (String::from_str("/bin/bash"), words)
    } else {
        let ghost all = strings_view(words@);
        let program = words.remove(0);
        assert(strings_view(words@) =~= all.drop_first());
        (program, words)
    }
}

} // verus!
