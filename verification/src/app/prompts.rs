//! The answers of the line prompts used where there is no screen.

use vstd::prelude::*;

use crate::text::{chars_of, string_of_range, trim, trim_chars};

verus! {

/// `c` in lower case, for ASCII letters.
pub open spec fn ascii_lower(c: char) -> char {
    if 'A' <= c && c <= 'Z' {
        ((c as u32) + 32) as char
    } else {
        c
    }
}

/// `str::to_ascii_lowercase`.
pub open spec fn lowered(s: Seq<char>) -> Seq<char> {
    s.map_values(|c: char| ascii_lower(c))
}

/// What a y/N prompt returns for the line typed (`None` where nothing could
/// be read): yes for `y` or `yes`, no for `n` or `no`, in any case and
/// surrounded by any whitespace, and `default` for anything else.
pub open spec fn confirm_answer(line: Option<Seq<char>>, default: bool) -> bool {
    match line {
        None => default,
        Some(l) => {
            let w = lowered(trim(l));
            if w == "y"@ || w == "yes"@ {
                true
            } else if w == "n"@ || w == "no"@ {
                false
            } else {
                default
            }
        },
    }
}

fn lowered_is(cs: &Vec<char>, word: &str) -> (r: bool)
    ensures
        r == (lowered(cs@) == word@),
{
    let n = cs.len();
    if n != word.unicode_len() {
        assert(lowered(cs@).len() != word@.len());
        return false;
    }
    let mut i: usize = 0;
    while i < n
        invariant
            i <= n,
            n == cs@.len(),
            n == word@.len(),
            forall|k: int| 0 <= k < i ==> #[trigger] lowered(cs@)[k] == word@[k],
        decreases n - i,
    {
        let c = cs[i];
        let l = if 'A' <= c && c <= 'Z' {
            char_lower(c)
        } else {
            c
        };
        if l != word.get_char(i) {
            assert(lowered(cs@)[i as int] != word@[i as int]);
            return false;
        }
        i += 1;
    }
    assert(lowered(cs@) =~= word@);
    true
}

fn char_lower(c: char) -> (r: char)
    requires
        'A' <= c && c <= 'Z',
    ensures
        r == ascii_lower(c),
{
    let u = (c as u32) + 32;
    if u == 97 { 'a' } else if u == 98 { 'b' } else if u == 99 { 'c' } else if u == 100 { 'd' }
    else if u == 101 { 'e' } else if u == 102 { 'f' } else if u == 103 { 'g' } else if u == 104 { 'h' }
    else if u == 105 { 'i' } else if u == 106 { 'j' } else if u == 107 { 'k' } else if u == 108 { 'l' }
    else if u == 109 { 'm' } else if u == 110 { 'n' } else if u == 111 { 'o' } else if u == 112 { 'p' }
    else if u == 113 { 'q' } else if u == 114 { 'r' } else if u == 115 { 's' } else if u == 116 { 't' }
    else if u == 117 { 'u' } else if u == 118 { 'v' } else if u == 119 { 'w' } else if u == 120 { 'x' }
    else if u == 121 { 'y' } else { 'z' }
}

/// The answer of a y/N prompt to `line`.
pub fn confirm(line: Option<&str>, default: bool) -> (r: bool)
    ensures
        r == confirm_answer(
            match line {
                Some(l) => Some(l@),
                None => None,
            },
            default,
        ),
{
    match line {
        None => default,
        Some(l) => {
            let t = trim_chars(l);
            if lowered_is(&t, "y") || lowered_is(&t, "yes") {
                true
            } else if lowered_is(&t, "n") || lowered_is(&t, "no") {
                false
            } else {
                default
            }
        },
    }
}

/// The prompt text of a y/N question: the question, then `[Y/n]` or
/// `[y/N]` after the default.
pub fn confirm_prompt(prompt: &str, default: bool) -> (r: String)
    ensures
        r@ == prompt@ + " "@ + (if default { "[Y/n]"@ } else { "[y/N]"@ }) + " "@,
{
    let mut r = String::from_str(prompt);
    r.append(" ");
    r.append(if default { "[Y/n]" } else { "[y/N]" });
    r.append(" ");
    r
}

/// `s` without the carriage returns and newlines at its end.
pub open spec fn without_line_end(s: Seq<char>) -> Seq<char>
    decreases s.len(),
{
    if s.len() > 0 && (s.last() == '\r' || s.last() == '\n') {
        without_line_end(s.drop_last())
    } else {
        s
    }
}

/// A line as read, without its line ending.
pub fn strip_line_end(raw: &str) -> (r: String)
    ensures
        r@ == without_line_end(raw@),
{
    let cs = chars_of(raw);
    let mut end = cs.len();
    assert(cs@.take(end as int) =~= cs@);
    while end > 0 && (cs[end - 1] == '\r' || cs[end - 1] == '\n')
        invariant
            end <= cs@.len(),
            without_line_end(cs@) == without_line_end(cs@.take(end as int)),
        decreases end,
    {
        assert(cs@.take(end as int).drop_last() =~= cs@.take(end - 1));
        end -= 1;
    }
    assert(cs@.take(end as int) =~= cs@.subrange(0, end as int));
    string_of_range(&cs, 0, end)
}

} // verus!
