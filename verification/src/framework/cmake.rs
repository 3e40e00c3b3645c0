//! The benchmark executable named in a `CMakeLists.txt`.
use vstd::prelude::*;

use crate::text::{
    chars_of, find_char, has_prefix, is_first_char, is_whitespace, lemma_first_char_unique,
    opt_view, spec_is_whitespace, starts_with, string_of_range, sub_chars, trim, trim_bounds,
    trim_start,
};

verus! {

/// A character that can be part of a target name: neither white space nor
/// a closing parenthesis.
pub open spec fn is_name_char(c: char) -> bool {
    !spec_is_whitespace(c) && c != ')'
}

/// `s[..k]` is the longest prefix of `s` made of name characters.
pub open spec fn is_token_end(s: Seq<char>, k: int) -> bool {
    &&& 0 <= k <= s.len()
    &&& forall|j: int| 0 <= j < k ==> is_name_char(#[trigger] s[j])
    &&& k == s.len() || !is_name_char(s[k])
}

/// The leading run of name characters of `s`.
pub open spec fn leading_token(s: Seq<char>) -> Seq<char> {
    s.take(choose|k: int| is_token_end(s, k))
}

/// The target name in the text that follows `add_executable`: an opening
/// parenthesis (after optional white space), then the first non-empty
/// token, which ends at white space or a closing parenthesis.
pub open spec fn executable_name(after: Seq<char>) -> Option<Seq<char>> {
    let r = trim_start(after);
    if r.len() > 0 && r[0] == '(' {
        let name = leading_token(trim_start(r.drop_first()));
        if name.len() > 0 {
            Some(name)
        } else {
            None
        }
    } else {
        None
    }
}

/// For a line that starts with `add_executable` once trimmed, the name it
/// declares (or `None` when it is malformed); `None` for any other line.
pub open spec fn line_executable(line: Seq<char>) -> Option<Option<Seq<char>>> {
    let t = trim(line);
    if has_prefix(t, "add_executable"@) {
        Some(executable_name(t.skip("add_executable"@.len() as int)))
    } else {
        None
    }
}

/// The target of the first `add_executable` line of `s`; lines end at `\n`.
pub open spec fn first_executable(s: Seq<char>) -> Option<Seq<char>>
    decreases s.len(),
{
    if exists|i: int| is_first_char(s, '\n', i) {
        let i = choose|i: int| is_first_char(s, '\n', i);
        match line_executable(s.take(i)) {
            Some(r) => r,
            None => first_executable(s.skip(i + 1)),
        }
    } else {
        match line_executable(s) {
            Some(r) => r,
            None => None,
        }
    }
}

proof fn lemma_token_end_unique(s: Seq<char>, a: int, b: int)
    requires
        is_token_end(s, a),
        is_token_end(s, b),
    ensures
        a == b,
{
    if a < b {
        assert(is_name_char(s[a]));
    } else if b < a {
        assert(is_name_char(s[b]));
    }
}

fn token_end(s: &[char], lo: usize) -> (k: usize)
    requires
        lo <= s@.len(),
    ensures
        lo <= k <= s@.len(),
        is_token_end(s@.skip(lo as int), k - lo),
{
    let mut k: usize = lo;
    while k < s.len() && !is_whitespace(s[k]) && s[k] != ')'
        invariant
            lo <= k <= s@.len(),
            forall|j: int| lo <= j < k ==> is_name_char(#[trigger] s@[j]),
        decreases s@.len() - k,
    {
        k = k + 1;
    }
    proof {
        let t = s@.skip(lo as int);
        assert forall|j: int| 0 <= j < k - lo implies is_name_char(#[trigger] t[j]) by {
            assert(t[j] == s@[j + lo]);
        }
        if k < s@.len() {
            assert(t[k - lo] == s@[k as int]);
        }
    }
    k
}

fn executable_name_of(after: &[char]) -> (r: Option<String>)
    ensures
        opt_view(r) == executable_name(after@),
{
    let (lo, _hi) = trim_bounds(after);
    if lo < after.len() && after[lo] == '(' {
        let inner = sub_chars(after, lo + 1, after.len());
        assert(inner@ =~= after@.skip(lo as int).drop_first());
        let (lo2, _hi2) = trim_bounds(&inner);
        let k = token_end(&inner, lo2);
        proof {
            let t = inner@.skip(lo2 as int);
            let c = choose|c: int| is_token_end(t, c);
            lemma_token_end_unique(t, c, k - lo2);
            assert(t.take(k - lo2) =~= inner@.subrange(lo2 as int, k as int));
        }
        if k > lo2 {
            Some(string_of_range(&inner, lo2, k))
        } else {
            None
        }
    } else {
        None
    }
}

fn line_executable_of(line: &[char]) -> (r: Option<Option<String>>)
    ensures
        match r {
            Some(n) => line_executable(line@) == Some(opt_view(n)),
            None => line_executable(line@) is None,
        },
{
    let (lo, hi) = trim_bounds(line);
    let t = sub_chars(line, lo, hi);
    let p = chars_of("add_executable");
    if starts_with(&t, &p) {
        let after = sub_chars(&t, p.len(), t.len());
        assert(after@ =~= t@.skip(p@.len() as int));
        Some(executable_name_of(&after))
    } else {
        None
    }
}

/// The target of the first `add_executable(...)` line of a CMake file, or
/// `None` when there is none or that line names nothing.
pub fn first_cmake_executable(cmake: &str) -> (r: Option<String>)
    ensures
        opt_view(r) == first_executable(cmake@),
{
    let mut rest = chars_of(cmake);
    loop
        invariant
            first_executable(rest@) == first_executable(cmake@),
        decreases rest@.len(),
    {
        match find_char(&rest, '\n') {
            Some(i) => {
                assert(is_first_char(rest@, '\n', i as int));
                let n = rest.len();
                assert(i < n);
                proof {
                    let c = choose|c: int| is_first_char(rest@, '\n', c);
                    lemma_first_char_unique(rest@, '\n', i as int, c);
                }
                let line = sub_chars(&rest, 0, i);
                assert(line@ =~= rest@.take(i as int));
                match line_executable_of(&line) {
                    Some(r) => {
                        return r;
                    },
                    None => {
                        let next = sub_chars(&rest, i + 1, n);
                        assert(next@ =~= rest@.skip(i + 1));
                        rest = next;
                    },
                }
            },
            None => {
                return match line_executable_of(&rest) {
                    Some(r) => r,
                    None => None,
                };
            },
        }
    }
}

} // verus!
