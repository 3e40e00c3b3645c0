//! `init`: make a repository ready for benchmark tracking.
use vstd::prelude::*;

use crate::text::{
    chars_of, eq_chars, find_char, is_first_char, lemma_first_char_unique, owned, push_all,
    push_char, spec_is_whitespace, sub_chars, trim, trim_bounds, trim_end, trim_start,
};

verus! {

/// Scaffold `rafn.toml` (and the `.gitignore` entry) in the working
/// directory.
#[derive(Debug, Clone, Copy)]
pub struct InitCommand;

/// The `rafn.toml` written by `init`: the cloud backend, made explicit.
pub open spec fn rafn_toml_contents() -> Seq<char> {
    "[backend]\ntype = \"cloud\"\n"@
}

/// The contents of a new `rafn.toml`.
pub fn rafn_toml() -> (r: String)
    ensures
        r@ == rafn_toml_contents(),
{
    owned("[backend]\ntype = \"cloud\"\n")
}

/// The `.gitignore` entry that keeps snapshots out of version control.
pub open spec fn gitignore_entry() -> Seq<char> {
    ".rafn/snapshots"@
}

/// Some line of `s` (lines end at `\n`) reads the entry once trimmed.
pub open spec fn has_entry_line(s: Seq<char>) -> bool
    decreases s.len(),
{
    if exists|i: int| is_first_char(s, '\n', i) {
        let i = choose|i: int| is_first_char(s, '\n', i);
        trim(s.take(i)) == gitignore_entry() || has_entry_line(s.skip(i + 1))
    } else {
        trim(s) == gitignore_entry()
    }
}

/// The text after adding the entry: a line break first unless the text is
/// empty or already ends with one, then the entry and a line break.
pub open spec fn with_entry(s: Seq<char>) -> Seq<char> {
    let sep = if s.len() > 0 && s.last() != '\n' {
        seq!['\n']
    } else {
        Seq::empty()
    };
    s + sep + gitignore_entry() + seq!['\n']
}

/// The new `.gitignore` text, or `None` when a line already holds the
/// entry and the file is left as it is.
pub open spec fn spec_gitignore_update(existing: Seq<char>) -> Option<Seq<char>> {
    if has_entry_line(existing) {
        None
    } else {
        Some(with_entry(existing))
    }
}

fn is_entry(line: &[char]) -> (r: bool)
    ensures
        r == (trim(line@) == gitignore_entry()),
{
    let (lo, hi) = trim_bounds(line);
    let t = sub_chars(line, lo, hi);
    let e = chars_of(".rafn/snapshots");
    eq_chars(&t, &e)
}

/// Adds `.rafn/snapshots` to a `.gitignore` text (empty when the file does
/// not exist): `None` when some line already holds it.
pub fn gitignore_update(existing: &str) -> (r: Option<String>)
    ensures
        match r {
            Some(t) => spec_gitignore_update(existing@) == Some(t@),
            None => spec_gitignore_update(existing@) is None,
        },
{
    let cs = chars_of(existing);
    let mut rest = chars_of(existing);
    let mut found = false;
    loop
        invariant_except_break
            !found,
            has_entry_line(cs@) == has_entry_line(rest@),
        invariant
            cs@ == existing@,
        ensures
            has_entry_line(cs@) == found,
        decreases rest@.len(),
    {
        match find_char(&rest, '\n') {
            Some(i) => {
                let n = rest.len();
                assert(is_first_char(rest@, '\n', i as int));
                assert(i < n);
                proof {
                    let c = choose|c: int| is_first_char(rest@, '\n', c);
                    lemma_first_char_unique(rest@, '\n', i as int, c);
                }
                let line = sub_chars(&rest, 0, i);
                assert(line@ =~= rest@.take(i as int));
                if is_entry(&line) {
                    found = true;
                    break;
                }
                let next = sub_chars(&rest, i + 1, n);
                assert(next@ =~= rest@.skip(i + 1));
                rest = next;
            },
            None => {
                found = is_entry(&rest);
                break;
            },
        }
    }
    if found {
        return None;
    }
    let mut updated = owned(existing);
    if cs.len() > 0 && cs[cs.len() - 1] != '\n' {
        push_char(&mut updated, '\n');
    }
    push_all(&mut updated, ".rafn/snapshots");
    push_char(&mut updated, '\n');
    Some(updated)
}

proof fn lemma_entry_facts()
    ensures
        gitignore_entry().len() == 15,
        forall|k: int| 0 <= k < 15 ==> gitignore_entry()[k] != '\n',
        trim(gitignore_entry()) == gitignore_entry(),
{
    reveal_strlit(".rafn/snapshots");
    let e = gitignore_entry();
    assert(!spec_is_whitespace(e[0]));
    assert(trim_start(e) == e);
    assert(!spec_is_whitespace(e.last()));
    assert(trim_end(e) == e);
}

proof fn lemma_first_break_exists(p: Seq<char>)
    requires
        p.len() > 0,
        p.last() == '\n',
    ensures
        exists|i: int| is_first_char(p, '\n', i),
    decreases p.len(),
{
    if p[0] == '\n' {
        assert(is_first_char(p, '\n', 0));
    } else {
        let t = p.drop_first();
        assert(t.last() == p.last());
        lemma_first_break_exists(t);
        let i = choose|i: int| is_first_char(t, '\n', i);
        assert forall|j: int| 0 <= j < i + 1 implies #[trigger] p[j] != '\n' by {
            if j > 0 {
                assert(p[j] == t[j - 1]);
            }
        }
        assert(is_first_char(p, '\n', i + 1));
    }
}

/// `p` followed by the entry's line holds the entry, when `p` is empty or
/// ends a line.
proof fn lemma_entry_line_found(p: Seq<char>)
    requires
        p.len() == 0 || p.last() == '\n',
    ensures
        has_entry_line(p + gitignore_entry() + seq!['\n']),
    decreases p.len(),
{
    lemma_entry_facts();
    let e = gitignore_entry();
    let s = p + e + seq!['\n'];
    if p.len() == 0 {
        assert(s =~= e + seq!['\n']);
        assert(is_first_char(s, '\n', 15));
        let c = choose|c: int| is_first_char(s, '\n', c);
        lemma_first_char_unique(s, '\n', 15, c);
        assert(s.take(15) =~= e);
    } else {
        lemma_first_break_exists(p);
        let i = choose|i: int| is_first_char(p, '\n', i);
        assert forall|j: int| 0 <= j < i implies #[trigger] s[j] != '\n' by {
            assert(s[j] == p[j]);
        }
        assert(is_first_char(s, '\n', i));
        let c = choose|c: int| is_first_char(s, '\n', c);
        lemma_first_char_unique(s, '\n', i, c);
        let q = p.skip(i + 1);
        assert(s.skip(i + 1) =~= q + e + seq!['\n']);
        if q.len() > 0 {
            assert(q.last() == p.last());
        }
        lemma_entry_line_found(q);
    }
}

/// Adding the entry is idempotent: once a text has been updated, a second
/// update finds the entry and leaves it as it is.
pub proof fn lemma_gitignore_update_idempotent(existing: Seq<char>)
    ensures
        spec_gitignore_update(existing) matches Some(updated) ==> spec_gitignore_update(updated)
            is None,
{
    let sep = if existing.len() > 0 && existing.last() != '\n' {
        seq!['\n']
    } else {
        Seq::<char>::empty()
    };
    let p = existing + sep;
    if p.len() > 0 {
        assert(p.last() == '\n');
    }
    assert(with_entry(existing) =~= p + gitignore_entry() + seq!['\n']);
    lemma_entry_line_found(p);
}

} // verus!
