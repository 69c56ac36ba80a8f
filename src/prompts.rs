//! Texts the daemon derives from a prompt or a diff: the prompt that asks
//! for a commit message, a commit message guessed from the changed files,
//! and the title and branch name of a new run.
use vstd::prelude::*;

use crate::text::{
    blank, chars_of, decimal, decimal_text, find_chars, find_from, has_prefix, is_blank,
    is_white_space, join_chars, lemma_find_from, joined, push_all, slice_chars, starts_with_chars, string_of,
    trim_chars, trimmed,
};

verus! {

// ---------------------------------------------------------------- lines

/// The index of the first line feed at or after `i`, or `s.len()`.
pub open spec fn first_newline(s: Seq<char>, i: int) -> int
    decreases s.len() - i,
{
    if i >= s.len() || s[i] == '\n' {
        i
    } else {
        first_newline(s, i + 1)
    }
}

/// `l` without one trailing carriage return.
pub open spec fn strip_cr(l: Seq<char>) -> Seq<char> {
    if l.len() > 0 && l.last() == '\r' {
        l.drop_last()
    } else {
        l
    }
}

/// The lines of `s` from index `i` on, as `str::lines` gives them: split at
/// each line feed, a carriage return before it dropped, no empty line after
/// a final line feed.
pub open spec fn lines_from(s: Seq<char>, i: int) -> Seq<Seq<char>>
    decreases s.len() - i,
    via lines_from_decreases
{
    if i < 0 || i >= s.len() {
        seq![]
    } else {
        let e = first_newline(s, i);
        if e >= s.len() {
            seq![s.subrange(i, s.len() as int)]
        } else {
            seq![strip_cr(s.subrange(i, e))] + lines_from(s, e + 1)
        }
    }
}

proof fn lemma_first_newline(s: Seq<char>, i: int)
    requires
        0 <= i <= s.len(),
    ensures
        i <= first_newline(s, i) <= s.len(),
        first_newline(s, i) < s.len() ==> s[first_newline(s, i)] == '\n',
    decreases s.len() - i,
{
    if i < s.len() && s[i] != '\n' {
        lemma_first_newline(s, i + 1);
    }
}

#[via_fn]
proof fn lines_from_decreases(s: Seq<char>, i: int) {
    if 0 <= i < s.len() {
        lemma_first_newline(s, i);
    }
}

fn first_newline_exec(v: &Vec<char>, i: usize) -> (r: usize)
    requires
        i <= v@.len(),
    ensures
        r == first_newline(v@, i as int),
        i <= r <= v@.len(),
{
    let mut j = i;
    while j < v.len() && v[j] != '\n'
        invariant
            i <= j <= v@.len(),
            first_newline(v@, i as int) == first_newline(v@, j as int),
        decreases v@.len() - j,
    {
        j = j + 1;
    }
    j
}

// ---------------------------------------------------------------- runs

/// Whether `c` separates runs: white space, or else a dash.
pub open spec fn is_sep(c: char, white: bool) -> bool {
    if white {
        is_white_space(c)
    } else {
        c == '-'
    }
}

/// The first index at or after `i` that holds no separator, or `s.len()`.
pub open spec fn skip_seps(s: Seq<char>, i: int, white: bool) -> int
    decreases s.len() - i,
{
    if i >= s.len() || !is_sep(s[i], white) {
        i
    } else {
        skip_seps(s, i + 1, white)
    }
}

/// The first index at or after `i` that holds a separator, or `s.len()`.
pub open spec fn run_end(s: Seq<char>, i: int, white: bool) -> int
    decreases s.len() - i,
{
    if i >= s.len() || is_sep(s[i], white) {
        i
    } else {
        run_end(s, i + 1, white)
    }
}

/// The maximal non-empty runs of non-separators in `s` from `i` on: the
/// words of `str::split_whitespace`, or the non-empty pieces of a split at
/// dashes.
pub open spec fn runs_from(s: Seq<char>, i: int, white: bool) -> Seq<Seq<char>>
    decreases s.len() - i,
    via runs_from_decreases
{
    if i < 0 {
        seq![]
    } else {
        let a = skip_seps(s, i, white);
        if a >= s.len() {
            seq![]
        } else {
            let b = run_end(s, a, white);
            seq![s.subrange(a, b)] + runs_from(s, b, white)
        }
    }
}

proof fn lemma_skip_seps(s: Seq<char>, i: int, white: bool)
    requires
        0 <= i,
    ensures
        i <= skip_seps(s, i, white),
        skip_seps(s, i, white) < s.len() ==> !is_sep(s[skip_seps(s, i, white)], white),
    decreases s.len() - i,
{
    if i < s.len() && is_sep(s[i], white) {
        lemma_skip_seps(s, i + 1, white);
    }
}

proof fn lemma_run_end(s: Seq<char>, i: int, white: bool)
    requires
        0 <= i <= s.len(),
    ensures
        i <= run_end(s, i, white) <= s.len(),
        i < s.len() && !is_sep(s[i], white) ==> i < run_end(s, i, white),
    decreases s.len() - i,
{
    if i < s.len() && !is_sep(s[i], white) {
        lemma_run_end(s, i + 1, white);
    }
}

#[via_fn]
proof fn runs_from_decreases(s: Seq<char>, i: int, white: bool) {
    if i >= 0 {
        lemma_skip_seps(s, i, white);
        let a = skip_seps(s, i, white);
        if a < s.len() {
            lemma_run_end(s, a, white);
        }
    }
}

fn is_sep_exec(c: char, white: bool) -> (r: bool)
    ensures
        r == is_sep(c, white),
{
    if white {
        c.is_whitespace()
    } else {
        c == '-'
    }
}

/// The first `n` items of `s`, or all of them when there are fewer.
pub open spec fn first_n<A>(s: Seq<A>, n: int) -> Seq<A> {
    if s.len() <= n {
        s
    } else {
        s.subrange(0, n)
    }
}

/// The first `limit` runs of `v`, each as a vector of its own.
fn runs_exec(v: &Vec<char>, white: bool, limit: usize) -> (r: Vec<Vec<char>>)
    ensures
        r@.map_values(|p: Vec<char>| p@) == first_n(runs_from(v@, 0, white), limit as int),
{
    let mut out: Vec<Vec<char>> = Vec::new();
    let mut i: usize = 0;
    while i < v.len() && out.len() < limit
        invariant
            i <= v@.len(),
            out@.len() <= limit,
            first_n(runs_from(v@, 0, white), limit as int) == first_n(
                out@.map_values(|p: Vec<char>| p@) + runs_from(v@, i as int, white),
                limit as int,
            ),
        decreases v@.len() - i,
    {
        let ghost views = out@.map_values(|p: Vec<char>| p@);
        proof {
            lemma_skip_seps(v@, i as int, white);
        }
        let mut a = i;
        while a < v.len() && is_sep_exec(v[a], white)
            invariant
                i <= a <= v@.len(),
                skip_seps(v@, i as int, white) == skip_seps(v@, a as int, white),
            decreases v@.len() - a,
        {
            a = a + 1;
        }
        if a >= v.len() {
            assert(runs_from(v@, i as int, white) == Seq::<Seq<char>>::empty());
            i = a;
            assert(runs_from(v@, i as int, white) == Seq::<Seq<char>>::empty());
        } else {
            proof {
                lemma_run_end(v@, a as int, white);
            }
            let mut b = a;
            while b < v.len() && !is_sep_exec(v[b], white)
                invariant
                    a <= b <= v@.len(),
                    run_end(v@, a as int, white) == run_end(v@, b as int, white),
                decreases v@.len() - b,
            {
                b = b + 1;
            }
            let piece = slice_chars(v, a, b);
            out.push(piece);
            proof {
                let rest = runs_from(v@, b as int, white);
                assert(runs_from(v@, i as int, white) == seq![v@.subrange(a as int, b as int)] + rest);
                assert(out@.map_values(|p: Vec<char>| p@) =~= views.push(v@.subrange(a as int, b as int)));
                assert(views + runs_from(v@, i as int, white) =~= out@.map_values(|p: Vec<char>| p@) + rest);
            }
            i = b;
        }
    }
    proof {
        let views = out@.map_values(|p: Vec<char>| p@);
        if out@.len() == limit {
            assert(first_n(views + runs_from(v@, i as int, white), limit as int) =~= views);
        } else {
            assert(i == v@.len());
            lemma_skip_seps(v@, i as int, white);
            assert(runs_from(v@, i as int, white) == Seq::<Seq<char>>::empty());
            assert(views + runs_from(v@, i as int, white) =~= views);
        }
    }
    out
}

// ---------------------------------------------------------------- commit messages

/// The prompt that asks an agent for a commit message describing `diff`.
pub open spec fn commit_prompt(diff: Seq<char>) -> Seq<char> {
    "Generate a concise git commit message for the following changes. Follow conventional commit format (e.g., feat:, fix:, refactor:, docs:, etc.). Keep the summary line under 72 characters. Only output the commit message, nothing else.\n\nChanges:\n"@
        + diff
}

/// The prompt that asks an agent for a commit message describing `diff`.
pub fn build_commit_message_prompt(diff: &str) -> (r: String)
    ensures
        r@ == commit_prompt(diff@),
{
    let mut out = "Generate a concise git commit message for the following changes. Follow conventional commit format (e.g., feat:, fix:, refactor:, docs:, etc.). Keep the summary line under 72 characters. Only output the commit message, nothing else.\n\nChanges:\n".to_owned();
    push_all(&mut out, diff);
    out
}

/// The text between the first and the second occurrence of `pat` in `s`
/// (or the end of `s`): the second piece of a split of `s` at `pat`.
pub open spec fn second_piece(s: Seq<char>, pat: Seq<char>) -> Option<Seq<char>> {
    match find_from(s, pat, 0) {
        None => None,
        Some(p) => {
            let start = p + pat.len();
            match find_from(s, pat, start) {
                Some(q) => Some(s.subrange(start, q)),
                None => Some(s.subrange(start, s.len() as int)),
            }
        },
    }
}

/// The file a line of a diff names as changed: a line `diff --git a/X b/Y`
/// names `Y`, trimmed, when that is not empty.
pub open spec fn file_of_line(l: Seq<char>) -> Option<Seq<char>> {
    let head = "diff --git a/"@;
    if has_prefix(l, head) {
        match second_piece(l.subrange(head.len() as int, l.len() as int), " b/"@) {
            Some(seg) => if trimmed(seg).len() > 0 {
                Some(trimmed(seg))
            } else {
                None
            },
            None => None,
        }
    } else {
        None
    }
}

/// The files that a run of diff lines names, in order.
pub open spec fn files_in(lines: Seq<Seq<char>>) -> Seq<Seq<char>>
    decreases lines.len(),
{
    if lines.len() == 0 {
        seq![]
    } else {
        match file_of_line(lines[0]) {
            Some(f) => seq![f] + files_in(lines.drop_first()),
            None => files_in(lines.drop_first()),
        }
    }
}

/// The files that a diff names as changed.
pub open spec fn changed_files(diff: Seq<char>) -> Seq<Seq<char>> {
    files_in(lines_from(diff, 0))
}

/// A commit message for a change of the given files.
pub open spec fn commit_message_for(files: Seq<Seq<char>>) -> Seq<char> {
    if files.len() == 0 {
        "chore: update workspace files"@
    } else if files.len() == 1 {
        "chore: update "@ + files[0]
    } else {
        "chore: update "@ + decimal(files.len()) + " files"@
    }
}

fn file_of_line_exec(line: &Vec<char>) -> (r: Option<Vec<char>>)
    ensures
        match r {
            Some(f) => file_of_line(line@) == Some(f@),
            None => file_of_line(line@) is None,
        },
{
    let head = chars_of("diff --git a/");
    if !starts_with_chars(line, &head) {
        return None;
    }
    let rest = slice_chars(line, head.len(), line.len());
    let pat = chars_of(" b/");
    let p = match find_chars(&rest, &pat, 0) {
        Some(p) => p,
        None => return None,
    };
    proof {
        lemma_find_from(rest@, pat@, 0);
    }
    let start = p + pat.len();
    let end = match find_chars(&rest, &pat, start) {
        Some(q) => {
            proof {
                lemma_find_from(rest@, pat@, start as int);
            }
            q
        },
        None => rest.len(),
    };
    let seg = trim_chars(&slice_chars(&rest, start, end));
    if seg.len() > 0 {
        Some(seg)
    } else {
        None
    }
}

/// A commit message guessed from the files a diff names: none gives a
/// generic message, one gives its path, more give their count.
pub fn heuristic_commit_message(diff: &str) -> (r: String)
    ensures
        r@ == commit_message_for(changed_files(diff@)),
{
    let v = chars_of(diff);
    let ghost mut found: Seq<Seq<char>> = seq![];
    let mut count: usize = 0;
    let mut first: Vec<char> = Vec::new();
    let mut pos: usize = 0;
    while pos < v.len()
        invariant
            pos <= v@.len(),
            v@ == diff@,
            count == found.len(),
            count <= pos,
            count > 0 ==> first@ == found[0],
            changed_files(diff@) == found + files_in(lines_from(v@, pos as int)),
        decreases v@.len() - pos,
    {
        let e = first_newline_exec(&v, pos);
        proof {
            lemma_first_newline(v@, pos as int);
        }
        let line = if e < v.len() {
            let raw = slice_chars(&v, pos, e);
            if raw.len() > 0 && raw[raw.len() - 1] == '\r' {
                slice_chars(&v, pos, e - 1)
            } else {
                raw
            }
        } else {
            slice_chars(&v, pos, v.len())
        };
        let next = if e < v.len() {
            e + 1
        } else {
            v.len()
        };
        proof {
            let rest = lines_from(v@, next as int);
            if e < v@.len() {
                let raw = v@.subrange(pos as int, e as int);
                if raw.len() > 0 && raw.last() == '\r' {
                    assert(v@.subrange(pos as int, e - 1) =~= raw.drop_last());
                }
                assert(line@ == strip_cr(raw));
            } else {
                assert(rest == Seq::<Seq<char>>::empty());
            }
            assert(lines_from(v@, pos as int) == seq![line@] + rest);
            assert((seq![line@] + rest).drop_first() =~= rest);
        }
        match file_of_line_exec(&line) {
            Some(f) => {
                if count == 0 {
                    first = f;
                }
                proof {
                    found = found.push(f@);
                }
                count = count + 1;
                proof {
                    assert(found.subrange(0, found.len() - 1) + seq![f@] =~= found);
                }
            },
            None => {},
        }
        proof {
            let rest = lines_from(v@, next as int);
            assert(changed_files(diff@) =~= found + files_in(rest));
        }
        pos = next;
    }
    proof {
        assert(lines_from(v@, pos as int) == Seq::<Seq<char>>::empty());
        assert(found + Seq::<Seq<char>>::empty() =~= found);
    }
    if count == 0 {
        "chore: update workspace files".to_owned()
    } else if count == 1 {
        let mut out = "chore: update ".to_owned();
        push_all(&mut out, string_of(&first).as_str());
        out
    } else {
        let mut out = "chore: update ".to_owned();
        push_all(&mut out, decimal_text(count as u64).as_str());
        push_all(&mut out, " files");
        out
    }
}

// ---------------------------------------------------------------- run metadata

/// What `char::to_uppercase` gives for `c`.
pub uninterp spec fn upper_of(c: char) -> Seq<char>;

/// What `str::to_lowercase` gives for `s`.
pub uninterp spec fn lower_of(s: Seq<char>) -> Seq<char>;

/// Relies on `char::to_uppercase`: the upper-case form of `c` (one or more
/// characters), which depends on `c` alone.
#[verifier::external_body]
fn upper_text(c: char) -> (r: String)
    ensures
        r@ == upper_of(c),
{
    c.to_uppercase().collect()
}

/// Relies on `str::to_lowercase`: the lower-case form of `s`, which depends
/// on `s` alone.
#[verifier::external_body]
fn lower_text(s: &str) -> (r: String)
    ensures
        r@ == lower_of(s@),
{
    s.to_lowercase()
}

/// How many words of a prompt make a run's title.
pub const TITLE_WORDS: usize = 7;

/// How many pieces of a prompt make a worktree name.
pub const NAME_PIECES: usize = 6;

/// The words of a prompt that make a run's title.
pub open spec fn title_words_of(prompt: Seq<char>) -> Seq<Seq<char>> {
    first_n(runs_from(prompt, 0, true), TITLE_WORDS as int)
}

/// A word with its first character in upper case.
pub open spec fn capitalized(w: Seq<char>) -> Seq<char> {
    if w.len() == 0 {
        seq![]
    } else {
        upper_of(w[0]) + w.drop_first()
    }
}

/// The title of a run started with `prompt`: its first words, each with an
/// upper-case first character, or "New Task" for a blank prompt.
pub open spec fn run_title(prompt: Seq<char>) -> Seq<char> {
    if is_blank(prompt) {
        "New Task"@
    } else {
        joined(title_words_of(prompt).map_values(|w: Seq<char>| capitalized(w)), " "@)
    }
}

/// The words of a prompt that make a run's title: its first words, split at
/// white space.
pub fn title_words(prompt: &str) -> (r: Vec<String>)
    ensures
        r@.map_values(|w: String| w@) == title_words_of(prompt@),
{
    let words = runs_exec(&chars_of(prompt), true, TITLE_WORDS);
    let mut out: Vec<String> = Vec::new();
    let mut i: usize = 0;
    while i < words.len()
        invariant
            i <= words@.len(),
            out@.map_values(|w: String| w@) == words@.map_values(|p: Vec<char>| p@).subrange(0, i as int),
        decreases words@.len() - i,
    {
        let ghost prev = out@.map_values(|w: String| w@);
        let ghost wv = words@.map_values(|p: Vec<char>| p@);
        out.push(string_of(&words[i]));
        assert(out@.map_values(|w: String| w@) =~= prev.push(wv[i as int]));
        i = i + 1;
        assert(wv.subrange(0, i as int) =~= wv.subrange(0, i - 1).push(wv[i - 1]));
    }
    assert(words@.map_values(|p: Vec<char>| p@).subrange(0, words@.len() as int) =~= words@.map_values(|p: Vec<char>| p@));
    out
}

/// The title of a run started with `prompt`.
pub fn build_run_title(prompt: &str) -> (r: String)
    ensures
        r@ == run_title(prompt@),
{
    if blank(prompt) {
        return "New Task".to_owned();
    }
    let words = runs_exec(&chars_of(prompt), true, TITLE_WORDS);
    let ghost views = words@.map_values(|p: Vec<char>| p@);
    let mut caps: Vec<Vec<char>> = Vec::new();
    let mut i: usize = 0;
    while i < words.len()
        invariant
            i <= words@.len(),
            views == words@.map_values(|p: Vec<char>| p@),
            caps@.map_values(|p: Vec<char>| p@) == views.subrange(0, i as int).map_values(
                |w: Seq<char>| capitalized(w),
            ),
        decreases words@.len() - i,
    {
        let w = &words[i];
        let mut c: Vec<char> = Vec::new();
        if w.len() > 0 {
            c = chars_of(upper_text(w[0]).as_str());
            let mut k: usize = 1;
            let ghost head = c@;
            while k < w.len()
                invariant
                    1 <= k <= w@.len(),
                    c@ == head + w@.subrange(1, k as int),
                decreases w@.len() - k,
            {
                c.push(w[k]);
                k = k + 1;
                assert(c@ =~= head + w@.subrange(1, k as int));
            }
            assert(w@.subrange(1, w@.len() as int) =~= w@.drop_first());
        }
        assert(c@ == capitalized(views[i as int]));
        let ghost prev = caps@.map_values(|p: Vec<char>| p@);
        caps.push(c);
        assert(caps@.map_values(|p: Vec<char>| p@) =~= prev.push(capitalized(views[i as int])));
        i = i + 1;
        assert(views.subrange(0, i as int).map_values(|w: Seq<char>| capitalized(w)) =~= views.subrange(
            0,
            i - 1,
        ).map_values(|w: Seq<char>| capitalized(w)).push(capitalized(views[i - 1])));
    }
    assert(views.subrange(0, words@.len() as int) =~= views);
    join_chars(&caps, " ")
}

/// Whether `c` is an ASCII letter or digit.
pub open spec fn is_ascii_alnum(c: char) -> bool {
    ('0' <= c <= '9') || ('a' <= c <= 'z') || ('A' <= c <= 'Z')
}

/// `c`, or a dash when it is no ASCII letter or digit.
pub open spec fn slug_char(c: char) -> char {
    if is_ascii_alnum(c) {
        c
    } else {
        '-'
    }
}

/// The branch name of a run, from its prompt already in lower case: up to
/// six runs of ASCII letters and digits joined by dashes under `feat/`, or
/// `feat/new-task` when there are none.
pub open spec fn worktree_name_of(lower: Seq<char>) -> Seq<char> {
    let slug = joined(
        first_n(runs_from(lower.map_values(|c: char| slug_char(c)), 0, false), NAME_PIECES as int),
        "-"@,
    );
    if slug.len() == 0 {
        "feat/new-task"@
    } else {
        "feat/"@ + slug
    }
}

/// The branch name of a run, from its prompt already in lower case.
pub fn worktree_name_from_lower(lower: &str) -> (r: String)
    ensures
        r@ == worktree_name_of(lower@),
{
    let v = chars_of(lower);
    let mut mapped: Vec<char> = Vec::new();
    let mut i: usize = 0;
    while i < v.len()
        invariant
            v@ == lower@,
            i <= v@.len(),
            mapped@ == v@.subrange(0, i as int).map_values(|c: char| slug_char(c)),
        decreases v@.len() - i,
    {
        let c = v[i];
        let keep = ('0' <= c && c <= '9') || ('a' <= c && c <= 'z') || ('A' <= c && c <= 'Z');
        mapped.push(if keep { c } else { '-' });
        i = i + 1;
        assert(mapped@ =~= v@.subrange(0, i as int).map_values(|c: char| slug_char(c)));
    }
    assert(v@.subrange(0, v@.len() as int) =~= v@);
    let pieces = runs_exec(&mapped, false, NAME_PIECES);
    let slug = join_chars(&pieces, "-");
    if slug.as_str().is_empty() {
        "feat/new-task".to_owned()
    } else {
        let mut out = "feat/".to_owned();
        push_all(&mut out, slug.as_str());
        out
    }
}

/// The branch name of a run started with `prompt`.
pub fn build_worktree_name(prompt: &str) -> (r: String)
    ensures
        r@ == worktree_name_of(lower_of(prompt@)),
{
    worktree_name_from_lower(lower_text(prompt).as_str())
}

} // verus!
