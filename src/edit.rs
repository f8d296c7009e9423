//! Line-oriented edits of a file's text.
use vstd::prelude::*;
use crate::pattern::{match_count, pattern_valid, replaced_all, Pattern, PatternError};
use crate::text::{
    count_matches, count_occurrences, matches_at, occurs_at, slice_of, append_chars, chars_of, ends_with_str, finishes, lines_of, split_lines, string_of, views,
};

verus! {

/// One edit of a file, by 1-based line numbers.
pub enum FileEdit {
    Replace { start_line: usize, end_line: usize, new_text: String },
    Insert { line: usize, text: String },
    Delete { start_line: usize, end_line: usize },
}

/// Why an edit was refused.
#[derive(Debug, Clone, Copy, PartialEq, Eq, Structural)]
pub enum EditError {
    InvalidRange { start_line: usize, end_line: usize },
    InvalidLine { line: usize },
}

pub struct FileEditor;

/// `h` from position `i` on with each non-overlapping occurrence of `p`
/// replaced by `r`, as `str::replace` does it; an empty `p` matches at
/// every character boundary.
pub open spec fn replace_from(h: Seq<char>, p: Seq<char>, r: Seq<char>, i: int) -> Seq<char>
    decreases h.len() - i, 1int,
{
    if i < 0 || i > h.len() {
        Seq::empty()
    } else if p.len() == 0 {
        if i == h.len() {
            r
        } else {
            r + seq![h[i]] + replace_from(h, p, r, i + 1)
        }
    } else if i + p.len() > h.len() {
        h.subrange(i, h.len() as int)
    } else if occurs_at(h, p, i) {
        r + replace_from(h, p, r, i + p.len())
    } else {
        seq![h[i]] + replace_from(h, p, r, i + 1)
    }
}

/// The text of a find-and-replace and the number of matches: literal, or
/// by regular expression; `None` where the expression does not compile.
pub open spec fn found_and_replaced(c: Seq<char>, p: Seq<char>, r: Seq<char>, regex: bool) -> Option<
    (Seq<char>, nat),
> {
    if regex {
        if pattern_valid(p) {
            Some((replaced_all(p, c, r), match_count(p, c)))
        } else {
            None
        }
    } else {
        Some((replace_from(c, p, r, 0), count_matches(c, p)))
    }
}

/// The lines, each followed by a newline.
pub open spec fn joined(ls: Seq<Seq<char>>) -> Seq<char>
    decreases ls.len(),
{
    if ls.len() == 0 {
        Seq::empty()
    } else {
        joined(ls.drop_last()) + ls.last() + seq!['\n']
    }
}

/// A text ending in a newline, one added where it lacks it.
pub open spec fn terminated(t: Seq<char>) -> Seq<char> {
    if finishes(t, "\n"@) {
        t
    } else {
        t.push('\n')
    }
}

/// Whether `start..=end` is a range of existing lines.
pub open spec fn valid_range(n: nat, start: nat, end: nat) -> bool {
    1 <= start <= n && start <= end <= n
}

/// Lines `start..=end` replaced by `t`.
pub open spec fn replaced(c: Seq<char>, start: nat, end: nat, t: Seq<char>) -> Seq<char> {
    let ls = lines_of(c);
    joined(ls.subrange(0, start - 1)) + terminated(t) + joined(ls.subrange(end as int, ls.len() as int))
}

/// `t` inserted before line `line`.
pub open spec fn inserted(c: Seq<char>, line: nat, t: Seq<char>) -> Seq<char> {
    let ls = lines_of(c);
    joined(ls.subrange(0, line - 1)) + terminated(t) + joined(ls.subrange(line - 1, ls.len() as int))
}

/// Lines `start..=end` removed.
pub open spec fn deleted(c: Seq<char>, start: nat, end: nat) -> Seq<char> {
    let ls = lines_of(c);
    joined(ls.subrange(0, start - 1)) + joined(ls.subrange(end as int, ls.len() as int))
}

/// The text after an edit, or why the edit was refused.
pub open spec fn edited(c: Seq<char>, e: FileEdit) -> Result<Seq<char>, EditError> {
    let n = lines_of(c).len();
    match e {
        FileEdit::Replace { start_line, end_line, new_text } => if valid_range(
            n,
            start_line as nat,
            end_line as nat,
        ) {
            Ok(replaced(c, start_line as nat, end_line as nat, new_text@))
        } else {
            Err(EditError::InvalidRange { start_line, end_line })
        },
        FileEdit::Insert { line, text } => if 1 <= line <= n + 1 {
            Ok(inserted(c, line as nat, text@))
        } else {
            Err(EditError::InvalidLine { line })
        },
        FileEdit::Delete { start_line, end_line } => if valid_range(
            n,
            start_line as nat,
            end_line as nat,
        ) {
            Ok(deleted(c, start_line as nat, end_line as nat))
        } else {
            Err(EditError::InvalidRange { start_line, end_line })
        },
    }
}

/// Appends lines `a..b`, each with a newline.
fn push_lines(out: &mut Vec<char>, ls: &Vec<Vec<char>>, a: usize, b: usize)
    requires
        a <= b <= ls.len(),
    ensures
        final(out)@ == old(out)@ + joined(views(ls@).subrange(a as int, b as int)),
{
    let ghost lv = views(ls@);
    let mut i: usize = a;
    assert(lv.subrange(a as int, a as int) =~= Seq::<Seq<char>>::empty());
    assert(out@ =~= old(out)@ + joined(lv.subrange(a as int, a as int)));
    while i < b
        invariant
            a <= i <= b <= ls.len(),
            lv == views(ls@),
            out@ == old(out)@ + joined(lv.subrange(a as int, i as int)),
        decreases b - i,
    {
        assert(lv.subrange(a as int, i + 1).drop_last() =~= lv.subrange(a as int, i as int));
        assert(lv.subrange(a as int, i + 1).last() == ls@[i as int]@);
        append_chars(out, &ls[i]);
        out.push('\n');
        i = i + 1;
        assert(out@ =~= old(out)@ + joined(lv.subrange(a as int, i as int)));
    }
}

/// Appends `t`, with a newline where it lacks one.
fn push_terminated(out: &mut Vec<char>, t: &str)
    ensures
        final(out)@ == old(out)@ + terminated(t@),
{
    let tv = chars_of(t);
    let ends = ends_with_str(&tv, "\n");
    append_chars(out, &tv);
    if !ends {
        out.push('\n');
    }
    assert(out@ =~= old(out)@ + terminated(t@));
}

/// `h` with each non-overlapping occurrence of `p` replaced by `r`.
fn replace_text(h: &Vec<char>, p: &Vec<char>, r: &Vec<char>) -> (out: Vec<char>)
    ensures
        out@ == replace_from(h@, p@, r@, 0),
{
    let mut out: Vec<char> = Vec::new();
    let mut i: usize = 0;
    while i < h.len()
        invariant
            i <= h.len(),
            out@ + replace_from(h@, p@, r@, i as int) == replace_from(h@, p@, r@, 0),
        decreases h.len() - i,
    {
        let ghost o0 = out@;
        if p.len() == 0 {
            append_chars(&mut out, r);
            out.push(h[i]);
            i = i + 1;
            assert(out@ + replace_from(h@, p@, r@, i as int) =~= o0 + replace_from(
                h@,
                p@,
                r@,
                i - 1,
            ));
        } else if p.len() > h.len() - i {
            let rest = slice_of(h, i, h.len());
            append_chars(&mut out, &rest);
            assert(out@ =~= replace_from(h@, p@, r@, 0));
            return out;
        } else if matches_at(h, p, i) {
            append_chars(&mut out, r);
            i = i + p.len();
            assert(out@ + replace_from(h@, p@, r@, i as int) =~= o0 + replace_from(
                h@,
                p@,
                r@,
                i - p.len(),
            ));
        } else {
            out.push(h[i]);
            i = i + 1;
            assert(out@ + replace_from(h@, p@, r@, i as int) =~= o0 + replace_from(
                h@,
                p@,
                r@,
                i - 1,
            ));
        }
    }
    if p.len() == 0 {
        append_chars(&mut out, r);
    }
    assert(out@ =~= replace_from(h@, p@, r@, 0));
    out
}

impl FileEditor {
    /// Replaces lines `start_line..=end_line` (1-based) by `new_text`.
    pub fn replace_lines(content: &str, start_line: usize, end_line: usize, new_text: &str) -> (r:
        Result<String, EditError>)
        ensures
            r matches Ok(s) ==> valid_range(lines_of(content@).len(), start_line as nat, end_line as nat)
                && s@ == replaced(content@, start_line as nat, end_line as nat, new_text@),
            r is Err <==> !valid_range(lines_of(content@).len(), start_line as nat, end_line as nat),
            r matches Err(e) ==> e == (EditError::InvalidRange { start_line, end_line }),
    {
        let ls = split_lines(&chars_of(content));
        if start_line == 0 || start_line > ls.len() || end_line < start_line || end_line
            > ls.len() {
            return Err(EditError::InvalidRange { start_line, end_line });
        }
        let mut out: Vec<char> = Vec::new();
        push_lines(&mut out, &ls, 0, start_line - 1);
        push_terminated(&mut out, new_text);
        push_lines(&mut out, &ls, end_line, ls.len());
        assert(out@ =~= replaced(content@, start_line as nat, end_line as nat, new_text@));
        Ok(string_of(&out))
    }

    /// Inserts `text` before line `line_num` (1-based; one past the last
    /// line appends).
    pub fn insert_at_line(content: &str, line_num: usize, text: &str) -> (r: Result<
        String,
        EditError,
    >)
        ensures
            r matches Ok(s) ==> 1 <= line_num <= lines_of(content@).len() + 1 && s@ == inserted(
                content@,
                line_num as nat,
                text@,
            ),
            r is Err <==> !(1 <= line_num <= lines_of(content@).len() + 1),
            r matches Err(e) ==> e == (EditError::InvalidLine { line: line_num }),
    {
        let ls = split_lines(&chars_of(content));
        if line_num == 0 || line_num - 1 > ls.len() {
            return Err(EditError::InvalidLine { line: line_num });
        }
        let mut out: Vec<char> = Vec::new();
        push_lines(&mut out, &ls, 0, line_num - 1);
        push_terminated(&mut out, text);
        push_lines(&mut out, &ls, line_num - 1, ls.len());
        assert(out@ =~= inserted(content@, line_num as nat, text@));
        Ok(string_of(&out))
    }

    /// Removes lines `start_line..=end_line` (1-based).
    pub fn delete_lines(content: &str, start_line: usize, end_line: usize) -> (r: Result<
        String,
        EditError,
    >)
        ensures
            r matches Ok(s) ==> valid_range(lines_of(content@).len(), start_line as nat, end_line as nat)
                && s@ == deleted(content@, start_line as nat, end_line as nat),
            r is Err <==> !valid_range(lines_of(content@).len(), start_line as nat, end_line as nat),
            r matches Err(e) ==> e == (EditError::InvalidRange { start_line, end_line }),
    {
        let ls = split_lines(&chars_of(content));
        if start_line == 0 || start_line > ls.len() || end_line < start_line || end_line
            > ls.len() {
            return Err(EditError::InvalidRange { start_line, end_line });
        }
        let mut out: Vec<char> = Vec::new();
        push_lines(&mut out, &ls, 0, start_line - 1);
        push_lines(&mut out, &ls, end_line, ls.len());
        assert(out@ =~= deleted(content@, start_line as nat, end_line as nat));
        Ok(string_of(&out))
    }

    /// `content` with each occurrence of `pattern` replaced, and how many
    /// there were; by regular expression where `use_regex` is set.
    pub fn find_and_replace(content: &str, pattern: &str, replacement: &str, use_regex: bool) -> (r:
        Result<(String, usize), PatternError>)
        requires
            pattern@.len() > 0 || content@.len() < usize::MAX,
        ensures
            match (r, found_and_replaced(content@, pattern@, replacement@, use_regex)) {
                (Ok((s, n)), Some((t, m))) => s@ == t && n as nat == m,
                (Err(_), None) => true,
                _ => false,
            },
    {
        if use_regex {
            match Pattern::new(pattern) {
                Ok(p) => Ok((p.replace_all(content, replacement), p.count_in(content))),
                Err(e) => Err(e),
            }
        } else {
            let c = chars_of(content);
            let p = chars_of(pattern);
            let n = count_occurrences(&c, &p);
            let out = replace_text(&c, &p, &chars_of(replacement));
            Ok((string_of(&out), n))
        }
    }

    /// The text of a file after an edit.
    pub fn apply_edit(content: &str, edit: &FileEdit) -> (r: Result<String, EditError>)
        ensures
            match (r, edited(content@, *edit)) {
                (Ok(s), Ok(t)) => s@ == t,
                (Err(e), Err(f)) => e == f,
                _ => false,
            },
    {
        match edit {
            FileEdit::Replace { start_line, end_line, new_text } => {
                Self::replace_lines(content, *start_line, *end_line, new_text.as_str())
            },
            FileEdit::Insert { line, text } => {
                Self::insert_at_line(content, *line, text.as_str())
            },
            FileEdit::Delete { start_line, end_line } => {
                Self::delete_lines(content, *start_line, *end_line)
            },
        }
    }
}

} // verus!
