//! Small helpers for names of files and for the display of output.

use crate::seqs::views;
use crate::text::alphanumeric;
use crate::text::char_is_alphanumeric;
use crate::text::chars_of;
use crate::text::join;
use crate::text::lines;
use crate::text::lossy_text;
use crate::text::str_join;
use crate::text::str_lines;
use crate::text::utf8_lossy;
use vstd::prelude::*;

verus! {

/// A character that a file name keeps: a letter, a digit, a hyphen, an
/// underscore or a dot.
pub open spec fn is_file_name_char(c: char) -> bool {
    alphanumeric(c) || c == '-' || c == '_' || c == '.'
}

/// The text `s` with every character that a file name does not keep
/// replaced by an underscore.
pub open spec fn sanitized(s: Seq<char>) -> Seq<char> {
    s.map_values(
        |c: char|
            if is_file_name_char(c) {
                c
            } else {
                '_'
            },
    )
}

/// Makes a file name of `filename`: letters, digits, hyphens, underscores
/// and dots stay, and every other character becomes an underscore.
pub fn sanitize_filename(filename: &str) -> (r: String)
    ensures
        r@ == sanitized(filename@),
        r@.len() == filename@.len(),
{
    let fv = chars_of(filename);
    let mut out = String::new();
    let mut i: usize = 0;
    while i < fv.len()
        invariant
            i <= fv.len(),
            out@ == sanitized(fv@).take(i as int),
        decreases fv.len() - i,
    {
        let c = fv[i];
        let kept = if char_is_alphanumeric(c) || c == '-' || c == '_' || c == '.' {
            c
        } else {
            '_'
        };
        assert(sanitized(fv@).take(i as int).push(kept) =~= sanitized(fv@).take(i + 1));
        out.push(kept);
        i += 1;
    }
    assert(sanitized(fv@).take(fv@.len() as int) =~= sanitized(fv@));
    out
}

/// The lines `ls[..upto]`, each behind the mark `> `.
pub open spec fn quoted_lines(ls: Seq<Seq<char>>) -> Seq<Seq<char>> {
    Seq::new(ls.len(), |i: int| "> "@ + ls[i])
}

/// The text `output` with the mark `> ` before each of its lines.
pub open spec fn quoted_output(output: Seq<char>) -> Seq<char> {
    join(quoted_lines(lines(output)), "\n"@)
}

/// Puts the mark `> ` before each line of `output`, the bytes that a
/// command wrote, read as text.
pub fn format_command_output(output: &[u8]) -> (r: String)
    ensures
        r@ == quoted_output(utf8_lossy(output@)),
{
    format_output_text(lossy_text(output).as_str())
}

/// Puts the mark `> ` before each line of `output`, the text that a command wrote.
pub fn format_output_text(output: &str) -> (r: String)
    ensures
        r@ == quoted_output(output@),
{
    let ls = str_lines(output);
    let mut marked: Vec<String> = Vec::new();
    let mut i: usize = 0;
    while i < ls.len()
        invariant
            i <= ls.len(),
            marked@.len() == i,
            forall|k: int| 0 <= k < i ==> (#[trigger] marked@[k])@ == "> "@ + ls@[k]@,
        decreases ls.len() - i,
    {
        let mut line = String::from_str("> ");
        line.append(ls[i].as_str());
        marked.push(line);
        i += 1;
    }
    assert(views(marked@) =~= quoted_lines(views(ls@)));
    str_join(&marked, "\n")
}

/// The entries among the first `upto` lines of a scope file: the lines
/// that are not blank and do not start with the mark of a comment.
pub open spec fn scope_entries(ls: Seq<Seq<char>>, upto: int) -> Seq<Seq<char>>
    decreases upto,
{
    if upto <= 0 {
        Seq::empty()
    } else if !crate::text::starts_with(ls[upto - 1], "#"@) && crate::text::trim(ls[upto - 1]).len()
        > 0 {
        scope_entries(ls, upto - 1).push(ls[upto - 1])
    } else {
        scope_entries(ls, upto - 1)
    }
}

/// Reads the text of a scope file: one entry per line, without comments
/// and blank lines.
pub fn parse_scope(content: &str) -> (r: Vec<String>)
    ensures
        views(r@) == scope_entries(lines(content@), lines(content@).len() as int),
{
    let ls = str_lines(content);
    let mut out: Vec<String> = Vec::new();
    let mut i: usize = 0;
    assert(views(out@) =~= Seq::<Seq<char>>::empty());
    while i < ls.len()
        invariant
            i <= ls.len(),
            views(out@) == scope_entries(views(ls@), i as int),
        decreases ls.len() - i,
    {
        assert(views(ls@)[i as int] == ls@[i as int]@);
        if !crate::text::str_starts_with(ls[i].as_str(), "#") && crate::text::str_trim(
            ls[i].as_str(),
        ).as_str().unicode_len() > 0 {
            let kept = ls[i].clone();
            proof {
                crate::seqs::lemma_views_push(out@, kept);
            }
            out.push(kept);
        }
        i += 1;
    }
    out
}

/// What a finished process left: whether it succeeded, and what it wrote.
#[derive(Debug)]
pub struct CommandResult {
    pub success: bool,
    pub output: String,
    pub error: String,
}

impl CommandResult {
    /// The result of a process that ended with or without success and
    /// wrote `stdout` and `stderr`, read as text.
    pub fn from_output(success: bool, stdout: &[u8], stderr: &[u8]) -> (r: Self)
        ensures
            r.success == success,
            r.output@ == utf8_lossy(stdout@),
            r.error@ == utf8_lossy(stderr@),
    {
        CommandResult { success, output: lossy_text(stdout), error: lossy_text(stderr) }
    }
}

} // verus!
