//! Outcomes of commands that were run, and the text of command lines.
use vstd::prelude::*;
use vstd::utf8::{decode_utf8, valid_utf8};
use crate::text::{
    chars_of, copy_str, debug_quoted, index_of, index_of_from, join, join_strings, lemma_index_of_from, push_str, str_debug,
    string_of_range,
};

verus! {

/// How a process ended: its exit code, or `None` when a signal ended it.
#[derive(Debug, Clone, Copy, PartialEq, Eq)]
pub struct ExitInfo {
    /// The exit code, if the process exited.
    pub code: Option<i32>,
}

/// What a command that was run gave back.
#[derive(Debug, Clone)]
pub struct CommandOutput {
    /// How it ended.
    pub status: ExitInfo,
    /// Its standard output.
    pub stdout: Vec<u8>,
    /// Its standard error.
    pub stderr: Vec<u8>,
}

/// The exit code as a byte: 1 for a signal or a code out of `0..=255`.
pub open spec fn exit_code_byte(code: Option<i32>) -> u8 {
    match code {
        Some(c) => if 0 <= c <= 255 {
            c as u8
        } else {
            1
        },
        None => 1,
    }
}

/// Simple extension trait to avoid duplicating code, allow easy conversion to an exit code
pub trait CommandOutputExt {
    /// The exit code this outcome stands for.
    spec fn spec_code(&self) -> u8;

    /// Convert into an exit code consistently
    ///
    /// Equal to 1 in case of signal termination (or any exit code larger than 255)
    fn get_code(&self) -> (r: u8)
        ensures
            r == self.spec_code(),
    ;
}

impl CommandOutputExt for ExitInfo {
    open spec fn spec_code(&self) -> u8 {
        exit_code_byte(self.code)
    }

    fn get_code(&self) -> (r: u8) {
        // even if conversion fails it still failed, just termination by a
        // signal is larger than what an exit code allows
        match self.code {
            Some(c) => if 0 <= c && c <= 255 {
                c as u8
            } else {
                1
            },
            None => 1,
        }
    }
}

impl CommandOutputExt for CommandOutput {
    open spec fn spec_code(&self) -> u8 {
        exit_code_byte(self.status.code)
    }

    fn get_code(&self) -> (r: u8) {
        self.status.get_code()
    }
}

impl ExitInfo {
    /// The process exited with code 0.
    pub open spec fn spec_success(&self) -> bool {
        self.code == Some(0i32)
    }

    /// Whether the process exited with code 0.
    pub fn success(&self) -> (r: bool)
        ensures
            r == self.spec_success(),
    {
        match self.code {
            Some(c) => c == 0,
            None => false,
        }
    }
}

/// The text of bytes decoded as UTF-8, with invalid sequences replaced.
pub uninterp spec fn utf8_lossy(bytes: Seq<u8>) -> Seq<char>;

/// Calls `String::from_utf8_lossy` of std: the bytes decoded as UTF-8 where
/// each invalid sequence becomes U+FFFD; valid UTF-8 decodes exactly.
#[verifier::external_body]
pub(crate) fn lossy_text(bytes: &Vec<u8>) -> (r: String)
    ensures
        r@ == utf8_lossy(bytes@),
        valid_utf8(bytes@) ==> r@ == decode_utf8(bytes@),
{
    String::from_utf8_lossy(bytes).to_string()
}

/// Calls `String::from_utf8` of std: the text when the bytes are valid UTF-8.
#[verifier::external_body]
pub(crate) fn strict_text(bytes: &Vec<u8>) -> (r: Option<String>)
    ensures
        r is Some <==> valid_utf8(bytes@),
        r matches Some(s) ==> s@ == decode_utf8(bytes@),
{
    String::from_utf8(bytes.clone()).ok()
}

/// The lines of a text as `str::lines` gives them: split at `\n`, with one `\r`
/// before the `\n` removed, and no line after a final `\n`.
pub open spec fn lines_of(s: Seq<char>) -> Seq<Seq<char>>
    decreases s.len(),
{
    if s.len() == 0 {
        Seq::empty()
    } else {
        let k = index_of(s, '\n');
        if k >= s.len() {
            seq![s]
        } else {
            let line = s.subrange(0, k);
            let line = if line.len() > 0 && line.last() == '\r' {
                line.drop_last()
            } else {
                line
            };
            proof {
                lemma_index_of_from(s, '\n', 0);
            }
            seq![line] + lines_of(s.subrange(k + 1, s.len() as int))
        }
    }
}

/// Splits a text into lines (as `str::lines`).
pub fn split_lines(text: &str) -> (r: Vec<String>)
    ensures
        r.deep_view() == lines_of(text@),
{
    let cs = chars_of(text);
    let mut r: Vec<String> = Vec::new();
    let mut start: usize = 0;
    assert(cs@.subrange(0, cs@.len() as int) =~= text@);
    assert(r.deep_view() + lines_of(text@) =~= lines_of(text@));
    while start < cs.len()
        invariant
            start <= cs.len(),
            cs@ == text@,
            lines_of(text@) == r.deep_view() + lines_of(cs@.subrange(start as int, cs@.len() as int)),
        decreases cs.len() - start,
    {
        let ghost rest = cs@.subrange(start as int, cs@.len() as int);
        let mut k = start;
        while k < cs.len() && cs[k] != '\n'
            invariant
                start <= k <= cs.len(),
                rest == cs@.subrange(start as int, cs@.len() as int),
                index_of(rest, '\n') == index_of_from(rest, '\n', k - start),
            decreases cs.len() - k,
        {
            k = k + 1;
        }
        proof {
            lemma_index_of_from(rest, '\n', 0);
        }
        let ghost before = r.deep_view();
        if k >= cs.len() {
            let line = string_of_range(&cs, start, cs.len());
            r.push(line);
            assert(r.deep_view() =~= before.push(rest));
            assert(lines_of(rest) == seq![rest]);
            assert(cs@.subrange(cs.len() as int, cs@.len() as int) =~= Seq::<char>::empty());
            assert(before + seq![rest] =~= r.deep_view() + Seq::<Seq<char>>::empty());
            start = cs.len();
        } else {
            let end = if k > start && cs[k - 1] == '\r' {
                k - 1
            } else {
                k
            };
            let line = string_of_range(&cs, start, end);
            r.push(line);
            let ghost l0 = rest.subrange(0, k - start);
            assert(cs@.subrange(start as int, end as int) =~= (if l0.len() > 0 && l0.last() == '\r' {
                l0.drop_last()
            } else {
                l0
            }));
            assert(rest.subrange(k - start + 1, rest.len() as int) =~= cs@.subrange(k + 1, cs@.len() as int));
            assert(r.deep_view() =~= before.push(cs@.subrange(start as int, end as int)));
            assert(before + lines_of(rest) =~= r.deep_view() + lines_of(cs@.subrange(k + 1, cs@.len() as int)));
            start = k + 1;
        }
    }
    assert(cs@.subrange(start as int, cs@.len() as int) =~= Seq::<char>::empty());
    assert(r.deep_view() + Seq::<Seq<char>>::empty() =~= r.deep_view());
    r
}

/// A program and its arguments, as a command line to run.
#[derive(Debug, Clone)]
pub struct CommandLine {
    /// The program.
    pub program: String,
    /// Its arguments.
    pub args: Vec<String>,
}

/// The text of a command line: the program, a space, and the arguments joined
/// with spaces.
pub open spec fn full_command_text(program: Seq<char>, args: Seq<Seq<char>>) -> Seq<char> {
    program + " "@ + join(args, " "@)
}

impl CommandLine {
    /// The command line as one text (program and arguments separated by spaces).
    pub fn get_full_command(&self) -> (r: String)
        ensures
            r@ == full_command_text(self.program@, self.args.deep_view()),
    {
        let mut r = String::new();
        push_str(&mut r, self.program.as_str());
        push_str(&mut r, " ");
        let joined = join_strings(&self.args, " ");
        push_str(&mut r, joined.as_str());
        r
    }
}

/// The line that shows argument `i` of `args`: indented and quoted, with a
/// backslash unless it is the last one.
pub open spec fn escaped_arg_line(args: Seq<Seq<char>>, i: int) -> Seq<char> {
    "      "@ + str_debug(args[i]) + (if i + 1 < args.len() { " \\"@ } else { Seq::<char>::empty() }) + "\n"@
}

/// The lines that show the first `k` arguments.
pub open spec fn escaped_args(args: Seq<Seq<char>>, k: nat) -> Seq<char>
    decreases k,
{
    if k == 0 {
        Seq::empty()
    } else {
        escaped_args(args, (k - 1) as nat) + escaped_arg_line(args, k - 1)
    }
}

/// How a command line that is not run is shown: the program quoted, then
/// each argument quoted on a line of its own, each line but the last ending
/// with a backslash.
pub open spec fn escaped_command(program: Seq<char>, args: Seq<Seq<char>>) -> Seq<char> {
    "(CMD) "@ + str_debug(program) + " \\"@ + "\n"@ + escaped_args(args, args.len())
}

impl CommandLine {
    /// Shows the command line with each argument quoted (see `escaped_command`).
    pub fn escaped_text(&self) -> (r: String)
        ensures
            r@ == escaped_command(self.program@, self.args.deep_view()),
    {
        let ghost args = self.args.deep_view();
        let mut r = copy_str("(CMD) ");
        push_str(&mut r, debug_quoted(self.program.as_str()).as_str());
        push_str(&mut r, " \\");
        push_str(&mut r, "\n");
        let ghost head = r@;
        let mut i: usize = 0;
        while i < self.args.len()
            invariant
                i <= self.args.len(),
                args == self.args.deep_view(),
                head == "(CMD) "@ + str_debug(self.program@) + " \\"@ + "\n"@,
                r@ == head + escaped_args(args, i as nat),
            decreases self.args.len() - i,
        {
            push_str(&mut r, "      ");
            push_str(&mut r, debug_quoted(self.args[i].as_str()).as_str());
            if i + 1 < self.args.len() {
                push_str(&mut r, " \\");
            }
            push_str(&mut r, "\n");
            assert(args[i as int] == self.args@[i as int]@);
            assert(r@ =~= head + escaped_args(args, (i + 1) as nat));
            i = i + 1;
        }
        r
    }
}

} // verus!
