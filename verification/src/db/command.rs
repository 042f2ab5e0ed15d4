//! A program invocation held as data: the program, its arguments, its
//! working directory and where its standard streams go.

use vstd::prelude::*;

use crate::text::{contains_char, has_char};

verus! {

/// Where a standard stream of a command goes.
#[derive(Debug, Clone, Copy, PartialEq, Eq, Structural)]
pub enum Stdio {
    /// Shared with the current terminal
    Inherit,
    /// Connected to the null device
    Null,
    /// Captured through a pipe
    Piped,
}

/// A command line: program, arguments, working directory and streams.
/// Streams left at `None` keep the default of the process runner.
#[derive(Debug, Clone)]
pub struct CommandLine {
    pub program: String,
    pub args: Vec<String>,
    pub cwd: Option<String>,
    pub stdin: Option<Stdio>,
    pub stdout: Option<Stdio>,
    pub stderr: Option<Stdio>,
}

/// The abstract value of a command line.
pub struct CommandView {
    pub program: Seq<char>,
    pub args: Seq<Seq<char>>,
    pub cwd: Option<Seq<char>>,
    pub stdin: Option<Stdio>,
    pub stdout: Option<Stdio>,
    pub stderr: Option<Stdio>,
}

/// The characters of each string of a sequence.
pub open spec fn strings_view(v: Seq<String>) -> Seq<Seq<char>> {
    v.map_values(|s: String| s@)
}

/// The characters of an optional string.
pub open spec fn opt_string_view(o: Option<String>) -> Option<Seq<char>> {
    match o {
        Some(s) => Some(s@),
        None => None,
    }
}

impl View for CommandLine {
    type V = CommandView;

    open spec fn view(&self) -> CommandView {
        CommandView {
            program: self.program@,
            args: strings_view(self.args@),
            cwd: opt_string_view(self.cwd),
            stdin: self.stdin,
            stdout: self.stdout,
            stderr: self.stderr,
        }
    }
}

impl CommandView {
    /// This command with `a` appended to its arguments.
    pub open spec fn push_arg(self, a: Seq<char>) -> CommandView {
        CommandView { args: self.args.push(a), ..self }
    }

    /// This command with the arguments `v` appended.
    pub open spec fn push_args(self, v: Seq<Seq<char>>) -> CommandView {
        CommandView { args: self.args + v, ..self }
    }

    /// This command with all three streams set to `s`.
    pub open spec fn with_streams(self, s: Stdio) -> CommandView {
        CommandView { stdin: Some(s), stdout: Some(s), stderr: Some(s), ..self }
    }

    /// This command run in the directory `d`.
    pub open spec fn in_dir(self, d: Seq<char>) -> CommandView {
        CommandView { cwd: Some(d), ..self }
    }
}

/// The lowercase hexadecimal digits.
pub open spec fn hex_digits() -> Seq<char> {
    seq!['0', '1', '2', '3', '4', '5', '6', '7', '8', '9', 'a', 'b', 'c', 'd', 'e', 'f']
}

/// The escape `\xNN` of the byte `b`, in lowercase hexadecimal.
pub open spec fn byte_escape(b: int) -> Seq<char> {
    seq!['\\', 'x', hex_digits()[b / 16], hex_digits()[b % 16]]
}

/// The UTF-8 encoding of the code point `c`.
pub open spec fn utf8_bytes(c: int) -> Seq<int> {
    if c < 0x80 {
        seq![c]
    } else if c < 0x800 {
        seq![0xc0 + c / 64, 0x80 + c % 64]
    } else if c < 0x10000 {
        seq![0xe0 + c / 4096, 0x80 + (c / 64) % 64, 0x80 + c % 64]
    } else {
        seq![0xf0 + c / 262144, 0x80 + (c / 4096) % 64, 0x80 + (c / 64) % 64, 0x80 + c % 64]
    }
}

/// The escapes of the bytes `bs`, in order.
pub open spec fn bytes_escaped(bs: Seq<int>) -> Seq<char>
    decreases bs.len(),
{
    if bs.len() == 0 {
        Seq::empty()
    } else {
        bytes_escaped(bs.drop_last()) + byte_escape(bs.last())
    }
}

/// The characters of `c` as they stand between double quotes, as
/// `u8::escape_ascii` writes the bytes of its UTF-8 encoding: backslash,
/// both quotes, newline, carriage return and tab have their escapes, the
/// other printable ASCII characters stand for themselves, and every other
/// byte is written `\xNN`.
pub open spec fn escape_char(c: char) -> Seq<char> {
    if c == '\\' {
        seq!['\\', '\\']
    } else if c == '"' {
        seq!['\\', '"']
    } else if c == '\'' {
        seq!['\\', '\'']
    } else if c == '\n' {
        seq!['\\', 'n']
    } else if c == '\r' {
        seq!['\\', 'r']
    } else if c == '\t' {
        seq!['\\', 't']
    } else if 0x20 <= (c as u32) < 0x7f {
        seq![c]
    } else {
        bytes_escaped(utf8_bytes(c as u32 as int))
    }
}

/// The characters of `s`, each escaped.
pub open spec fn escaped(s: Seq<char>) -> Seq<char>
    decreases s.len(),
{
    if s.len() == 0 {
        Seq::empty()
    } else {
        escaped(s.drop_last()) + escape_char(s.last())
    }
}

/// `s` escaped and between double quotes; a string holding a NUL, which
/// no program can be given, stands as `"<string-with-nul>"`.
pub open spec fn quoted(s: Seq<char>) -> Seq<char> {
    if has_char(s, '\0') {
        "\"<string-with-nul>\""@
    } else {
        seq!['"'] + escaped(s) + seq!['"']
    }
}

/// Each of `args` quoted and preceded by a space.
pub open spec fn quoted_args(args: Seq<Seq<char>>) -> Seq<char>
    decreases args.len(),
{
    if args.len() == 0 {
        Seq::empty()
    } else {
        quoted_args(args.drop_last()) + seq![' '] + quoted(args.last())
    }
}

/// The printed form of a command, the one `std::process::Command` prints
/// with `{:?}` on Unix: `cd "<dir>" && ` when it has a working directory,
/// then the quoted program and the quoted arguments, separated by spaces.
pub open spec fn command_repr(c: CommandView) -> Seq<char> {
    let dir = match c.cwd {
        Some(d) => "cd "@ + quoted(d) + " && "@,
        None => Seq::empty(),
    };
    dir + quoted(c.program) + quoted_args(c.args)
}

/// Each of `args` preceded by a space (the form used in log lines).
pub open spec fn spaced_args(args: Seq<Seq<char>>) -> Seq<char>
    decreases args.len(),
{
    if args.len() == 0 {
        Seq::empty()
    } else {
        spaced_args(args.drop_last()) + seq![' '] + args.last()
    }
}

/// A copy of `v`, element by element.
pub fn copy_strings(v: &Vec<String>) -> (r: Vec<String>)
    ensures
        r@ == v@,
{
    let mut r: Vec<String> = Vec::new();
    let mut i: usize = 0;
    while i < v.len()
        invariant
            i <= v.len(),
            r@ == v@.subrange(0, i as int),
        decreases v.len() - i,
    {
        r.push(v[i].clone());
        i = i + 1;
        assert(r@ =~= v@.subrange(0, i as int));
    }
    assert(r@ =~= v@);
    r
}

/// Appends the escape of the byte `b` to `out`.
fn push_byte_escape(out: &mut String, b: u32)
    requires
        b < 256,
    ensures
        final(out)@ == old(out)@ + byte_escape(b as int),
{
    let digits = "0123456789abcdef";
    proof {
        reveal_strlit("0123456789abcdef");
        reveal_strlit("\\x");
        assert(digits@ =~= hex_digits());
    }
    let hi = (b / 16) as usize;
    let lo = (b % 16) as usize;
    out.append("\\x");
    out.append(digits.substring_char(hi, hi + 1));
    out.append(digits.substring_char(lo, lo + 1));
    assert(final(out)@ =~= old(out)@ + byte_escape(b as int));
}

/// Appends the escapes of the UTF-8 bytes of the code point `c` to `out`.
fn push_utf8_escapes(out: &mut String, c: u32)
    requires
        c <= 0x10ffff,
    ensures
        final(out)@ == old(out)@ + bytes_escaped(utf8_bytes(c as int)),
{
    let ghost bs = utf8_bytes(c as int);
    if c < 0x80 {
        push_byte_escape(out, c);
        assert(bs.drop_last() =~= Seq::<int>::empty());
    } else if c < 0x800 {
        push_byte_escape(out, 0xc0 + c / 64);
        push_byte_escape(out, 0x80 + c % 64);
        assert(bs.drop_last() =~= seq![0xc0 + c / 64]);
        assert(bs.drop_last().drop_last() =~= Seq::<int>::empty());
    } else if c < 0x10000 {
        push_byte_escape(out, 0xe0 + c / 4096);
        push_byte_escape(out, 0x80 + (c / 64) % 64);
        push_byte_escape(out, 0x80 + c % 64);
        assert(bs.drop_last() =~= seq![0xe0 + c / 4096, 0x80 + (c / 64) % 64]);
        assert(bs.drop_last().drop_last() =~= seq![0xe0 + c / 4096]);
        assert(bs.drop_last().drop_last().drop_last() =~= Seq::<int>::empty());
    } else {
        push_byte_escape(out, 0xf0 + c / 262144);
        push_byte_escape(out, 0x80 + (c / 4096) % 64);
        push_byte_escape(out, 0x80 + (c / 64) % 64);
        push_byte_escape(out, 0x80 + c % 64);
        assert(bs.drop_last() =~= seq![0xf0 + c / 262144, 0x80 + (c / 4096) % 64, 0x80 + (c / 64) % 64]);
        assert(bs.drop_last().drop_last() =~= seq![0xf0 + c / 262144, 0x80 + (c / 4096) % 64]);
        assert(bs.drop_last().drop_last().drop_last() =~= seq![0xf0 + c / 262144]);
        assert(bs.drop_last().drop_last().drop_last().drop_last() =~= Seq::<int>::empty());
    }
    proof {
        reveal_with_fuel(bytes_escaped, 5);
    }
    assert(final(out)@ =~= old(out)@ + bytes_escaped(bs));
}

/// Appends the escaped form of `s` to `out`.
fn push_escaped(out: &mut String, s: &str)
    ensures
        final(out)@ == old(out)@ + escaped(s@),
{
    let n = s.unicode_len();
    let mut i: usize = 0;
    while i < n
        invariant
            n == s@.len(),
            i <= n,
            out@ == old(out)@ + escaped(s@.subrange(0, i as int)),
        decreases n - i,
    {
        let c = s.get_char(i);
        proof {
            let p = s@.subrange(0, i as int + 1);
            assert(p.drop_last() =~= s@.subrange(0, i as int));
            assert(p.last() == c);
        }
        if c == '\\' {
            out.append("\\\\");
            proof { reveal_strlit("\\\\"); }
        } else if c == '"' {
            out.append("\\\"");
            proof { reveal_strlit("\\\""); }
        } else if c == '\'' {
            out.append("\\'");
            proof { reveal_strlit("\\'"); }
        } else if c == '\n' {
            out.append("\\n");
            proof { reveal_strlit("\\n"); }
        } else if c == '\r' {
            out.append("\\r");
            proof { reveal_strlit("\\r"); }
        } else if c == '\t' {
            out.append("\\t");
            proof { reveal_strlit("\\t"); }
        } else if 0x20 <= (c as u32) && (c as u32) < 0x7f {
            out.append(s.substring_char(i, i + 1));
        } else {
            push_utf8_escapes(out, c as u32);
        }
        assert(out@ =~= old(out)@ + escaped(s@.subrange(0, i as int + 1)));
        i = i + 1;
    }
    assert(s@.subrange(0, n as int) =~= s@);
}

/// Appends `s` quoted to `out`.
fn push_quoted(out: &mut String, s: &str)
    ensures
        final(out)@ == old(out)@ + quoted(s@),
{
    if contains_char(s, '\0') {
        out.append("\"<string-with-nul>\"");
    } else {
        out.append("\"");
        push_escaped(out, s);
        out.append("\"");
        proof {
            reveal_strlit("\"");
        }
        assert(out@ =~= old(out)@ + quoted(s@));
    }
}

impl CommandLine {
    /// The command that runs `program` with no arguments, in the runner's
    /// directory and with the runner's default streams.
    pub open spec fn new_spec(program: Seq<char>) -> CommandView {
        CommandView {
            program,
            args: Seq::empty(),
            cwd: None,
            stdin: None,
            stdout: None,
            stderr: None,
        }
    }

    /// A command that runs `program` with no arguments.
    pub fn new(program: &str) -> (r: CommandLine)
        ensures
            r@ == CommandLine::new_spec(program@),
    {
        let r = CommandLine {
            program: program.to_owned(),
            args: Vec::new(),
            cwd: None,
            stdin: None,
            stdout: None,
            stderr: None,
        };
        assert(r@.args =~= Seq::<Seq<char>>::empty());
        r
    }

    /// Appends one argument.
    pub fn arg(&mut self, a: &str)
        ensures
            final(self)@ == old(self)@.push_arg(a@),
    {
        self.args.push(a.to_owned());
        assert(strings_view(self.args@) =~= strings_view(old(self).args@).push(a@));
    }

    /// Appends arguments, in order.
    pub fn args(&mut self, v: &Vec<String>)
        ensures
            final(self)@ == old(self)@.push_args(strings_view(v@)),
    {
        let mut i: usize = 0;
        while i < v.len()
            invariant
                i <= v.len(),
                self@ == old(self)@.push_args(strings_view(v@.subrange(0, i as int))),
            decreases v.len() - i,
        {
            self.arg(v[i].as_str());
            i = i + 1;
            assert(strings_view(v@.subrange(0, i as int)) =~= strings_view(
                v@.subrange(0, i - 1 as int),
            ).push(v@[i - 1]@));
            assert(old(self)@.args + strings_view(v@.subrange(0, i as int)) =~= (old(self)@.args
                + strings_view(v@.subrange(0, i - 1 as int))).push(v@[i - 1]@));
        }
        assert(v@.subrange(0, v.len() as int) =~= v@);
    }

    /// Sets all three standard streams to `s`.
    pub fn streams(&mut self, s: Stdio)
        ensures
            final(self)@ == old(self)@.with_streams(s),
    {
        self.stdin = Some(s);
        self.stdout = Some(s);
        self.stderr = Some(s);
    }

    /// Sets each standard stream.
    pub fn stdio(&mut self, stdin: Stdio, stdout: Stdio, stderr: Stdio)
        ensures
            final(self)@ == (CommandView {
                stdin: Some(stdin),
                stdout: Some(stdout),
                stderr: Some(stderr),
                ..old(self)@
            }),
    {
        self.stdin = Some(stdin);
        self.stdout = Some(stdout);
        self.stderr = Some(stderr);
    }

    /// Runs the command in the directory `dir`.
    pub fn current_dir(&mut self, dir: &str)
        ensures
            final(self)@ == old(self)@.in_dir(dir@),
    {
        self.cwd = Some(dir.to_owned());
    }

    /// The printed form of the command, as `command_repr` describes it.
    pub fn display(&self) -> (r: String)
        ensures
            r@ == command_repr(self@),
    {
        let mut out = String::new();
        match &self.cwd {
            Some(d) => {
                out.append("cd ");
                push_quoted(&mut out, d.as_str());
                out.append(" && ");
                proof {
                    reveal_strlit("cd ");
                    reveal_strlit(" && ");
                }
            },
            None => {},
        }
        push_quoted(&mut out, self.program.as_str());
        let ghost start = out@;
        let mut i: usize = 0;
        while i < self.args.len()
            invariant
                i <= self.args.len(),
                out@ == start + quoted_args(strings_view(self.args@).subrange(0, i as int)),
            decreases self.args.len() - i,
        {
            let ghost before = out@;
            out.append(" ");
            push_quoted(&mut out, self.args[i].as_str());
            proof {
                reveal_strlit(" ");
                let p = strings_view(self.args@).subrange(0, i as int + 1);
                assert(p.drop_last() =~= strings_view(self.args@).subrange(0, i as int));
                assert(p.last() == self.args@[i as int]@);
            }
            assert(out@ =~= start + quoted_args(strings_view(self.args@).subrange(0, i as int + 1)));
            i = i + 1;
        }
        assert(strings_view(self.args@).subrange(0, self.args.len() as int) =~= strings_view(self.args@));
        proof {
            let dir = match opt_string_view(self.cwd) {
                Some(d) => "cd "@ + quoted(d) + " && "@,
                None => Seq::empty(),
            };
            assert(out@ =~= dir + quoted(self.program@) + quoted_args(strings_view(self.args@)));
        }
        out
    }

    /// The command as one line of plain words: the program, then each
    /// argument after a space.
    pub fn plain_line(&self) -> (r: String)
        ensures
            r@ == self.program@ + spaced_args(strings_view(self.args@)),
    {
        let mut out = self.program.clone();
        let mut i: usize = 0;
        while i < self.args.len()
            invariant
                i <= self.args.len(),
                out@ == self.program@ + spaced_args(strings_view(self.args@).subrange(0, i as int)),
            decreases self.args.len() - i,
        {
            out.append(" ");
            out.append(self.args[i].as_str());
            proof {
                reveal_strlit(" ");
                let p = strings_view(self.args@).subrange(0, i as int + 1);
                assert(p.drop_last() =~= strings_view(self.args@).subrange(0, i as int));
            }
            assert(out@ =~= self.program@ + spaced_args(strings_view(self.args@).subrange(0, i as int + 1)));
            i = i + 1;
        }
        assert(strings_view(self.args@).subrange(0, self.args.len() as int) =~= strings_view(self.args@));
        out
    }
}

} // verus!
