//! The option enums that the command line and the configuration file name
//! by strings.

use vstd::prelude::*;

use crate::text::str_eq;

verus! {

/// When to colorize the output.
#[derive(Debug, Clone, Copy, PartialEq, Eq, Structural)]
pub enum Color {
    /// Always use colors
    Always,
    /// Never use colors
    Never,
    /// Automatically decide whether to use colors
    Auto,
}

/// How query results are printed.
#[derive(Debug, Clone, Copy, PartialEq, Eq, Structural)]
pub enum Output {
    /// Format the output for humans
    Pretty,
    /// Output JSON
    Json,
}

/// The shells that completions can be generated for.
#[derive(Debug, Clone, Copy, PartialEq, Eq, Structural)]
pub enum Shell {
    Bash,
    Fish,
    Zsh,
}

/// The textual form of a color setting.
pub open spec fn color_repr(c: Color) -> Seq<char> {
    match c {
        Color::Always => "always"@,
        Color::Never => "never"@,
        Color::Auto => "auto"@,
    }
}

/// The color setting named `s`, if any.
pub open spec fn color_parse(s: Seq<char>) -> Result<Color, ()> {
    if s == "always"@ {
        Ok(Color::Always)
    } else if s == "never"@ {
        Ok(Color::Never)
    } else if s == "auto"@ {
        Ok(Color::Auto)
    } else {
        Err(())
    }
}

/// The textual form of an output format.
pub open spec fn output_repr(o: Output) -> Seq<char> {
    match o {
        Output::Pretty => "pretty"@,
        Output::Json => "json"@,
    }
}

/// The output format named `s`, if any.
pub open spec fn output_parse(s: Seq<char>) -> Result<Output, ()> {
    if s == "pretty"@ {
        Ok(Output::Pretty)
    } else if s == "json"@ {
        Ok(Output::Json)
    } else {
        Err(())
    }
}

/// The textual form of a shell.
pub open spec fn shell_repr(s: Shell) -> Seq<char> {
    match s {
        Shell::Bash => "bash"@,
        Shell::Fish => "fish"@,
        Shell::Zsh => "zsh"@,
    }
}

/// The shell named `s`, if any.
pub open spec fn shell_parse(s: Seq<char>) -> Result<Shell, ()> {
    if s == "bash"@ {
        Ok(Shell::Bash)
    } else if s == "zsh"@ {
        Ok(Shell::Zsh)
    } else if s == "fish"@ {
        Ok(Shell::Fish)
    } else {
        Err(())
    }
}

impl Color {
    /// The names that a color setting can be given by, in listing order.
    pub fn possible_values() -> (r: &'static [&'static str])
        ensures
            r@.len() == 3,
            r@[0]@ == color_repr(Color::Always),
            r@[1]@ == color_repr(Color::Never),
            r@[2]@ == color_repr(Color::Auto),
    {
        &["always", "never", "auto"]
    }

    /// The color setting named `s`; `Err(())` for any other string.
    pub fn from_str(s: &str) -> (r: Result<Color, ()>)
        ensures
            r == color_parse(s@),
    {
        if str_eq(s, "always") {
            Ok(Color::Always)
        } else if str_eq(s, "never") {
            Ok(Color::Never)
        } else if str_eq(s, "auto") {
            Ok(Color::Auto)
        } else {
            Err(())
        }
    }

    /// The textual form of this setting.
    pub fn as_str(&self) -> (r: &'static str)
        ensures
            r@ == color_repr(*self),
    {
        match self {
            Color::Always => "always",
            Color::Never => "never",
            Color::Auto => "auto",
        }
    }

    /// Whether colors are forced on (`Some(true)`), forced off
    /// (`Some(false)`), or left to the terminal (`None`).
    pub fn forced(&self) -> (r: Option<bool>)
        ensures
            r == match *self {
                Color::Always => Some(true),
                Color::Never => Some(false),
                Color::Auto => None::<bool>,
            },
    {
        match self {
            Color::Always => Some(true),
            Color::Never => Some(false),
            Color::Auto => None,
        }
    }
}

impl Output {
    /// The names that an output format can be given by, in listing order.
    pub fn possible_values() -> (r: &'static [&'static str])
        ensures
            r@.len() == 2,
            r@[0]@ == output_repr(Output::Pretty),
            r@[1]@ == output_repr(Output::Json),
    {
        &["pretty", "json"]
    }

    /// The output format named `s`; `Err(())` for any other string.
    pub fn from_str(s: &str) -> (r: Result<Output, ()>)
        ensures
            r == output_parse(s@),
    {
        if str_eq(s, "pretty") {
            Ok(Output::Pretty)
        } else if str_eq(s, "json") {
            Ok(Output::Json)
        } else {
            Err(())
        }
    }

    /// The textual form of this format.
    pub fn as_str(&self) -> (r: &'static str)
        ensures
            r@ == output_repr(*self),
    {
        match self {
            Output::Pretty => "pretty",
            Output::Json => "json",
        }
    }
}

impl Shell {
    /// The names that a shell can be given by, in listing order.
    pub fn possible_values() -> (r: &'static [&'static str])
        ensures
            r@.len() == 3,
            r@[0]@ == shell_repr(Shell::Bash),
            r@[1]@ == shell_repr(Shell::Zsh),
            r@[2]@ == shell_repr(Shell::Fish),
    {
        &["bash", "zsh", "fish"]
    }

    /// The shell named `s`; `Err(())` for any other string.
    pub fn from_str(s: &str) -> (r: Result<Shell, ()>)
        ensures
            r == shell_parse(s@),
    {
        if str_eq(s, "bash") {
            Ok(Shell::Bash)
        } else if str_eq(s, "zsh") {
            Ok(Shell::Zsh)
        } else if str_eq(s, "fish") {
            Ok(Shell::Fish)
        } else {
            Err(())
        }
    }

    /// The textual form of this shell.
    pub fn as_str(&self) -> (r: &'static str)
        ensures
            r@ == shell_repr(*self),
    {
        match self {
            Shell::Bash => "bash",
            Shell::Fish => "fish",
            Shell::Zsh => "zsh",
        }
    }
}

/// Every color setting, output format and shell is read back from its own
/// textual form.
pub proof fn lemma_option_round_trips(c: Color, o: Output, s: Shell)
    ensures
        color_parse(color_repr(c)) == Ok::<Color, ()>(c),
        output_parse(output_repr(o)) == Ok::<Output, ()>(o),
        shell_parse(shell_repr(s)) == Ok::<Shell, ()>(s),
{
    reveal_strlit("always");
    reveal_strlit("never");
    reveal_strlit("auto");
    reveal_strlit("pretty");
    reveal_strlit("json");
    reveal_strlit("bash");
    reveal_strlit("zsh");
    reveal_strlit("fish");
    assert("never"@[0] != "always"@[0]);
    assert("auto"@[1] != "always"@[1]);
    assert("auto"@[0] != "never"@[0]);
    assert("json"@[0] != "pretty"@[0]);
    assert("zsh"@[0] != "bash"@[0]);
    assert("fish"@[0] != "bash"@[0]);
    assert("fish"@[0] != "zsh"@[0]);
}

/// A string that is accepted as an option value is the textual form of the
/// value it is read as.
pub proof fn lemma_option_parse_sound(t: Seq<char>)
    ensures
        color_parse(t) matches Ok(c) ==> color_repr(c) == t,
        output_parse(t) matches Ok(o) ==> output_repr(o) == t,
        shell_parse(t) matches Ok(s) ==> shell_repr(s) == t,
{
}

} // verus!
