//! Colour decisions for command-line programs.

use vstd::prelude::*;

verus! {

/// Controls ANSI color output in logs and error formatting.
#[derive(Clone, Copy, Debug, PartialEq, Eq, Structural)]
pub enum ColorMode {
    /// Colour when standard error is a terminal.
    Auto,
    /// Always colour.
    Always,
    /// Never colour.
    Never,
}

impl Default for ColorMode {
    fn default() -> (m: Self)
        ensures
            m == ColorMode::Auto,
    {
        ColorMode::Auto
    }
}

/// Whether output is coloured. The mode gives the first answer (`Auto`
/// follows whether standard error is a terminal); then a set `NO_COLOR`, or
/// `CLICOLOR` set to `"0"`, turns colour off whatever the mode said.
pub open spec fn ansi_enabled(
    color: ColorMode,
    stderr_is_terminal: bool,
    no_color: bool,
    clicolor: Option<Seq<char>>,
) -> bool {
    let by_mode = match color {
        ColorMode::Always => true,
        ColorMode::Never => false,
        ColorMode::Auto => stderr_is_terminal,
    };
    if no_color || clicolor == Some("0"@) {
        false
    } else {
        by_mode
    }
}

/// The view of an optional string: `None`, or the characters of the string.
pub open spec fn opt_string_view(s: Option<String>) -> Option<Seq<char>> {
    match s {
        Some(t) => Some(t@),
        None => None,
    }
}

/// Decides whether to colour output, given the mode, whether standard error
/// is a terminal (only consulted in `Auto` mode), whether `NO_COLOR` is set,
/// and the value of `CLICOLOR` if it is set to a valid string.
pub fn resolve_ansi(
    color: ColorMode,
    stderr_is_terminal: bool,
    no_color: bool,
    clicolor: Option<String>,
) -> (r: bool)
    ensures
        r == ansi_enabled(color, stderr_is_terminal, no_color, opt_string_view(clicolor)),
        r ==> color != ColorMode::Never,
        r && color == ColorMode::Auto ==> stderr_is_terminal,
        r ==> !no_color && opt_string_view(clicolor) != Some("0"@),
        !no_color && opt_string_view(clicolor) != Some("0"@) ==> (r <==> (color == ColorMode::Always
            || (color == ColorMode::Auto && stderr_is_terminal))),
{
    let ret = match color {
        ColorMode::Always => true,
        ColorMode::Never => false,
        ColorMode::Auto => stderr_is_terminal,
    };
    let clicolor_off = match &clicolor {
        Some(s) => {
            let zero = String::from_str("0");
            *s == zero
        },
        None => false,
    };
    if no_color || clicolor_off {
        false
    } else {
        ret
    }
}

/// The environment can only turn colour off: whatever `CLICOLOR` holds, colour
/// is on exactly when the mode asks for it (`Always`, or `Auto` on a terminal)
/// and neither `NO_COLOR` is set nor `CLICOLOR` is `"0"`.
pub proof fn lemma_environment_only_turns_colour_off(
    color: ColorMode,
    stderr_is_terminal: bool,
    no_color: bool,
    clicolor: Option<Seq<char>>,
)
    ensures
        ansi_enabled(color, stderr_is_terminal, no_color, clicolor) <==> {
            &&& !no_color
            &&& clicolor != Some("0"@)
            &&& (color == ColorMode::Always || (color == ColorMode::Auto && stderr_is_terminal))
        },
{
}

/// `Never` never colours.
pub proof fn lemma_never_is_plain(stderr_is_terminal: bool, no_color: bool, clicolor: Option<Seq<char>>)
    ensures
        !ansi_enabled(ColorMode::Never, stderr_is_terminal, no_color, clicolor),
{
}

/// `Always` colours when neither `NO_COLOR` nor `CLICOLOR` is set.
pub proof fn lemma_always_colours_without_overrides(stderr_is_terminal: bool)
    ensures
        ansi_enabled(ColorMode::Always, stderr_is_terminal, false, None),
{
}

/// A set `NO_COLOR`, or `CLICOLOR=0`, turns colour off in every mode.
pub proof fn lemma_environment_overrides_mode(
    color: ColorMode,
    stderr_is_terminal: bool,
    no_color: bool,
    clicolor: Option<Seq<char>>,
)
    requires
        no_color || clicolor == Some("0"@),
    ensures
        !ansi_enabled(color, stderr_is_terminal, no_color, clicolor),
{
}

/// With no overrides, `Auto` colours exactly when standard error is a terminal.
pub proof fn lemma_auto_follows_terminal(stderr_is_terminal: bool)
    ensures
        ansi_enabled(ColorMode::Auto, stderr_is_terminal, false, None) == stderr_is_terminal,
{
}

} // verus!
