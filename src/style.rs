//! The severity word, plain or in bold terminal colour.
use vstd::prelude::*;
use vstd::string::StringExecFns;
use colored::Colorize;

verus! {

/// `warning` or `error`.
pub open spec fn severity_word(warning: bool) -> Seq<char> {
    if warning {
        seq!['w', 'a', 'r', 'n', 'i', 'n', 'g']
    } else {
        seq!['e', 'r', 'r', 'o', 'r']
    }
}

/// The ANSI foreground code of the severity: yellow (33) for a warning, red (31)
/// for an error.
pub open spec fn severity_color(warning: bool) -> Seq<char> {
    if warning {
        seq!['3', '3']
    } else {
        seq!['3', '1']
    }
}

/// `s` in bold with foreground colour `code`, followed by a reset.
pub open spec fn ansi_bold(code: Seq<char>, s: Seq<char>) -> Seq<char> {
    seq!['\x1b', '[', '1', ';'] + code + seq!['m'] + s + seq!['\x1b', '[', '0', 'm']
}

/// The severity token that a report may start with: the plain word when colour
/// is off; when it is on, the word in bold colour, or plain where the terminal
/// environment turns colouring off.
pub open spec fn severity_outcome(color: bool, warning: bool, token: Seq<char>) -> bool {
    let word = severity_word(warning);
    if color {
        token == word || token == ansi_bold(severity_color(warning), word)
    } else {
        token == word
    }
}

/// Relies on colored's `Colorize::red`, `ColoredString::bold` and the `Display` of
/// `ColoredString`: the text between `ESC[1;31m` and `ESC[0m`, or the text itself
/// where the environment disables colouring. Text holding no escape character
/// is not rewritten inside.
#[verifier::external_body]
fn bold_red(s: &str) -> (r: String)
    requires
        !s@.contains('\x1b'),
    ensures
        r@ == s@ || r@ == ansi_bold(seq!['3', '1'], s@),
{
    s.red().bold().to_string()
}

/// Relies on colored's `Colorize::yellow`, `ColoredString::bold` and the `Display`
/// of `ColoredString`: the text between `ESC[1;33m` and `ESC[0m`, or the text
/// itself where the environment disables colouring.
#[verifier::external_body]
fn bold_yellow(s: &str) -> (r: String)
    requires
        !s@.contains('\x1b'),
    ensures
        r@ == s@ || r@ == ansi_bold(seq!['3', '3'], s@),
{
    s.yellow().bold().to_string()
}

/// The severity word, in bold red (error) or bold yellow (warning) when `color`
/// is set.
pub fn severity_token(color: bool, warning: bool) -> (r: String)
    ensures
        severity_outcome(color, warning, r@),
{
    proof {
        reveal_strlit("warning");
        reveal_strlit("error");
        assert("warning"@ =~= severity_word(true));
        assert("error"@ =~= severity_word(false));
    }
    if !color {
        if warning {
            String::from_str("warning")
        } else {
            String::from_str("error")
        }
    } else if warning {
        bold_yellow("warning")
    } else {
        bold_red("error")
    }
}

} // verus!
