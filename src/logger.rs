//! Loggers configured once and then asked for the text of each message or
//! diagnostic; writing that text out is left to the caller.
use vstd::prelude::*;
use vstd::string::StringExecFns;
use crate::report::{
    format_report, header_line, header_spec, line_in_range, opt_text, report_spec, texts,
    Diagnostic,
};
use crate::style::{severity_outcome, severity_token};

verus! {

/// The text of a verbose line: `*`, then a space and the message unless it is empty.
pub open spec fn verbose_text(message: Seq<char>) -> Seq<char> {
    if message.len() == 0 {
        seq!['*']
    } else {
        seq!['*', ' '] + message
    }
}

/// Echoes verbose lines when verbose mode is on.
#[derive(Clone, Copy, Debug, PartialEq, Eq)]
pub struct VerboseLogger {
    pub verbose: bool,
}

/// A logger of verbose lines.
pub fn make_logger_verbose(verbose: bool) -> (r: VerboseLogger)
    ensures
        r.verbose == verbose,
{
    VerboseLogger { verbose }
}

impl VerboseLogger {
    /// The line to print for `message`: none when verbose mode is off.
    pub fn line(&self, message: &str) -> (r: Option<String>)
        ensures
            !self.verbose ==> r is None,
            self.verbose ==> r is Some && r->Some_0@ == verbose_text(message@),
    {
        if !self.verbose {
            return None;
        }
        let mut r = String::new();
        proof {
            reveal_strlit("*");
            reveal_strlit("* ");
        }
        if message.unicode_len() == 0 {
            r.append("*");
        } else {
            r.append("* ");
            r.append(message);
        }
        assert(r@ =~= verbose_text(message@));
        Some(r)
    }
}

/// Prints one-line error or warning messages, coloured or not.
#[derive(Clone, Copy, Debug, PartialEq, Eq)]
pub struct ErrorMessageLogger {
    pub color: bool,
}

/// A logger of one-line error or warning messages.
pub fn make_logger_error_message(color: bool) -> (r: ErrorMessageLogger)
    ensures
        r.color == color,
{
    ErrorMessageLogger { color }
}

impl ErrorMessageLogger {
    /// `<severity>: <message>`, the severity styled as `severity_token` does.
    pub fn line(&self, warning: bool, message: &str) -> (r: String)
        ensures
            exists|t: Seq<char>|
                severity_outcome(self.color, warning, t) && r@ == header_spec(t, message@),
    {
        let token = severity_token(self.color, warning);
        header_line(token.as_str(), message)
    }
}

/// The report of a diagnostic, with the severity word styled by `color`: when
/// colour is off the token is exactly `error` or `warning`.
pub fn render_error(
    lines: &Vec<String>,
    color: bool,
    filename: &Option<String>,
    diag: &Diagnostic,
    warning: bool,
) -> (r: Vec<String>)
    requires
        line_in_range(diag.span.start.line as nat, lines.len() as nat),
    ensures
        exists|t: Seq<char>|
            severity_outcome(color, warning, t) && texts(r@) == report_spec(
                texts(lines@),
                opt_text(*filename),
                t,
                diag.description@,
                diag.span,
                texts(diag.fixme@),
            ),
{
    let token = severity_token(color, warning);
    format_report(lines, filename, token.as_str(), diag)
}

/// Renders diagnostics over one source text, with one colour setting and file name.
#[derive(Debug)]
pub struct ErrorLogger {
    pub lines: Vec<String>,
    pub color: bool,
    pub filename: Option<String>,
}

/// A logger of parser errors over the source `lines`.
pub fn make_logger_parser_error(lines: Vec<String>, color: bool, filename: Option<String>) -> (r:
    ErrorLogger)
    ensures
        r.lines@ == lines@,
        r.color == color,
        r.filename == filename,
{
    ErrorLogger { lines, color, filename }
}

/// A logger of linter errors over the source `lines`.
pub fn make_logger_linter_error(lines: Vec<String>, color: bool, filename: Option<String>) -> (r:
    ErrorLogger)
    ensures
        r.lines@ == lines@,
        r.color == color,
        r.filename == filename,
{
    ErrorLogger { lines, color, filename }
}

impl ErrorLogger {
    /// The report of `diag` as an error, or as a warning when `warning` is set.
    pub fn report(&self, diag: &Diagnostic, warning: bool) -> (r: Vec<String>)
        requires
            line_in_range(diag.span.start.line as nat, self.lines.len() as nat),
        ensures
            exists|t: Seq<char>|
                severity_outcome(self.color, warning, t) && texts(r@) == report_spec(
                    texts(self.lines@),
                    opt_text(self.filename),
                    t,
                    diag.description@,
                    diag.span,
                    texts(diag.fixme@),
                ),
    {
        render_error(&self.lines, self.color, &self.filename, diag, warning)
    }
}

} // verus!
