//! The diagnostic report: what each of its lines holds, and the code that builds it.
use vstd::prelude::*;
use vstd::string::StringExecFns;
use crate::layout::{
    decimal, expand_tabs, expand_tabs_spec, gutter_width, gutter_width_spec,
    push_decimal, push_run, push_spaces, right_align, run, tab_shift, tabs_before,
};

verus! {

/// A position in a source text: 1-based line, 1-based column, column 0 meaning
/// "no column, the whole line".
#[derive(Clone, Copy, Debug, PartialEq, Eq)]
pub struct Pos {
    pub line: usize,
    pub column: usize,
}

/// The span of source text a diagnostic points at.
#[derive(Clone, Copy, Debug, PartialEq, Eq)]
pub struct SourceSpan {
    pub start: Pos,
    pub end: Pos,
}

/// An error or warning located in a source text, with its suggested fix already
/// rendered, one entry per line of the fix.
#[derive(Debug)]
pub struct Diagnostic {
    pub description: String,
    pub span: SourceSpan,
    pub fixme: Vec<String>,
}

/// The characters of each string of a sequence.
pub open spec fn texts(v: Seq<String>) -> Seq<Seq<char>> {
    v.map_values(|s: String| s@)
}

/// `<gutter> |`
pub open spec fn gutter_bar(w: nat) -> Seq<char> {
    run(' ', w) + seq![' ', '|']
}

/// `<severity>: <description>`
pub open spec fn header_spec(token: Seq<char>, description: Seq<char>) -> Seq<char> {
    token + seq![':', ' '] + description
}

/// `<gutter>--> <file>:<line>:<column>`
pub open spec fn location_spec(w: nat, file: Seq<char>, line: nat, column: nat) -> Seq<char> {
    run(' ', w) + seq!['-', '-', '>', ' '] + file + seq![':'] + decimal(line) + seq![':']
        + decimal(column)
}

/// `<line number, right-aligned> |<space and tab-expanded line, if not empty>`
pub open spec fn context_spec(w: nat, line_number: nat, raw: Seq<char>) -> Seq<char> {
    let e = expand_tabs_spec(raw);
    right_align(decimal(line_number), w) + seq![' ', '|'] + if e.len() == 0 {
        e
    } else {
        seq![' '] + e
    }
}

/// Spaces before the carets: the column's offset, plus three more for each tab
/// before it, since a tab is displayed four columns wide.
pub open spec fn caret_indent(raw: Seq<char>, column: nat) -> nat {
    ((column - 1) as nat + 3 * tabs_before(raw, (column - 1) as nat)) as nat
}

/// Number of carets: the span's width, and never less than one.
pub open spec fn caret_count(start_column: nat, end_column: nat) -> nat {
    if end_column > start_column {
        (end_column - start_column) as nat
    } else {
        1
    }
}

/// `<gutter> | <indent><carets> <fix>`
pub open spec fn caret_spec(
    w: nat,
    raw: Seq<char>,
    start_column: nat,
    end_column: nat,
    fixme: Seq<char>,
) -> Seq<char> {
    run(' ', w) + seq![' ', '|', ' '] + run(' ', caret_indent(raw, start_column)) + run(
        '^',
        caret_count(start_column, end_column),
    ) + seq![' '] + fixme
}

/// `<gutter> |   <fix line>`
pub open spec fn fixme_line_spec(w: nat, f: Seq<char>) -> Seq<char> {
    run(' ', w) + seq![' ', '|', ' ', ' ', ' '] + f
}

/// The lines joined by line feeds.
pub open spec fn join_lines(v: Seq<Seq<char>>) -> Seq<char>
    decreases v.len(),
{
    if v.len() == 0 {
        Seq::empty()
    } else if v.len() == 1 {
        v[0]
    } else {
        join_lines(v.drop_last()) + seq!['\n'] + v.last()
    }
}

/// The annotation under the context line: the fix block when the column is 0,
/// else one caret line.
pub open spec fn annotation_spec(
    w: nat,
    raw: Seq<char>,
    span: SourceSpan,
    fixme: Seq<Seq<char>>,
) -> Seq<Seq<char>> {
    if span.start.column == 0 {
        fixme.map_values(|f: Seq<char>| fixme_line_spec(w, f))
    } else {
        seq![
            caret_spec(
                w,
                raw,
                span.start.column as nat,
                span.end.column as nat,
                join_lines(fixme),
            ),
        ]
    }
}

/// The location line, present only when a file name is given.
pub open spec fn location_part(w: nat, filename: Option<Seq<char>>, start: Pos) -> Seq<
    Seq<char>,
> {
    match filename {
        Some(f) => seq![location_spec(w, f, start.line as nat, start.column as nat)],
        None => Seq::empty(),
    }
}

/// A start line that names a line of the source.
pub open spec fn line_in_range(line: nat, line_count: nat) -> bool {
    1 <= line <= line_count
}

/// The whole report, line by line, for a severity token already styled.
pub open spec fn report_spec(
    lines: Seq<Seq<char>>,
    filename: Option<Seq<char>>,
    token: Seq<char>,
    description: Seq<char>,
    span: SourceSpan,
    fixme: Seq<Seq<char>>,
) -> Seq<Seq<char>> {
    let w = gutter_width_spec(lines.len());
    let raw = lines[span.start.line - 1];
    seq![header_spec(token, description)] + location_part(w, filename, span.start) + seq![
        gutter_bar(w),
        context_spec(w, span.start.line as nat, raw),
    ] + annotation_spec(w, raw, span, fixme) + seq![gutter_bar(w), Seq::empty()]
}

/// The view of an optional string.
pub open spec fn opt_text(o: Option<String>) -> Option<Seq<char>> {
    match o {
        Some(s) => Some(s@),
        None => None,
    }
}

/// The gutter followed by ` |`.
pub fn gutter_line(w: usize) -> (r: String)
    ensures
        r@ == gutter_bar(w as nat),
{
    let mut r = String::new();
    push_spaces(&mut r, w);
    proof {
        reveal_strlit(" |");
    }
    r.append(" |");
    assert(r@ =~= gutter_bar(w as nat));
    r
}

/// The header line: severity token, a colon and the description.
pub fn header_line(token: &str, description: &str) -> (r: String)
    ensures
        r@ == header_spec(token@, description@),
{
    let mut r = String::from_str(token);
    proof {
        reveal_strlit(": ");
    }
    r.append(": ");
    r.append(description);
    assert(r@ =~= header_spec(token@, description@));
    r
}

/// The location line, pointing at the file, line and column.
pub fn location_line(w: usize, file: &str, line: usize, column: usize) -> (r: String)
    ensures
        r@ == location_spec(w as nat, file@, line as nat, column as nat),
{
    let mut r = String::new();
    push_spaces(&mut r, w);
    proof {
        reveal_strlit("--> ");
        reveal_strlit(":");
    }
    r.append("--> ");
    r.append(file);
    r.append(":");
    push_decimal(&mut r, line);
    r.append(":");
    push_decimal(&mut r, column);
    assert(r@ =~= location_spec(w as nat, file@, line as nat, column as nat));
    r
}

/// The context line: the line number right-aligned to the gutter, then the line
/// with its tabs expanded.
pub fn context_line(w: usize, line_number: usize, raw: &str) -> (r: String)
    ensures
        r@ == context_spec(w as nat, line_number as nat, raw@),
{
    let mut number = String::new();
    push_decimal(&mut number, line_number);
    let digits = number.as_str().unicode_len();
    let mut r = String::new();
    if digits < w {
        push_spaces(&mut r, w - digits);
    }
    r.append(number.as_str());
    assert(r@ =~= right_align(decimal(line_number as nat), w as nat));
    proof {
        reveal_strlit(" |");
        reveal_strlit(" ");
    }
    r.append(" |");
    let expanded = expand_tabs(raw);
    if expanded.as_str().unicode_len() > 0 {
        r.append(" ");
        r.append(expanded.as_str());
    }
    assert(r@ =~= context_spec(w as nat, line_number as nat, raw@));
    r
}

/// The caret line: carets under the span's columns, then the fix.
pub fn caret_line(w: usize, raw: &str, start_column: usize, end_column: usize, fixme: &str) -> (r:
    String)
    requires
        start_column >= 1,
    ensures
        r@ == caret_spec(w as nat, raw@, start_column as nat, end_column as nat, fixme@),
{
    let mut r = String::new();
    push_spaces(&mut r, w);
    proof {
        reveal_strlit(" | ");
        reveal_strlit("^");
        reveal_strlit(" ");
    }
    r.append(" | ");
    let shift = tab_shift(raw, start_column - 1);
    let ghost before = r@;
    push_spaces(&mut r, start_column - 1);
    let mut k: usize = 0;
    while k < shift
        invariant
            k <= shift,
            start_column >= 1,
            r@ == before + run(' ', (start_column - 1 + 3 * k) as nat),
        decreases shift - k,
    {
        push_spaces(&mut r, 3);
        proof {
            let a = (start_column - 1 + 3 * k) as nat;
            assert(run(' ', a) + run(' ', 3) =~= run(' ', a + 3));
            assert(r@ =~= before + (run(' ', a) + run(' ', 3)));
            assert(r@ == before + run(' ', a + 3));
        }
        k = k + 1;
    }
    let count = if end_column > start_column {
        end_column - start_column
    } else {
        1
    };
    push_run(&mut r, "^", count);
    r.append(" ");
    r.append(fixme);
    assert(r@ =~= caret_spec(w as nat, raw@, start_column as nat, end_column as nat, fixme@));
    r
}

/// One line of the fix block.
pub fn fixme_line(w: usize, f: &str) -> (r: String)
    ensures
        r@ == fixme_line_spec(w as nat, f@),
{
    let mut r = String::new();
    push_spaces(&mut r, w);
    proof {
        reveal_strlit(" |   ");
    }
    r.append(" |   ");
    r.append(f);
    assert(r@ =~= fixme_line_spec(w as nat, f@));
    r
}

/// The lines joined by line feeds.
pub fn join_fixme(v: &Vec<String>) -> (r: String)
    ensures
        r@ == join_lines(texts(v@)),
{
    let mut r = String::new();
    let mut i: usize = 0;
    proof {
        reveal_strlit("\n");
    }
    while i < v.len()
        invariant
            i <= v.len(),
            r@ == join_lines(texts(v@).take(i as int)),
        decreases v.len() - i,
    {
        let ghost t = texts(v@).take(i as int + 1);
        assert(t.drop_last() =~= texts(v@).take(i as int));
        assert(t.last() == v@[i as int]@);
        if i > 0 {
            proof {
                reveal_strlit("\n");
            }
            r.append("\n");
        } else {
            assert(t.len() == 1);
        }
        r.append(v[i].as_str());
        i = i + 1;
        assert(r@ =~= join_lines(t));
    }
    assert(texts(v@).take(v.len() as int) =~= texts(v@));
    r
}

/// Renders the report of `diag` over the source `lines`, with `token` as the
/// severity word (plain or already styled).
pub fn format_report(
    lines: &Vec<String>,
    filename: &Option<String>,
    token: &str,
    diag: &Diagnostic,
) -> (r: Vec<String>)
    requires
        line_in_range(diag.span.start.line as nat, lines.len() as nat),
    ensures
        texts(r@) == report_spec(
            texts(lines@),
            opt_text(*filename),
            token@,
            diag.description@,
            diag.span,
            texts(diag.fixme@),
        ),
{
    let w = gutter_width(lines.len());
    let start = diag.span.start;
    let raw = lines[start.line - 1].as_str();
    let ghost g = gutter_width_spec(lines.len() as nat);
    let ghost head = seq![header_spec(token@, diag.description@)] + location_part(
        g,
        opt_text(*filename),
        start,
    ) + seq![gutter_bar(g), context_spec(g, start.line as nat, raw@)];
    let mut r: Vec<String> = Vec::new();
    r.push(header_line(token, diag.description.as_str()));
    match filename {
        Some(f) => {
            r.push(location_line(w, f.as_str(), start.line, start.column));
        },
        None => {},
    }
    r.push(gutter_line(w));
    r.push(context_line(w, start.line, raw));
    assert(texts(r@) =~= head);
    if start.column == 0 {
        let mut i: usize = 0;
        while i < diag.fixme.len()
            invariant
                i <= diag.fixme.len(),
                w == g,
                texts(r@) == head + texts(diag.fixme@).take(i as int).map_values(
                    |f: Seq<char>| fixme_line_spec(g, f),
                ),
            decreases diag.fixme.len() - i,
        {
            let ghost prev = texts(r@);
            let line = fixme_line(w, diag.fixme[i].as_str());
            assert(texts(diag.fixme@)[i as int] == diag.fixme@[i as int]@);
            r.push(line);
            assert(texts(r@) =~= prev.push(line@));
            i = i + 1;
            assert(texts(r@) =~= head + texts(diag.fixme@).take(i as int).map_values(
                |f: Seq<char>| fixme_line_spec(g, f),
            ));
        }
        assert(texts(diag.fixme@).take(i as int) =~= texts(diag.fixme@));
    } else {
        let joined = join_fixme(&diag.fixme);
        r.push(caret_line(w, raw, start.column, diag.span.end.column, joined.as_str()));
    }
    r.push(gutter_line(w));
    r.push(String::new());
    assert(texts(r@) =~= report_spec(
        texts(lines@),
        opt_text(*filename),
        token@,
        diag.description@,
        diag.span,
        texts(diag.fixme@),
    ));
    r
}

} // verus!
