//! Properties of the report layout, proved over the spec functions that the
//! rendering functions' contracts use.
use vstd::prelude::*;
use crate::layout::{
    count_tabs, decimal, digit_char, expand_tabs_spec, gutter_width_spec, right_align, run,
};
use crate::report::{
    caret_count, caret_indent, caret_spec, context_spec, fixme_line_spec, gutter_bar,
    header_spec, join_lines, line_in_range, location_part, location_spec, report_spec,
    SourceSpan,
};
use crate::style::severity_word;

verus! {

/// The gutter width only grows with the number of source lines, and is always
/// 2, 3 or 4.
pub proof fn lemma_gutter_width_monotonic(n: nat, m: nat)
    requires
        n <= m,
    ensures
        gutter_width_spec(n) <= gutter_width_spec(m),
        2 <= gutter_width_spec(n) <= 4,
{
}

/// Tab expansion adds three characters for each tab.
pub proof fn lemma_expanded_len(s: Seq<char>)
    ensures
        expand_tabs_spec(s).len() == s.len() + 3 * count_tabs(s),
    decreases s.len(),
{
    if s.len() > 0 {
        lemma_expanded_len(s.drop_last());
    }
}

/// Tab expansion works character by character: the expansion of a line is the
/// expansion of its first `k` characters followed by that of the rest.
pub proof fn lemma_expand_split(s: Seq<char>, k: nat)
    requires
        k <= s.len(),
    ensures
        expand_tabs_spec(s) == expand_tabs_spec(s.take(k as int)) + expand_tabs_spec(
            s.skip(k as int),
        ),
    decreases s.len(),
{
    if k == s.len() {
        assert(s.take(k as int) =~= s);
        assert(s.skip(k as int) =~= Seq::<char>::empty());
        assert(expand_tabs_spec(s) + Seq::<char>::empty() =~= expand_tabs_spec(s));
    } else {
        let t = s.drop_last();
        lemma_expand_split(t, k);
        assert(t.take(k as int) =~= s.take(k as int));
        let rest = s.skip(k as int);
        assert(rest.drop_last() =~= t.skip(k as int));
        assert(rest.last() == s.last());
    }
}

/// The carets stand right under the character at the start column: their
/// indent is the displayed width of the characters before it, tabs counted as
/// four columns, and the displayed line begins with those characters.
pub proof fn lemma_caret_under_character(raw: Seq<char>, column: nat)
    requires
        1 <= column <= raw.len() + 1,
    ensures
        caret_indent(raw, column) == expand_tabs_spec(raw.take(column - 1)).len(),
        expand_tabs_spec(raw) == expand_tabs_spec(raw.take(column - 1)) + expand_tabs_spec(
            raw.skip(column - 1),
        ),
{
    lemma_expanded_len(raw.take(column - 1));
    lemma_expand_split(raw, (column - 1) as nat);
}

/// In a report, the first caret has the same position in the caret line as
/// the displayed start character has in the context line, whatever tabs come
/// before it, as long as the line number fits the gutter.
pub proof fn lemma_caret_aligned_with_context(
    w: nat,
    line_number: nat,
    raw: Seq<char>,
    start_column: nat,
    end_column: nat,
    fixme: Seq<char>,
)
    requires
        1 <= start_column <= raw.len(),
        decimal(line_number).len() <= w,
    ensures
        ({
            let k = (w + 3 + caret_indent(raw, start_column)) as int;
            &&& caret_spec(w, raw, start_column, end_column, fixme)[k] == '^'
            &&& context_spec(w, line_number, raw).skip(k) == expand_tabs_spec(
                raw.skip(start_column - 1),
            )
        }),
{
    let i = caret_indent(raw, start_column);
    let k = (w + 3 + i) as int;
    lemma_caret_under_character(raw, start_column);
    let pre = expand_tabs_spec(raw.take(start_column - 1));
    let post = expand_tabs_spec(raw.skip(start_column - 1));
    let e = expand_tabs_spec(raw);
    // the character at the start column is displayed, so the line is not empty
    assert(raw.skip(start_column - 1).len() > 0);
    lemma_expanded_len(raw.skip(start_column - 1));
    let num = decimal(line_number);
    let lead = right_align(num, w) + seq![' ', '|'] + seq![' '];
    assert(right_align(num, w).len() == w);
    assert(context_spec(w, line_number, raw) =~= lead + e);
    assert((lead + e).skip(k) =~= post);
    let c = caret_spec(w, raw, start_column, end_column, fixme);
    lemma_caret_count_floor(start_column, end_column);
    let cc = caret_count(start_column, end_column);
    assert(c =~= run(' ', w) + seq![' ', '|', ' '] + run(' ', i) + run('^', cc) + seq![' ']
        + fixme);
    assert(c[k] == run('^', cc)[0]);
}

/// At least one caret is drawn: exactly one for an empty span, else one per
/// column of the span.
pub proof fn lemma_caret_count_floor(start_column: nat, end_column: nat)
    ensures
        caret_count(start_column, end_column) >= 1,
        start_column == end_column ==> caret_count(start_column, end_column) == 1,
        end_column > start_column ==> caret_count(start_column, end_column) == end_column
            - start_column,
{
}

/// Column 0 gives one fix line per line of the fix and no caret line; any other
/// column gives exactly one caret line and no fix block. The annotation stands
/// after the header, the optional location line, the gutter line and the
/// context line, and before the closing gutter line and blank line.
pub proof fn lemma_annotation_branch(
    lines: Seq<Seq<char>>,
    filename: Option<Seq<char>>,
    token: Seq<char>,
    description: Seq<char>,
    span: SourceSpan,
    fixme: Seq<Seq<char>>,
)
    requires
        line_in_range(span.start.line as nat, lines.len()),
    ensures
        ({
            let r = report_spec(lines, filename, token, description, span, fixme);
            let w = gutter_width_spec(lines.len());
            let raw = lines[span.start.line - 1];
            let base: int = if filename is Some {
                4
            } else {
                3
            };
            &&& r[0] == header_spec(token, description)
            &&& r[base - 2] == gutter_bar(w)
            &&& r[base - 1] == context_spec(w, span.start.line as nat, raw)
            &&& span.start.column == 0 ==> {
                &&& r.len() == base + fixme.len() + 2
                &&& forall|i: int|
                    0 <= i < fixme.len() ==> #[trigger] r[base + i] == fixme_line_spec(
                        w,
                        fixme[i],
                    )
            }
            &&& span.start.column != 0 ==> {
                &&& r.len() == base + 3
                &&& r[base] == caret_spec(
                    w,
                    raw,
                    span.start.column as nat,
                    span.end.column as nat,
                    join_lines(fixme),
                )
            }
            &&& r[r.len() - 2] == gutter_bar(w)
            &&& r[r.len() - 1] == Seq::<char>::empty()
        }),
{
    let r = report_spec(lines, filename, token, description, span, fixme);
    let w = gutter_width_spec(lines.len());
    let base: int = if filename is Some {
        4
    } else {
        3
    };
    assert(location_part(w, filename, span.start).len() == base - 3);
    if span.start.column == 0 {
        assert forall|i: int| 0 <= i < fixme.len() implies #[trigger] r[base + i]
            == fixme_line_spec(w, fixme[i]) by {}
    }
}

/// `s` holds no escape character.
pub open spec fn escape_free(s: Seq<char>) -> bool {
    !s.contains('\x1b')
}

proof fn lemma_concat_escape_free(a: Seq<char>, b: Seq<char>)
    requires
        escape_free(a),
        escape_free(b),
    ensures
        escape_free(a + b),
{
    if (a + b).contains('\x1b') {
        let i = choose|i: int| 0 <= i < (a + b).len() && (a + b)[i] == '\x1b';
        if i < a.len() {
            assert(a[i] == '\x1b');
        } else {
            assert(b[i - a.len()] == '\x1b');
        }
    }
}

proof fn lemma_run_escape_free(c: char, n: nat)
    requires
        c != '\x1b',
    ensures
        escape_free(run(c, n)),
{
}

proof fn lemma_decimal_escape_free(n: nat)
    ensures
        escape_free(decimal(n)),
    decreases n,
{
    if n >= 10 {
        lemma_decimal_escape_free(n / 10);
        lemma_concat_escape_free(decimal(n / 10), seq![digit_char(n % 10)]);
    }
}

proof fn lemma_expand_escape_free(s: Seq<char>)
    requires
        escape_free(s),
    ensures
        escape_free(expand_tabs_spec(s)),
    decreases s.len(),
{
    if s.len() > 0 {
        let t = s.drop_last();
        assert(escape_free(t)) by {
            if t.contains('\x1b') {
                let i = choose|i: int| 0 <= i < t.len() && t[i] == '\x1b';
                assert(s[i] == '\x1b');
            }
        }
        lemma_expand_escape_free(t);
        assert(s[s.len() - 1] == s.last());
        let piece = if s.last() == '\t' {
            run(' ', 4)
        } else {
            seq![s.last()]
        };
        lemma_concat_escape_free(expand_tabs_spec(t), piece);
    }
}

proof fn lemma_join_escape_free(v: Seq<Seq<char>>)
    requires
        forall|i: int| 0 <= i < v.len() ==> escape_free(#[trigger] v[i]),
    ensures
        escape_free(join_lines(v)),
    decreases v.len(),
{
    if v.len() > 1 {
        let t = v.drop_last();
        assert forall|i: int| 0 <= i < t.len() implies escape_free(#[trigger] t[i]) by {
            assert(t[i] == v[i]);
        }
        lemma_join_escape_free(t);
        lemma_concat_escape_free(join_lines(t), seq!['\n']);
        lemma_concat_escape_free(join_lines(t) + seq!['\n'], v.last());
    }
}

/// With colour off the report holds no escape sequence, provided the source
/// line, the file name, the description and the fix hold none, and it starts
/// with the plain word `error` or `warning`.
pub proof fn lemma_plain_report_escape_free(
    lines: Seq<Seq<char>>,
    filename: Option<Seq<char>>,
    warning: bool,
    description: Seq<char>,
    span: SourceSpan,
    fixme: Seq<Seq<char>>,
)
    requires
        line_in_range(span.start.line as nat, lines.len()),
        escape_free(lines[span.start.line - 1]),
        filename matches Some(f) ==> escape_free(f),
        escape_free(description),
        forall|i: int| 0 <= i < fixme.len() ==> escape_free(#[trigger] fixme[i]),
    ensures
        ({
            let r = report_spec(
                lines,
                filename,
                severity_word(warning),
                description,
                span,
                fixme,
            );
            &&& r[0] == severity_word(warning) + seq![':', ' '] + description
            &&& forall|i: int| 0 <= i < r.len() ==> escape_free(#[trigger] r[i])
        }),
{
    let token = severity_word(warning);
    let r = report_spec(lines, filename, token, description, span, fixme);
    let w = gutter_width_spec(lines.len());
    let raw = lines[span.start.line - 1];
    let start = span.start;
    lemma_annotation_branch(lines, filename, token, description, span, fixme);
    let sp = run(' ', w);
    lemma_run_escape_free(' ', w);
    // header
    assert(escape_free(token)) by {
        if token.contains('\x1b') {
            let i = choose|i: int| 0 <= i < token.len() && token[i] == '\x1b';
        }
    }
    lemma_concat_escape_free(token, seq![':', ' ']);
    lemma_concat_escape_free(token + seq![':', ' '], description);
    // gutter bar
    lemma_concat_escape_free(sp, seq![' ', '|']);
    // context line
    lemma_decimal_escape_free(start.line as nat);
    let num = decimal(start.line as nat);
    if num.len() < w {
        lemma_run_escape_free(' ', (w - num.len()) as nat);
        lemma_concat_escape_free(run(' ', (w - num.len()) as nat), num);
    }
    let e = expand_tabs_spec(raw);
    lemma_expand_escape_free(raw);
    lemma_concat_escape_free(seq![' '], e);
    lemma_concat_escape_free(right_align(num, w), seq![' ', '|']);
    lemma_concat_escape_free(right_align(num, w) + seq![' ', '|'], if e.len() == 0 {
        e
    } else {
        seq![' '] + e
    });
    // location line
    if filename is Some {
        let f = filename->Some_0;
        lemma_decimal_escape_free(start.column as nat);
        let l1 = sp + seq!['-', '-', '>', ' '];
        lemma_concat_escape_free(sp, seq!['-', '-', '>', ' ']);
        lemma_concat_escape_free(l1, f);
        lemma_concat_escape_free(l1 + f, seq![':']);
        lemma_concat_escape_free(l1 + f + seq![':'], decimal(start.line as nat));
        lemma_concat_escape_free(l1 + f + seq![':'] + decimal(start.line as nat), seq![':']);
        lemma_concat_escape_free(
            l1 + f + seq![':'] + decimal(start.line as nat) + seq![':'],
            decimal(start.column as nat),
        );
        assert(r[1] == location_spec(w, f, start.line as nat, start.column as nat));
    }
    // annotation
    if start.column == 0 {
        assert forall|i: int| 0 <= i < fixme.len() implies escape_free(
            #[trigger] fixme_line_spec(w, fixme[i]),
        ) by {
            lemma_concat_escape_free(sp, seq![' ', '|', ' ', ' ', ' ']);
            lemma_concat_escape_free(sp + seq![' ', '|', ' ', ' ', ' '], fixme[i]);
        }
    } else {
        let c1 = sp + seq![' ', '|', ' '];
        let ind = run(' ', caret_indent(raw, start.column as nat));
        let car = run('^', caret_count(start.column as nat, span.end.column as nat));
        lemma_run_escape_free(' ', caret_indent(raw, start.column as nat));
        lemma_run_escape_free('^', caret_count(start.column as nat, span.end.column as nat));
        lemma_join_escape_free(fixme);
        lemma_concat_escape_free(sp, seq![' ', '|', ' ']);
        lemma_concat_escape_free(c1, ind);
        lemma_concat_escape_free(c1 + ind, car);
        lemma_concat_escape_free(c1 + ind + car, seq![' ']);
        lemma_concat_escape_free(c1 + ind + car + seq![' '], join_lines(fixme));
    }
    assert(escape_free(Seq::<char>::empty()));
    let base: int = if filename is Some {
        4
    } else {
        3
    };
    assert forall|i: int| 0 <= i < r.len() implies escape_free(#[trigger] r[i]) by {
        if i == 0 {
        } else if i < base - 2 {
        } else if i < base {
        } else if i < r.len() - 2 {
            if start.column == 0 {
                assert(r[base + (i - base)] == fixme_line_spec(w, fixme[i - base]));
            }
        } else {
        }
    }
}

} // verus!
