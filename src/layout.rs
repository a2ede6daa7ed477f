//! Pure layout pieces of a diagnostic report: gutter, carets, tabs, numbers.
use vstd::prelude::*;
use vstd::string::StrSliceExecFns;
use vstd::string::StringExecFns;

verus! {

/// Width of the line-number gutter for a source of `n` lines.
pub open spec fn gutter_width_spec(n: nat) -> nat {
    if n < 100 {
        2
    } else if n < 1000 {
        3
    } else {
        4
    }
}

/// `n` copies of the character `c`.
pub open spec fn run(c: char, n: nat) -> Seq<char> {
    Seq::new(n, |_i: int| c)
}

/// The line with every tab replaced by four spaces.
pub open spec fn expand_tabs_spec(s: Seq<char>) -> Seq<char>
    decreases s.len(),
{
    if s.len() == 0 {
        Seq::empty()
    } else {
        expand_tabs_spec(s.drop_last()) + if s.last() == '\t' {
            run(' ', 4)
        } else {
            seq![s.last()]
        }
    }
}

/// Number of tab characters in `s`.
pub open spec fn count_tabs(s: Seq<char>) -> nat
    decreases s.len(),
{
    if s.len() == 0 {
        0
    } else {
        count_tabs(s.drop_last()) + if s.last() == '\t' {
            1nat
        } else {
            0nat
        }
    }
}

/// Number of tabs among the first `n` characters of `s` (all of `s` when shorter).
pub open spec fn tabs_before(s: Seq<char>, n: nat) -> nat {
    if n <= s.len() {
        count_tabs(s.take(n as int))
    } else {
        count_tabs(s)
    }
}

/// The character of a decimal digit.
pub open spec fn digit_char(d: nat) -> char {
    if d == 0 {
        '0'
    } else if d == 1 {
        '1'
    } else if d == 2 {
        '2'
    } else if d == 3 {
        '3'
    } else if d == 4 {
        '4'
    } else if d == 5 {
        '5'
    } else if d == 6 {
        '6'
    } else if d == 7 {
        '7'
    } else if d == 8 {
        '8'
    } else {
        '9'
    }
}

/// Decimal notation of `n`, without leading zeros.
pub open spec fn decimal(n: nat) -> Seq<char>
    decreases n,
{
    if n < 10 {
        seq![digit_char(n)]
    } else {
        decimal(n / 10) + seq![digit_char(n % 10)]
    }
}

/// `s` padded on the left with spaces to at least `width` characters.
pub open spec fn right_align(s: Seq<char>, width: nat) -> Seq<char> {
    if s.len() < width {
        run(' ', (width - s.len()) as nat) + s
    } else {
        s
    }
}

/// Width of the gutter: 2 below 100 lines, 3 below 1000, 4 beyond.
pub fn gutter_width(line_count: usize) -> (r: usize)
    ensures
        r == gutter_width_spec(line_count as nat),
{
    if line_count < 100 {
        2
    } else if line_count < 1000 {
        3
    } else {
        4
    }
}

/// Appends `n` copies of the one-character string `piece`.
pub fn push_run(s: &mut String, piece: &str, n: usize)
    requires
        piece@.len() == 1,
    ensures
        final(s)@ == old(s)@ + run(piece@[0], n as nat),
{
    let ghost start = s@;
    let mut i: usize = 0;
    while i < n
        invariant
            i <= n,
            piece@.len() == 1,
            s@ == start + run(piece@[0], i as nat),
        decreases n - i,
    {
        s.append(piece);
        i = i + 1;
        assert(s@ =~= start + run(piece@[0], i as nat));
    }
}

/// Appends `n` spaces.
pub fn push_spaces(s: &mut String, n: usize)
    ensures
        final(s)@ == old(s)@ + run(' ', n as nat),
{
    proof {
        reveal_strlit(" ");
    }
    push_run(s, " ", n);
}

/// The line with every tab replaced by four spaces; other characters are kept.
pub fn expand_tabs(line: &str) -> (r: String)
    ensures
        r@ == expand_tabs_spec(line@),
{
    let len = line.unicode_len();
    let mut r = String::new();
    let mut i: usize = 0;
    while i < len
        invariant
            i <= len,
            len == line@.len(),
            r@ == expand_tabs_spec(line@.take(i as int)),
        decreases len - i,
    {
        let c = line.get_char(i);
        let ghost prefix = line@.take(i as int + 1);
        assert(prefix.drop_last() =~= line@.take(i as int));
        if c == '\t' {
            proof {
                reveal_strlit("    ");
                assert("    "@ =~= seq![' ', ' ', ' ', ' ']);
                assert(run(' ', 4) =~= seq![' ', ' ', ' ', ' ']);
            }
            r.append("    ");
        } else {
            let one = line.substring_char(i, i + 1);
            r.append(one);
            assert(one@ =~= seq![c]);
        }
        i = i + 1;
    }
    assert(line@.take(len as int) =~= line@);
    r
}

/// Number of tabs among the first `limit` characters of `line`.
pub fn tab_shift(line: &str, limit: usize) -> (r: usize)
    ensures
        r == tabs_before(line@, limit as nat),
{
    let len = line.unicode_len();
    let end = if limit < len {
        limit
    } else {
        len
    };
    let mut count: usize = 0;
    let mut i: usize = 0;
    while i < end
        invariant
            i <= end,
            end <= len,
            len == line@.len(),
            end == limit || end == len,
            end < len ==> end == limit,
            count == count_tabs(line@.take(i as int)),
            count <= i,
        decreases end - i,
    {
        let c = line.get_char(i);
        assert(line@.take(i as int + 1).drop_last() =~= line@.take(i as int));
        if c == '\t' {
            count = count + 1;
        }
        i = i + 1;
    }
    assert(line@.take(len as int) =~= line@);
    count
}

/// The string of one decimal digit.
fn digit_str(d: usize) -> (r: &'static str)
    requires
        d < 10,
    ensures
        r@ == seq![digit_char(d as nat)],
{
    proof {
        reveal_strlit("0");
        reveal_strlit("1");
        reveal_strlit("2");
        reveal_strlit("3");
        reveal_strlit("4");
        reveal_strlit("5");
        reveal_strlit("6");
        reveal_strlit("7");
        reveal_strlit("8");
        reveal_strlit("9");
    }
    if d == 0 {
        "0"
    } else if d == 1 {
        "1"
    } else if d == 2 {
        "2"
    } else if d == 3 {
        "3"
    } else if d == 4 {
        "4"
    } else if d == 5 {
        "5"
    } else if d == 6 {
        "6"
    } else if d == 7 {
        "7"
    } else if d == 8 {
        "8"
    } else {
        "9"
    }
}

/// Appends the decimal notation of `n`.
pub fn push_decimal(s: &mut String, n: usize)
    ensures
        final(s)@ == old(s)@ + decimal(n as nat),
    decreases n,
{
    if n < 10 {
        s.append(digit_str(n));
    } else {
        push_decimal(s, n / 10);
        s.append(digit_str(n % 10));
        assert(s@ =~= old(s)@ + decimal(n as nat));
    }
}

/// The decimal notation of `n`.
pub fn decimal_string(n: usize) -> (r: String)
    ensures
        r@ == decimal(n as nat),
{
    let mut r = String::new();
    push_decimal(&mut r, n);
    assert(r@ =~= decimal(n as nat));
    r
}

} // verus!
