use vstd::prelude::*;
use vstd::utf8::encode_utf8;
use crate::text::{push_char, push_spaces, spaces};

verus! {

/// Number of decimal digits of `n` (zero has one digit).
pub open spec fn num_digits(n: nat) -> nat
    decreases n,
{
    if n < 10 {
        1
    } else {
        1 + num_digits(n / 10)
    }
}

/// A number has at least one digit, and no more digits than its value.
pub proof fn lemma_num_digits_bounds(n: nat)
    ensures
        1 <= num_digits(n),
        n >= 1 ==> num_digits(n) <= n,
    decreases n,
{
    if n >= 10 {
        lemma_num_digits_bounds(n / 10);
    }
}

/// Counts the decimal digits of `num`.
pub fn get_num_digits(n: usize) -> (count: usize)
    ensures
        count == num_digits(n as nat),
{
    proof {
        lemma_num_digits_bounds(n as nat);
    }
    let mut num: usize = n;
    let mut dig_count: usize = 1;
    while num / 10 > 0
        invariant
            dig_count + num_digits(num as nat) == num_digits(n as nat) + 1,
            num_digits(n as nat) <= n || n == 0,
        decreases num,
    {
        proof {
            lemma_num_digits_bounds(num as nat);
            lemma_num_digits_bounds((num / 10) as nat);
        }
        num = num / 10;
        dig_count += 1;
    }
    dig_count
}

/// The digit count never shrinks as the number grows.
pub proof fn lemma_num_digits_monotonic(i: nat, j: nat)
    requires
        i <= j,
    ensures
        num_digits(i) <= num_digits(j),
    decreases j,
{
    lemma_num_digits_bounds(j);
    if i >= 10 {
        lemma_num_digits_monotonic(i / 10, j / 10);
    }
}

/// The character of a decimal digit `d` (`0 <= d < 10`).
pub open spec fn digit_char(d: nat) -> char {
    if d == 0 { '0' }
    else if d == 1 { '1' }
    else if d == 2 { '2' }
    else if d == 3 { '3' }
    else if d == 4 { '4' }
    else if d == 5 { '5' }
    else if d == 6 { '6' }
    else if d == 7 { '7' }
    else if d == 8 { '8' }
    else { '9' }
}

/// The decimal representation of `n`, most significant digit first.
pub open spec fn decimal(n: nat) -> Seq<char>
    decreases n,
{
    if n < 10 {
        seq![digit_char(n)]
    } else {
        decimal(n / 10).push(digit_char(n % 10))
    }
}

/// A decimal representation has exactly `num_digits` characters.
pub proof fn lemma_decimal_len(n: nat)
    ensures
        decimal(n).len() == num_digits(n),
    decreases n,
{
    if n >= 10 {
        lemma_decimal_len(n / 10);
    }
}

fn digit_to_char(d: usize) -> (c: char)
    requires
        d < 10,
    ensures
        c == digit_char(d as nat),
{
    if d == 0 { '0' }
    else if d == 1 { '1' }
    else if d == 2 { '2' }
    else if d == 3 { '3' }
    else if d == 4 { '4' }
    else if d == 5 { '5' }
    else if d == 6 { '6' }
    else if d == 7 { '7' }
    else if d == 8 { '8' }
    else { '9' }
}

/// Appends the decimal representation of `n` to `s`.
pub fn push_decimal(s: &mut String, n: usize)
    ensures
        final(s)@ == old(s)@ + decimal(n as nat),
    decreases n,
{
    if n >= 10 {
        push_decimal(s, n / 10);
    }
    let c = digit_to_char(n % 10);
    push_char(s, c);
    assert(s@ =~= old(s)@ + decimal(n as nat));
}

/// Gutter line for line number `i` in a column `width` characters wide:
/// the number right-aligned with blanks, then a newline.
pub open spec fn gutter_line(i: nat, width: nat) -> Seq<char> {
    spaces((width - num_digits(i)) as nat) + decimal(i) + seq!['\n']
}

/// Gutter lines for the numbers `1..=k`.
pub open spec fn gutter_lines(k: nat, width: nat) -> Seq<char>
    decreases k,
{
    if k == 0 {
        Seq::empty()
    } else {
        gutter_lines((k - 1) as nat, width) + gutter_line(k, width)
    }
}

/// The full line-number column for a text of `count` lines: one line per
/// number `1..=count`, all right-aligned to the width of `count`, followed
/// by a closing `~`.
pub open spec fn line_number_column(count: nat) -> Seq<char> {
    gutter_lines(count, num_digits(count)) + seq!['~']
}

/// Builds the line-number column for a text of `count` lines.
pub fn get_line_num_str(count: usize) -> (lines_str: String)
    ensures
        lines_str@ == line_number_column(count as nat),
{
    let mut lines_str = String::new();
    let width = get_num_digits(count);
    let mut i: usize = 0;
    while i < count
        invariant
            i <= count,
            width == num_digits(count as nat),
            lines_str@ == gutter_lines(i as nat, width as nat),
        decreases count - i,
    {
        let line_no = i + 1;
        let line_digits = get_num_digits(line_no);
        proof {
            lemma_num_digits_monotonic(line_no as nat, count as nat);
        }
        let leading_spaces = width - line_digits;
        let ghost before = lines_str@;
        push_spaces(&mut lines_str, leading_spaces);
        push_decimal(&mut lines_str, line_no);
        push_char(&mut lines_str, '\n');
        assert(lines_str@ =~= before + gutter_line(line_no as nat, width as nat));
        i = line_no;
    }
    push_char(&mut lines_str, '~');
    lines_str
}

/// Every gutter line of a number not above `count` is exactly as wide as
/// the column of `count` (plus its newline): the numbers are right-aligned.
pub proof fn lemma_gutter_line_width(i: nat, count: nat)
    requires
        i <= count,
    ensures
        gutter_line(i, num_digits(count)).len() == num_digits(count) + 1,
{
    lemma_num_digits_monotonic(i, count);
    lemma_decimal_len(i);
}

/// Gutter lines `1..=k` of width `width` (wide enough for `k`) take
/// `k * (width + 1)` characters, and the line of each `i` in `1..=k` stands
/// at offset `(i - 1) * (width + 1)`.
pub proof fn lemma_gutter_lines_layout(k: nat, width: nat, i: nat)
    requires
        num_digits(k) <= width,
        1 <= i <= k,
    ensures
        gutter_lines(k, width).len() == k * (width + 1),
        gutter_lines(k, width).subrange((i - 1) * (width + 1), (i * (width + 1)) as int)
            == gutter_line(i, width),
    decreases k,
{
    let km1 = (k - 1) as nat;
    lemma_num_digits_monotonic(km1, k);
    lemma_gutter_lines_len(k, width);
    lemma_gutter_lines_len(km1, width);
    let prefix = gutter_lines(km1, width);
    assert(k * (width + 1) == km1 * (width + 1) + (width + 1)) by (nonlinear_arith)
        requires
            km1 + 1 == k,
    ;
    let lo = (i - 1) * (width + 1);
    let hi = (i * (width + 1)) as int;
    assert(lo >= 0 && hi == lo + (width + 1)) by (nonlinear_arith)
        requires
            i >= 1,
            lo == (i - 1) * (width + 1),
            hi == i * (width + 1),
    ;
    if i == k {
        assert(gutter_lines(k, width).subrange(lo, hi) =~= gutter_line(i, width));
    } else {
        lemma_gutter_lines_layout(km1, width, i);
        assert(hi <= km1 * (width + 1)) by (nonlinear_arith)
            requires
                i <= km1,
                hi == i * (width + 1),
        ;
        assert(gutter_lines(k, width).subrange(lo, hi) =~= prefix.subrange(lo, hi));
    }
}

proof fn lemma_gutter_lines_len(k: nat, width: nat)
    requires
        num_digits(k) <= width,
    ensures
        gutter_lines(k, width).len() == k * (width + 1),
    decreases k,
{
    if k > 0 {
        let km1 = (k - 1) as nat;
        lemma_num_digits_monotonic(km1, k);
        lemma_gutter_lines_len(km1, width);
        lemma_decimal_len(k);
        assert(gutter_line(k, width).len() == width + 1);
        assert(gutter_lines(k, width).len() == km1 * (width + 1) + (width + 1));
        assert(k * (width + 1) == km1 * (width + 1) + (width + 1)) by (nonlinear_arith)
            requires
                km1 + 1 == k,
        ;
    } else {
        assert(k * (width + 1) == 0) by (nonlinear_arith)
            requires
                k == 0,
        ;
    }
}

/// The line-number column of a `count`-line text has `count` rows of equal
/// width `num_digits(count) + 1` (number and newline), the row of line `i`
/// holds exactly the right-aligned number `i`, and the column ends in `~`.
pub proof fn lemma_line_number_column_shape(count: nat, i: nat)
    requires
        1 <= i <= count,
    ensures
        line_number_column(count).len() == count * (num_digits(count) + 1) + 1,
        line_number_column(count).subrange(
            (i - 1) * (num_digits(count) + 1),
            (i * (num_digits(count) + 1)) as int,
        ) == spaces((num_digits(count) - num_digits(i)) as nat) + decimal(i) + seq!['\n'],
        line_number_column(count).last() == '~',
{
    let w = num_digits(count);
    lemma_gutter_lines_layout(count, w, i);
    let lo = (i - 1) * (w + 1);
    let hi = (i * (w + 1)) as int;
    assert(lo >= 0 && hi == lo + (w + 1) && hi <= count * (w + 1)) by (nonlinear_arith)
        requires
            1 <= i <= count,
            lo == (i - 1) * (w + 1),
            hi == i * (w + 1),
    ;
    assert(line_number_column(count).subrange(lo, hi) =~= gutter_lines(count, w).subrange(lo, hi));
}

/// An empty text still gets a column: just the closing `~`.
pub proof fn lemma_line_number_column_empty()
    ensures
        line_number_column(0) == seq!['~'],
{
    assert(line_number_column(0) =~= seq!['~']);
}

/// Number of `'\n'` characters in `s`.
pub open spec fn count_newlines(s: Seq<char>) -> nat
    decreases s.len(),
{
    if s.len() == 0 {
        0
    } else {
        count_newlines(s.drop_last()) + if s.last() == '\n' { 1nat } else { 0nat }
    }
}

/// Number of lines of a text, as `str::lines` counts them: lines end at
/// `'\n'`, and a final line that is empty (the text is empty or ends with a
/// newline) is not counted.
pub open spec fn line_count_of(s: Seq<char>) -> nat {
    if s.len() == 0 {
        0
    } else if s.last() == '\n' {
        count_newlines(s)
    } else {
        count_newlines(s) + 1
    }
}

/// UTF-8 needs at least one byte per character.
pub proof fn lemma_utf8_len_at_least_chars(chars: Seq<char>)
    ensures
        chars.len() <= encode_utf8(chars).len(),
    decreases chars.len(),
{
    if chars.len() > 0 {
        lemma_utf8_len_at_least_chars(chars.drop_first());
    }
}

/// Counts the lines of `text` the way `str::lines` does.
pub fn line_count(text: &str) -> (count: usize)
    ensures
        count == line_count_of(text@),
{
    let byte_len = text.as_bytes().len();
    proof {
        lemma_utf8_len_at_least_chars(text@);
    }
    let mut newlines: usize = 0;
    let mut last_is_newline = false;
    for c in it: text.chars()
        invariant
            it.seq() == text@,
            text@.len() <= byte_len,
            newlines == count_newlines(text@.take(it.index())),
            newlines <= it.index(),
            last_is_newline || newlines < it.index() || it.index() == 0,
            last_is_newline == (it.index() > 0 && text@[it.index() - 1] == '\n'),
    {
        assert(text@.take(it.index() + 1).drop_last() =~= text@.take(it.index()));
        if c == '\n' {
            newlines = newlines + 1;
            last_is_newline = true;
        } else {
            last_is_newline = false;
        }
    }
    assert(text@.take(text@.len() as int) =~= text@);
    if byte_len == 0 {
        0
    } else if last_is_newline {
        newlines
    } else {
        newlines + 1
    }
}

/// Newlines of a concatenation are those of its parts.
pub proof fn lemma_count_newlines_concat(a: Seq<char>, b: Seq<char>)
    ensures
        count_newlines(a + b) == count_newlines(a) + count_newlines(b),
    decreases b.len(),
{
    if b.len() == 0 {
        assert(a + b =~= a);
    } else {
        lemma_count_newlines_concat(a, b.drop_last());
        assert((a + b).drop_last() =~= a + b.drop_last());
    }
}

/// A single character counts as a newline exactly when it is `'\n'`, and
/// no text has more newlines than characters.
pub proof fn lemma_count_newlines_basics(c: char, s: Seq<char>)
    ensures
        count_newlines(seq![c]) == (if c == '\n' { 1nat } else { 0nat }),
        count_newlines(s) <= s.len(),
    decreases s.len(),
{
    assert(seq![c].drop_last() =~= Seq::<char>::empty());
    assert(seq![c].last() == c);
    assert(count_newlines(Seq::<char>::empty()) == 0);
    if s.len() > 0 {
        lemma_count_newlines_basics(c, s.drop_last());
    }
}

/// The number of lines of a text: none for the empty text; otherwise one
/// per newline, plus one for a last line that does not end in a newline.
pub proof fn lemma_line_count_formula(s: Seq<char>)
    ensures
        s.len() == 0 ==> line_count_of(s) == 0,
        s.len() > 0 ==> line_count_of(s) == count_newlines(s) + (if s.last() == '\n' {
            0nat
        } else {
            1nat
        }),
{
}

/// Adding a line to a text that is empty or ends in a newline adds exactly
/// one line, whether or not the new line is terminated; adding an empty
/// unterminated piece adds none.
pub proof fn lemma_line_count_append_line(s: Seq<char>, line: Seq<char>)
    requires
        s.len() == 0 || s.last() == '\n',
        !line.contains('\n'),
    ensures
        line_count_of(s + line + seq!['\n']) == line_count_of(s) + 1,
        line_count_of(s + line) == line_count_of(s) + (if line.len() > 0 { 1nat } else { 0nat }),
{
    lemma_count_newlines_concat(s, line);
    lemma_count_newlines_concat(s + line, seq!['\n']);
    lemma_count_newlines_basics('\n', line);
    assert(count_newlines(line) == 0) by {
        lemma_no_newline_count(line);
    }
    if line.len() == 0 {
        assert(s + line =~= s);
    } else {
        assert((s + line).last() == line.last());
        assert(line.last() != '\n') by {
            assert(line[line.len() - 1] == line.last());
        }
    }
    assert((s + line + seq!['\n']).last() == '\n');
}

proof fn lemma_no_newline_count(line: Seq<char>)
    requires
        !line.contains('\n'),
    ensures
        count_newlines(line) == 0,
    decreases line.len(),
{
    if line.len() > 0 {
        let rest = line.drop_last();
        assert(!rest.contains('\n')) by {
            if rest.contains('\n') {
                let k = choose|k: int| 0 <= k < rest.len() && rest[k] == '\n';
                assert(line[k] == '\n');
            }
        }
        assert(line[line.len() - 1] == line.last());
        lemma_no_newline_count(rest);
    }
}

/// `10` to the power `k`.
pub open spec fn pow10(k: nat) -> nat
    decreases k,
{
    if k == 0 {
        1
    } else {
        10 * pow10((k - 1) as nat)
    }
}

/// `num_digits(n)` is the number of decimal digits: `n` is below
/// `10^num_digits(n)`, and at least `10^(num_digits(n) - 1)` when it has more
/// than one digit.
pub proof fn lemma_num_digits_range(n: nat)
    ensures
        n < pow10(num_digits(n)),
        num_digits(n) > 1 ==> pow10((num_digits(n) - 1) as nat) <= n,
    decreases n,
{
    assert(pow10(0) == 1);
    assert(pow10(1) == 10);
    if n >= 10 {
        lemma_num_digits_range(n / 10);
        lemma_num_digits_bounds(n / 10);
        let d = num_digits(n / 10);
        assert(pow10(d + 1) == 10 * pow10(d));
        assert(n < 10 * pow10(d)) by (nonlinear_arith)
            requires
                n / 10 < pow10(d),
                n >= 0,
        ;
        if d > 1 {
            assert(pow10(d) == 10 * pow10((d - 1) as nat));
            assert(10 * pow10((d - 1) as nat) <= n) by (nonlinear_arith)
                requires
                    pow10((d - 1) as nat) <= n / 10,
                    n >= 0,
            ;
        } else {
            assert(pow10(1) == 10) by {
                assert(pow10(0) == 1);
            }
        }
    }
}

/// The value of a decimal digit character.
pub open spec fn digit_value(c: char) -> int {
    c as int - '0' as int
}

proof fn lemma_digit_char_value(d: nat)
    requires
        d < 10,
    ensures
        digit_value(digit_char(d)) == d,
        '0' <= digit_char(d) <= '9',
{
    assert('0' as int == 48);
    if d == 0 { assert('0' as int == 48); }
    else if d == 1 { assert('1' as int == 49); }
    else if d == 2 { assert('2' as int == 50); }
    else if d == 3 { assert('3' as int == 51); }
    else if d == 4 { assert('4' as int == 52); }
    else if d == 5 { assert('5' as int == 53); }
    else if d == 6 { assert('6' as int == 54); }
    else if d == 7 { assert('7' as int == 55); }
    else if d == 8 { assert('8' as int == 56); }
    else { assert('9' as int == 57); }
}

/// The number a string of decimal digits stands for.
pub open spec fn digits_value(digits: Seq<char>) -> int
    decreases digits.len(),
{
    if digits.len() == 0 {
        0
    } else {
        digits_value(digits.drop_last()) * 10 + digit_value(digits.last())
    }
}

/// The decimal representation of `n` consists of digits only, starts with
/// a non-zero digit unless it is `0`, and reads back as `n`.
pub proof fn lemma_decimal_reads_back(n: nat)
    ensures
        forall|i: int| 0 <= i < decimal(n).len() ==> '0' <= #[trigger] decimal(n)[i] <= '9',
        n >= 10 ==> decimal(n)[0] != '0',
        digits_value(decimal(n)) == n,
    decreases n,
{
    if n < 10 {
        lemma_digit_char_value(n);
        assert(decimal(n).drop_last() =~= Seq::<char>::empty());
        assert(decimal(n).last() == digit_char(n));
        assert(digits_value(Seq::<char>::empty()) == 0);
    } else {
        lemma_digit_char_value(n % 10);
        let q = n / 10;
        lemma_decimal_reads_back(q);
        lemma_decimal_len(q);
        let d = decimal(n);
        assert(d.drop_last() =~= decimal(q));
        assert(d.last() == digit_char(n % 10));
        assert(q * 10 + n % 10 == n) by (nonlinear_arith)
            requires
                q == n / 10,
                n >= 0,
        ;
        assert forall|i: int| 0 <= i < d.len() implies '0' <= #[trigger] d[i] <= '9' by {
            if i < d.len() - 1 {
                assert(d[i] == decimal(q)[i]);
            }
        }
        if q >= 10 {
            assert(d[0] == decimal(q)[0]);
        } else {
            assert(d[0] == digit_char(q));
        }
    }
}

} // verus!
