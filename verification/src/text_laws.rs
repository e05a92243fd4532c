//! What the text primitives are for: how what they give relates to the text
//! that they are given.

use vstd::prelude::*;
use vstd::utf8::*;

use crate::text;

verus! {

// ---- searching ------------------------------------------------------------

/// A pattern is found wherever it stands, whatever is in front of it and
/// behind it.
pub proof fn law_found_wherever_it_stands(a: Seq<char>, pattern: Seq<char>, b: Seq<char>)
    ensures
        text::occurs_in(pattern, a + pattern + b),
{
    let s = a + pattern + b;
    let i = a.len() as int;
    assert(s.subrange(i, i + pattern.len()) =~= pattern);
}

/// A pattern that is found stands somewhere.
pub proof fn law_found_only_where_it_stands(pattern: Seq<char>, s: Seq<char>)
    requires
        text::occurs_in(pattern, s),
    ensures
        exists|a: Seq<char>, b: Seq<char>| s == #[trigger] (a + pattern + b),
{
    let i = choose|i: int|
        0 <= i <= s.len() - pattern.len() && #[trigger] s.subrange(i, i + pattern.len())
            == pattern;
    let a = s.take(i);
    let b = s.skip(i + pattern.len());
    assert(s =~= a + s.subrange(i, i + pattern.len()) + b);
    assert(s == a + pattern + b);
}

/// The search says whether the pattern stands somewhere in the text.
pub proof fn law_contains(s: &str, pattern: &str, found: bool)
    requires
        call_ensures(text::contains, (s, pattern), found),
    ensures
        found <==> exists|a: Seq<char>, b: Seq<char>| s@ == #[trigger] (a + pattern@ + b),
{
    if found {
        law_found_only_where_it_stands(pattern@, s@);
    }
    if exists|a: Seq<char>, b: Seq<char>| s@ == #[trigger] (a + pattern@ + b) {
        let (a, b) = choose|a: Seq<char>, b: Seq<char>| s@ == #[trigger] (a + pattern@ + b);
        law_found_wherever_it_stands(a, pattern@, b);
    }
}

// ---- trimming -------------------------------------------------------------

/// Whether every character of `s` is whitespace.
pub open spec fn is_blank(s: Seq<char>) -> bool {
    forall|i: int| 0 <= i < s.len() ==> text::is_whitespace(#[trigger] s[i])
}

proof fn lemma_trimmed_end(s: Seq<char>)
    ensures
        text::trimmed_end(s).len() <= s.len(),
        text::trimmed_end(s) == s.take(text::trimmed_end(s).len() as int),
        is_blank(s.skip(text::trimmed_end(s).len() as int)),
        text::trimmed_end(s).len() > 0 ==> !text::is_whitespace(text::trimmed_end(s).last()),
    decreases s.len(),
{
    let n = text::trimmed_end(s).len() as int;
    if s.len() > 0 && text::is_whitespace(s.last()) {
        let less = s.drop_last();
        lemma_trimmed_end(less);
        assert(less.take(n) =~= s.take(n));
        assert forall|i: int| 0 <= i < s.skip(n).len() implies text::is_whitespace(
            #[trigger] s.skip(n)[i],
        ) by {
            if i < less.skip(n).len() {
                assert(text::is_whitespace(less.skip(n)[i]));
            }
        }
    } else {
        assert(s.take(n) =~= s);
    }
}

proof fn lemma_trimmed_start(s: Seq<char>)
    ensures
        text::trimmed_start(s).len() <= s.len(),
        text::trimmed_start(s) == s.skip(s.len() - text::trimmed_start(s).len()),
        is_blank(s.take(s.len() - text::trimmed_start(s).len())),
        text::trimmed_start(s).len() > 0 ==> !text::is_whitespace(text::trimmed_start(s)[0]),
    decreases s.len(),
{
    let n = s.len() - text::trimmed_start(s).len();
    if s.len() > 0 && text::is_whitespace(s[0]) {
        let less = s.drop_first();
        lemma_trimmed_start(less);
        assert(less.skip(n - 1) =~= s.skip(n));
        assert forall|i: int| 0 <= i < s.take(n).len() implies text::is_whitespace(
            #[trigger] s.take(n)[i],
        ) by {
            if i > 0 {
                assert(text::is_whitespace(less.take(n - 1)[i - 1]));
            }
        }
    } else {
        assert(s.skip(n) =~= s);
    }
}

/// Whether `kept` does not begin or end with whitespace.
pub open spec fn is_tight(kept: Seq<char>) -> bool {
    kept.len() > 0 ==> !text::is_whitespace(kept[0]) && !text::is_whitespace(kept.last())
}

/// What trimming drops at the end is blank, and nothing blank is left there.
pub proof fn law_trimmed_end(s: Seq<char>)
    ensures
        exists|blank: Seq<char>| is_blank(blank) && s == #[trigger] (text::trimmed_end(s) + blank),
        text::trimmed_end(s).len() > 0 ==> !text::is_whitespace(text::trimmed_end(s).last()),
{
    lemma_trimmed_end(s);
    let n = text::trimmed_end(s).len() as int;
    assert(s =~= s.take(n) + s.skip(n));
    assert(s == text::trimmed_end(s) + s.skip(n));
}

/// What trimming drops is blank, and nothing blank is left at the ends.
pub proof fn law_trimmed(s: Seq<char>)
    ensures
        is_tight(text::trimmed(s)),
        exists|a: Seq<char>, b: Seq<char>|
            is_blank(a) && is_blank(b) && s == #[trigger] (a + text::trimmed(s) + b),
{
    let shorter = text::trimmed_end(s);
    lemma_trimmed_end(s);
    lemma_trimmed_start(shorter);
    let a = shorter.take(shorter.len() - text::trimmed(s).len());
    let b = s.skip(shorter.len() as int);
    assert(shorter =~= a + text::trimmed(s));
    assert(s =~= shorter + b);
    assert(s == a + text::trimmed(s) + b);
    if text::trimmed(s).len() > 0 {
        assert(text::trimmed(s).last() == shorter.last());
    }
}

/// Blanks around a tight text are what trimming drops, and all of it.
pub proof fn law_trimming_drops_blanks(a: Seq<char>, kept: Seq<char>, b: Seq<char>)
    requires
        is_blank(a),
        is_blank(b),
        is_tight(kept),
    ensures
        text::trimmed(a + kept + b) == kept,
{
    lemma_trim_blank_end(a + kept, b);
    if kept.len() > 0 {
        assert((a + kept).last() == kept.last());
        assert(text::trimmed_end(a + kept) == a + kept);
        lemma_trim_blank_start(a, kept);
        assert(text::trimmed_start(kept) == kept);
    } else {
        assert(a + kept =~= Seq::<char>::empty() + a);
        lemma_trim_blank_end(Seq::<char>::empty(), a);
        assert(kept =~= Seq::<char>::empty());
    }
}

proof fn lemma_trim_blank_end(s: Seq<char>, blank: Seq<char>)
    requires
        is_blank(blank),
    ensures
        text::trimmed_end(s + blank) == text::trimmed_end(s),
    decreases blank.len(),
{
    if blank.len() == 0 {
        assert(s + blank =~= s);
    } else {
        let less = blank.drop_last();
        assert forall|i: int| 0 <= i < less.len() implies text::is_whitespace(
            #[trigger] less[i],
        ) by {
            assert(less[i] == blank[i]);
        }
        lemma_trim_blank_end(s, less);
        assert((s + blank).drop_last() =~= s + less);
        assert((s + blank).last() == blank[blank.len() - 1]);
    }
}

proof fn lemma_trim_blank_start(blank: Seq<char>, s: Seq<char>)
    requires
        is_blank(blank),
    ensures
        text::trimmed_start(blank + s) == text::trimmed_start(s),
    decreases blank.len(),
{
    if blank.len() == 0 {
        assert(blank + s =~= s);
    } else {
        let less = blank.drop_first();
        assert forall|i: int| 0 <= i < less.len() implies text::is_whitespace(
            #[trigger] less[i],
        ) by {
            assert(less[i] == blank[i + 1]);
        }
        lemma_trim_blank_start(less, s);
        assert((blank + s).drop_first() =~= less + s);
        assert((blank + s)[0] == blank[0]);
    }
}

// ---- splitting ------------------------------------------------------------

/// A text without a separator is one field.
pub proof fn law_one_field(s: Seq<char>, sep: char)
    requires
        !s.contains(sep),
    ensures
        text::fields(s, sep) == seq![s],
    decreases s.len(),
{
    if s.len() == 0 {
        assert(s =~= Seq::<char>::empty());
        assert(text::fields(s, sep) =~= seq![s]);
    } else {
        let less = s.drop_last();
        assert forall|c: char| less.contains(c) implies s.contains(c) by {
            let i = choose|i: int| 0 <= i < less.len() && less[i] == c;
            assert(s[i] == c);
        }
        assert(s.contains(s.last()));
        law_one_field(less, sep);
        assert(less.push(s.last()) =~= s);
        assert(text::fields(s, sep) =~= seq![s]);
    }
}

/// A separator parts the fields in front of it from those behind it.
pub proof fn law_separator_parts_fields(a: Seq<char>, sep: char, b: Seq<char>)
    ensures
        text::fields(a + seq![sep] + b, sep) == text::fields(a, sep) + text::fields(b, sep),
    decreases b.len(),
{
    let s = a + seq![sep] + b;
    text::lemma_fields_nonempty(b, sep);
    if b.len() == 0 {
        assert(s.drop_last() =~= a);
        assert(text::fields(s, sep) =~= text::fields(a, sep) + text::fields(b, sep));
    } else {
        let less = b.drop_last();
        law_separator_parts_fields(a, sep, less);
        text::lemma_fields_nonempty(less, sep);
        assert(s.drop_last() =~= a + seq![sep] + less);
        assert(text::fields(s, sep) =~= text::fields(a, sep) + text::fields(b, sep));
    }
}

// ---- lines ----------------------------------------------------------------

/// The lines of an empty text are none; a text without a newline is one line.
pub proof fn law_one_line(s: Seq<char>)
    requires
        !s.contains('\n'),
    ensures
        text::lines_of(s) == (if s.len() == 0 {
            Seq::empty()
        } else {
            seq![s]
        }),
{
    law_one_field(s, '\n');
    assert(text::lines_of(s) =~= (if s.len() == 0 {
        Seq::empty()
    } else {
        seq![s]
    }));
}

proof fn lemma_line_in_front(line: Seq<char>, rest: Seq<char>)
    requires
        !line.contains('\n'),
    ensures
        text::lines_of(line + seq!['\n'] + rest) == seq![text::without_cr(line)] + text::lines_of(
            rest,
        ),
{
    let s = line + seq!['\n'] + rest;
    law_one_field(line, '\n');
    law_separator_parts_fields(line, '\n', rest);
    text::lemma_fields_nonempty(rest, '\n');
    let pieces = text::fields(s, '\n');
    let others = text::fields(rest, '\n');
    assert(pieces == seq![line] + others);
    assert(pieces.last() == others.last());
    assert(pieces.drop_last() =~= seq![line] + others.drop_last());
    assert(text::lines_of(s) =~= seq![text::without_cr(line)] + text::lines_of(rest));
}

/// A newline ends a line and is no part of it.
pub proof fn law_newline_ends_a_line(line: Seq<char>, rest: Seq<char>)
    requires
        !line.contains('\n'),
        line.len() == 0 || line.last() != '\r',
    ensures
        text::lines_of(line + seq!['\n'] + rest) == seq![line] + text::lines_of(rest),
{
    lemma_line_in_front(line, rest);
}

/// A carriage return in front of the newline belongs to the line ending; one
/// of them does.
pub proof fn law_carriage_return_before_newline(line: Seq<char>, rest: Seq<char>)
    requires
        !line.contains('\n'),
    ensures
        text::lines_of(line + seq!['\r', '\n'] + rest) == seq![line] + text::lines_of(rest),
{
    let longer = line.push('\r');
    assert forall|i: int| 0 <= i < longer.len() implies longer[i] != '\n' by {
        if i < line.len() {
            assert(line.contains(line[i]));
        }
    }
    lemma_line_in_front(longer, rest);
    assert(longer + seq!['\n'] + rest =~= line + seq!['\r', '\n'] + rest);
    assert(text::without_cr(longer) =~= line);
}

proof fn lemma_terminated_front(line: Seq<char>, rest: Seq<Seq<char>>)
    ensures
        text::terminated(seq![line] + rest) == line + seq!['\n'] + text::terminated(rest),
    decreases rest.len(),
{
    let all = seq![line] + rest;
    if rest.len() == 0 {
        assert(all.drop_last() =~= Seq::<Seq<char>>::empty());
        assert(text::terminated(all.drop_last()) =~= Seq::<char>::empty());
        assert(text::terminated(all) =~= line + seq!['\n'] + text::terminated(rest));
    } else {
        lemma_terminated_front(line, rest.drop_last());
        assert(all.drop_last() =~= seq![line] + rest.drop_last());
        assert(all.last() == rest.last());
        assert(text::terminated(all) =~= line + seq!['\n'] + text::terminated(rest));
    }
}

/// Whether every line is one line: without a newline in it and without a
/// carriage return at its end.
pub open spec fn are_lines(ls: Seq<Seq<char>>) -> bool {
    forall|i: int|
        0 <= i < ls.len() ==> !(#[trigger] ls[i]).contains('\n') && (ls[i].len() == 0
            || ls[i].last() != '\r')
}

/// Lines that are written one below the other read back as the same lines.
pub proof fn law_lines_read_back(ls: Seq<Seq<char>>)
    requires
        are_lines(ls),
    ensures
        text::lines_of(text::terminated(ls)) == ls,
    decreases ls.len(),
{
    if ls.len() == 0 {
        law_one_line(text::terminated(ls));
        assert(text::lines_of(text::terminated(ls)) =~= ls);
    } else {
        let rest = ls.drop_first();
        assert forall|i: int| 0 <= i < rest.len() implies !(#[trigger] rest[i]).contains('\n') && (
        rest[i].len() == 0 || rest[i].last() != '\r') by {
            assert(rest[i] == ls[i + 1]);
        }
        law_lines_read_back(rest);
        lemma_terminated_front(ls[0], rest);
        assert(ls =~= seq![ls[0]] + rest);
        assert(!ls[0].contains('\n'));
        law_newline_ends_a_line(ls[0], text::terminated(rest));
    }
}

// The fields of a text, written one below the other, are the text.
proof fn lemma_rejoined(s: Seq<char>)
    ensures
        text::terminated(text::fields(s, '\n').drop_last()) + text::fields(s, '\n').last() == s,
    decreases s.len(),
{
    if s.len() == 0 {
        assert(text::fields(s, '\n').drop_last() =~= Seq::<Seq<char>>::empty());
        assert(text::terminated(text::fields(s, '\n').drop_last()) + text::fields(
            s,
            '\n',
        ).last() =~= s);
    } else {
        let less = s.drop_last();
        let before = text::fields(less, '\n');
        lemma_rejoined(less);
        text::lemma_fields_nonempty(less, '\n');
        let all = text::fields(s, '\n');
        if s.last() == '\n' {
            assert(all.drop_last() =~= before);
        } else {
            assert(all.drop_last() =~= before.drop_last());
        }
        assert(text::terminated(all.drop_last()) + all.last() =~= less.push(s.last()));
        assert(less.push(s.last()) =~= s);
    }
}

// No field of a text holds a character that the text does not hold.
proof fn lemma_field_char(s: Seq<char>, k: int, j: int)
    requires
        0 <= k < text::fields(s, '\n').len(),
        0 <= j < text::fields(s, '\n')[k].len(),
    ensures
        s.contains(text::fields(s, '\n')[k][j]),
    decreases s.len(),
{
    if s.len() > 0 {
        let less = s.drop_last();
        let before = text::fields(less, '\n');
        let c = text::fields(s, '\n')[k][j];
        text::lemma_fields_nonempty(less, '\n');
        if s.last() != '\n' && k == before.len() - 1 && j == before[k].len() {
            assert(s[s.len() - 1] == c);
        } else {
            lemma_field_char(less, k, j);
            let i = choose|i: int| 0 <= i < less.len() && less[i] == c;
            assert(s[i] == c);
        }
    }
}

/// A text with no more than `max` lines and without carriage returns is kept
/// whole, but for the blanks at its end.
pub proof fn law_short_text_kept(s: Seq<char>, max: nat)
    requires
        !s.contains('\r'),
        text::lines_of(s).len() <= max,
    ensures
        text::clipped_lines(s, max) == text::trimmed_end(s),
{
    let pieces = text::fields(s, '\n');
    text::lemma_fields_nonempty(s, '\n');
    lemma_rejoined(s);
    assert forall|k: int| 0 <= k < pieces.len() implies text::without_cr(#[trigger] pieces[k])
        == pieces[k] by {
        if pieces[k].len() > 0 {
            lemma_field_char(s, k, pieces[k].len() - 1);
        }
    }
    let ended = pieces.drop_last();
    assert(ended.map_values(|line: Seq<char>| text::without_cr(line)) =~= ended);
    if pieces.last().len() == 0 {
        assert(text::terminated(ended) + pieces.last() =~= text::terminated(ended));
    } else {
        let all = ended.push(pieces.last());
        assert(all.drop_last() =~= ended);
        assert(text::terminated(all) =~= s + seq!['\n']);
        assert((s + seq!['\n']).drop_last() =~= s);
    }
}

/// What is kept of more than `max` lines is what is kept of the first `max`.
pub proof fn law_later_lines_dropped(ls: Seq<Seq<char>>, more: Seq<Seq<char>>)
    requires
        are_lines(ls),
        are_lines(more),
    ensures
        text::clipped_lines(text::terminated(ls + more), ls.len()) == text::clipped_lines(
            text::terminated(ls),
            ls.len(),
        ),
{
    let all = ls + more;
    assert forall|i: int| 0 <= i < all.len() implies !(#[trigger] all[i]).contains('\n') && (
    all[i].len() == 0 || all[i].last() != '\r') by {
        if i < ls.len() {
            assert(all[i] == ls[i]);
        } else {
            assert(all[i] == more[i - ls.len()]);
        }
    }
    law_lines_read_back(all);
    law_lines_read_back(ls);
    assert(text::at_most(all, ls.len()) =~= ls);
}

// ---- numbers --------------------------------------------------------------

/// A number is written in decimal digits that stand for it, without a zero in
/// front.
pub proof fn law_decimal(n: nat)
    ensures
        text::all_digits(text::decimal(n)),
        text::number_value(text::decimal(n)) == n,
        text::decimal(n).len() > 0,
        text::decimal(n).len() > 1 ==> text::decimal(n)[0] != '0',
    decreases n,
{
    text::lemma_decimal_value(n);
    if n >= 10 {
        law_decimal(n / 10);
        if n / 10 < 10 {
            assert(text::decimal(n)[0] == text::digit_char(n / 10));
        } else {
            assert(text::decimal(n / 10).len() > 1) by {
                assert(text::decimal(n / 10 / 10).len() > 0) by {
                    law_decimal(n / 10 / 10);
                }
            }
            assert(text::decimal(n)[0] == text::decimal(n / 10)[0]);
        }
    }
}

/// The decimal digits are the ten ASCII ones.
pub proof fn law_digits(c: char)
    ensures
        text::is_digit(c) <==> 48 <= c as u32 <= 57,
        text::is_digit(c) ==> text::digit_value(c) == c as u32 - 48,
{
}

/// The value of digits is found digit by digit: a further digit makes it ten
/// times as great and adds the digit.
pub proof fn law_number_value(s: Seq<char>, c: char)
    requires
        text::is_digit(c),
    ensures
        text::number_value(Seq::empty()) == 0,
        text::number_value(s.push(c)) == 10 * text::number_value(s) + (c as int - '0' as int),
{
    assert(s.push(c).drop_last() =~= s);
}

/// A number that is written has no other digits than those that stand for it.
pub proof fn law_decimal_text(n: u64, s: String)
    requires
        call_ensures(text::decimal_text, (n,), s),
    ensures
        text::all_digits(s@),
        text::number_value(s@) == n,
        s@.len() > 0,
        s@.len() > 1 ==> s@[0] != '0',
{
    law_decimal(n as nat);
}

/// Zeros in front change nothing of what digits stand for; there are no more of
/// them than the width asks for.
pub proof fn law_padded(n: nat, width: nat)
    ensures
        ({
            let s = text::zero_padded(text::decimal(n), width);
            &&& text::all_digits(s)
            &&& text::number_value(s) == n
            &&& s.len() > 0
            &&& s.len() >= width
            &&& s.len() > width && s.len() > 1 ==> s[0] != '0'
        }),
{
    law_decimal(n);
    if text::decimal(n).len() <= width {
        text::lemma_zero_padded(text::decimal(n), width);
    }
}

/// A number that is padded keeps its value and has at least the width; it has
/// no more than that unless it needs more digits.
pub proof fn law_padded_text(n: u64, width: usize, s: String)
    requires
        call_ensures(text::padded_text, (n, width), s),
    ensures
        text::all_digits(s@),
        text::number_value(s@) == n,
        s@.len() >= width,
        s@.len() > width && s@.len() > 1 ==> s@[0] != '0',
{
    law_padded(n as nat, width as nat);
}

// ---- taking the first -----------------------------------------------------

/// The first `n` of a sequence are a prefix of it, as long as it can be.
pub proof fn law_at_most<T>(s: Seq<T>, n: nat)
    ensures
        text::at_most(s, n).is_prefix_of(s),
        text::at_most(s, n).len() == (if s.len() < n {
            s.len()
        } else {
            n
        }),
{
}

// ---- the functions --------------------------------------------------------

/// Texts are the same if they have the same characters, one by one.
pub proof fn law_texts_compared(a: &str, b: &str, same: bool, chars: Vec<char>)
    requires
        call_ensures(text::same_text, (a, b), same),
        call_ensures(text::to_chars, (a,), chars),
    ensures
        same <==> a@.len() == b@.len() && forall|i: int| 0 <= i < a@.len() ==> a@[i] == b@[i],
        chars@.len() == a@.len(),
        forall|i: int| 0 <= i < a@.len() ==> chars@[i] == a@[i],
{
    if a@.len() == b@.len() && forall|i: int| 0 <= i < a@.len() ==> a@[i] == b@[i] {
        assert(a@ =~= b@);
    }
}

/// Whitespace is tab to carriage return, the space, the next-line control, and
/// the space, line and paragraph separators of Unicode.
pub proof fn law_whitespace(c: char, b: bool)
    requires
        call_ensures(text::char_is_whitespace, (c,), b),
    ensures
        b == text::is_whitespace(c),
        ({
            let n = c as u32;
            let control = 9 <= n <= 13 || n == 133;
            let space_separator = n == 32 || n == 160 || n == 5760 || 8192 <= n <= 8202 || n == 8239
                || n == 8287 || n == 12288;
            let line_or_paragraph_separator = n == 8232 || n == 8233;
            b <==> control || space_separator || line_or_paragraph_separator
        }),
{
}

/// Trimming drops the blanks at an end, all of them and nothing else.
pub proof fn law_trim(s: &str, front: &str, back: &str, both: &str)
    requires
        call_ensures(text::trim_start, (s,), front),
        call_ensures(text::trim_end, (s,), back),
        call_ensures(text::trim, (s,), both),
    ensures
        exists|a: Seq<char>| is_blank(a) && s@ == #[trigger] (a + front@),
        front@.len() > 0 ==> !text::is_whitespace(front@[0]),
        exists|b: Seq<char>| is_blank(b) && s@ == #[trigger] (back@ + b),
        back@.len() > 0 ==> !text::is_whitespace(back@.last()),
        exists|a: Seq<char>, b: Seq<char>|
            is_blank(a) && is_blank(b) && s@ == #[trigger] (a + both@ + b),
        is_tight(both@),
{
    lemma_trimmed_start(s@);
    let n = s@.len() - front@.len();
    assert(s@ =~= s@.take(n) + s@.skip(n));
    assert(s@ == s@.take(n) + front@);
    law_trimmed_end(s@);
    law_trimmed(s@);
}

/// The fields with the separator between them.
pub open spec fn joined(parts: Seq<Seq<char>>, sep: char) -> Seq<char>
    decreases parts.len(),
{
    if parts.len() == 0 {
        Seq::empty()
    } else if parts.len() == 1 {
        parts[0]
    } else {
        joined(parts.drop_last(), sep) + seq![sep] + parts.last()
    }
}

proof fn lemma_joined_push(parts: Seq<Seq<char>>, sep: char, c: char)
    requires
        parts.len() > 0,
    ensures
        joined(parts.drop_last().push(parts.last().push(c)), sep) == joined(parts, sep).push(c),
        joined(parts.push(Seq::empty()), sep) == joined(parts, sep).push(sep),
{
    let longer = parts.drop_last().push(parts.last().push(c));
    assert(longer.drop_last() =~= parts.drop_last());
    assert(joined(longer, sep) =~= joined(parts, sep).push(c));
    let more = parts.push(Seq::empty());
    assert(more.drop_last() =~= parts);
    assert(joined(more, sep) =~= joined(parts, sep).push(sep));
}

proof fn lemma_fields_joined(s: Seq<char>, sep: char)
    ensures
        joined(text::fields(s, sep), sep) == s,
        forall|k: int|
            0 <= k < text::fields(s, sep).len() ==> !(#[trigger] text::fields(s, sep)[k]).contains(
                sep,
            ),
    decreases s.len(),
{
    if s.len() == 0 {
        assert(joined(text::fields(s, sep), sep) =~= s);
    } else {
        let less = s.drop_last();
        let before = text::fields(less, sep);
        let all = text::fields(s, sep);
        lemma_fields_joined(less, sep);
        text::lemma_fields_nonempty(less, sep);
        lemma_joined_push(before, sep, s.last());
        assert(less.push(s.last()) =~= s);
        if s.last() == sep {
            assert(all =~= before.push(Seq::empty()));
        } else {
            assert(all =~= before.drop_last().push(before.last().push(s.last())));
        }
        assert forall|k: int| 0 <= k < all.len() implies !(#[trigger] all[k]).contains(sep) by {
            if k < before.len() {
                assert(!before[k].contains(sep));
                if all[k].contains(sep) {
                    let i = choose|i: int| 0 <= i < all[k].len() && all[k][i] == sep;
                    assert(before[k][i] == sep);
                }
            }
        }
    }
}

/// The fields of a text hold no separator, and with one between each two of
/// them they are the text.
pub proof fn law_split(s: &str, sep: char, out: Vec<String>)
    requires
        call_ensures(text::split, (s, sep), out),
    ensures
        out@.len() > 0,
        joined(out.deep_view(), sep) == s@,
        forall|k: int| 0 <= k < out@.len() ==> !(#[trigger] out@[k]@).contains(sep),
{
    lemma_fields_joined(s@, sep);
    text::lemma_fields_nonempty(s@, sep);
    assert(out.deep_view().len() == out@.len());
    assert forall|k: int| 0 <= k < out@.len() implies !(#[trigger] out@[k]@).contains(sep) by {
        assert(out.deep_view()[k] == out@[k]@);
    }
}

/// A text without a newline is one line unless it is empty; the lines of a text
/// that goes on behind a newline are the one in front of it and the lines of
/// what goes on.
pub proof fn law_lines(
    line: Seq<char>,
    s: &str,
    out: Vec<String>,
    rest: &str,
    others: Vec<String>,
)
    requires
        !line.contains('\n'),
        call_ensures(text::lines, (s,), out),
        call_ensures(text::lines, (rest,), others),
    ensures
        s@ == line && line.len() == 0 ==> out@.len() == 0,
        s@ == line && line.len() > 0 ==> out.deep_view() == seq![line],
        s@ == line + seq!['\n'] + rest@ && (line.len() == 0 || line.last() != '\r')
            ==> out.deep_view() == seq![line] + others.deep_view(),
        s@ == line + seq!['\r', '\n'] + rest@ ==> out.deep_view() == seq![line]
            + others.deep_view(),
{
    assert(out.deep_view().len() == out@.len());
    if s@ == line {
        law_one_line(line);
    }
    if line.len() == 0 || line.last() != '\r' {
        law_newline_ends_a_line(line, rest@);
    }
    law_carriage_return_before_newline(line, rest@);
}

/// What is kept of a text is its first lines, as many as there may be, each
/// ended by a newline, without the blanks at the end.
pub proof fn law_clip_lines(s: &str, max: usize, all: Vec<String>, out: String)
    requires
        call_ensures(text::lines, (s,), all),
        call_ensures(text::clip_lines, (s, max), out),
    ensures
        exists|kept: Seq<Seq<char>>|
            {
                &&& kept.is_prefix_of(all.deep_view())
                &&& kept.len() == (if all@.len() < max {
                    all@.len() as int
                } else {
                    max as int
                })
                &&& out@ == text::trimmed_end(#[trigger] text::terminated(kept))
            },
{
    assert(all.deep_view().len() == all@.len());
    law_at_most(text::lines_of(s@), max as nat);
    let kept = text::at_most(text::lines_of(s@), max as nat);
    assert(out@ == text::trimmed_end(text::terminated(kept)));
}

/// Lines that are written one below the other each end in one newline.
pub proof fn law_terminated(ls: Seq<Seq<char>>, line: Seq<char>)
    ensures
        text::terminated(Seq::empty()) == Seq::<char>::empty(),
        text::terminated(ls.push(line)) == text::terminated(ls) + line + seq!['\n'],
{
    assert(ls.push(line).drop_last() =~= ls);
    assert(text::terminated(ls.push(line)) =~= text::terminated(ls) + line + seq!['\n']);
}

/// A character takes one byte below 128, two below 2048, three below 65536 and
/// four above.
pub proof fn law_encoded_width(c: char, n: usize)
    requires
        call_ensures(text::encoded_width, (c,), n),
    ensures
        n == (if (c as u32) < 128 {
            1int
        } else if (c as u32) < 2048 {
            2
        } else if (c as u32) < 65_536 {
            3
        } else {
            4
        }),
{
}

/// What is kept of a text is a head of it that fits into the bytes, and the
/// longest one; whether that is all of it is said.
pub proof fn law_clip_bytes(s: &str, max: usize, r: (&str, bool))
    requires
        call_ensures(text::clip_bytes, (s, max), r),
    ensures
        r.0@.is_prefix_of(s@),
        encode_utf8(r.0@).len() <= max,
        r.1 <==> r.0@ == s@,
        r.0@ != s@ ==> encode_utf8(s@.take(r.0@.len() as int + 1)).len() > max,
{
    lemma_clipped(s@, max as nat);
}

proof fn lemma_clipped(s: Seq<char>, max: nat)
    ensures
        ({
            let kept = text::clipped_bytes(s, max);
            &&& kept.is_prefix_of(s)
            &&& encode_utf8(kept).len() <= max
            &&& kept == s <==> encode_utf8(s).len() <= max
            &&& kept != s ==> encode_utf8(s.take(kept.len() as int + 1)).len() > max
        }),
    decreases s.len(),
{
    if s.len() == 0 {
        assert(encode_utf8(s).len() == 0);
    } else if encode_utf8(s).len() > max {
        let less = s.drop_last();
        let kept = text::clipped_bytes(less, max);
        lemma_clipped(less, max);
        assert(kept.len() < s.len());
        if kept == less {
            assert(s.take(kept.len() as int + 1) =~= s);
        } else {
            assert(kept.len() < less.len()) by {
                if kept.len() == less.len() {
                    assert(kept =~= less);
                }
            }
            assert(s.take(kept.len() as int + 1) =~= less.take(kept.len() as int + 1));
        }
    }
}

} // verus!
