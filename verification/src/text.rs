//! Text primitives shared by the whole crate.
//!
//! Text is modelled as `Seq<char>`, the view of `str` and `String`. The spec
//! functions here say what trimming, splitting, line clipping, substring
//! search and decimal rendering mean; the executable functions next to them
//! compute exactly that.

use vstd::prelude::*;
use vstd::string::*;
use vstd::utf8::*;

verus! {

// ---- comparison -----------------------------------------------------------

/// Whether two strings hold the same characters.
pub fn same_text(a: &str, b: &str) -> (same: bool)
    ensures
        same == (a@ == b@),
{
    let x: &[u8] = a.as_bytes();
    let y: &[u8] = b.as_bytes();
    proof {
        encode_utf8_decode_utf8(a@);
        encode_utf8_decode_utf8(b@);
    }
    if x.len() != y.len() {
        return false;
    }
    let mut i: usize = 0;
    while i < x.len()
        invariant
            i <= x@.len(),
            x@.len() == y@.len(),
            x@ == encode_utf8(a@),
            y@ == encode_utf8(b@),
            forall|j: int| 0 <= j < i ==> x@[j] == y@[j],
        decreases x@.len() - i,
    {
        if x[i] != y[i] {
            return false;
        }
        i = i + 1;
    }
    assert(x@ =~= y@);
    true
}

/// Whether `key` is one of the strings in `list`.
pub fn listed(list: &[&'static str], key: &str) -> (found: bool)
    ensures
        found == exists|i: int| 0 <= i < list@.len() && #[trigger] list@[i]@ == key@,
{
    let mut i: usize = 0;
    while i < list.len()
        invariant
            i <= list@.len(),
            forall|j: int| 0 <= j < i ==> #[trigger] list@[j]@ != key@,
        decreases list@.len() - i,
    {
        if same_text(list[i], key) {
            return true;
        }
        i = i + 1;
    }
    false
}

/// The characters of `s`, in order.
pub fn to_chars(s: &str) -> (v: Vec<char>)
    ensures
        v@ == s@,
{
    let mut v: Vec<char> = Vec::new();
    for c in it: s.chars()
        invariant
            v@ == it.seq().take(it.index() as int),
            it.seq() == s@,
    {
        v.push(c);
    }
    v
}

// ---- whitespace and trimming ----------------------------------------------

/// The Unicode `White_Space` property.
pub open spec fn is_whitespace(c: char) -> bool {
    ||| '\u{9}' <= c <= '\u{d}'
    ||| c == '\u{20}'
    ||| c == '\u{85}'
    ||| c == '\u{a0}'
    ||| c == '\u{1680}'
    ||| '\u{2000}' <= c <= '\u{200a}'
    ||| c == '\u{2028}'
    ||| c == '\u{2029}'
    ||| c == '\u{202f}'
    ||| c == '\u{205f}'
    ||| c == '\u{3000}'
}

/// Tests a character for the Unicode `White_Space` property.
pub fn char_is_whitespace(c: char) -> (b: bool)
    ensures
        b == is_whitespace(c),
{
    ('\u{9}' <= c && c <= '\u{d}') || c == '\u{20}' || c == '\u{85}' || c == '\u{a0}' || c
        == '\u{1680}' || ('\u{2000}' <= c && c <= '\u{200a}') || c == '\u{2028}' || c == '\u{2029}'
        || c == '\u{202f}' || c == '\u{205f}' || c == '\u{3000}'
}

/// `s` without its trailing whitespace.
pub open spec fn trimmed_end(s: Seq<char>) -> Seq<char>
    decreases s.len(),
{
    if s.len() > 0 && is_whitespace(s.last()) {
        trimmed_end(s.drop_last())
    } else {
        s
    }
}

/// `s` without its leading whitespace.
pub open spec fn trimmed_start(s: Seq<char>) -> Seq<char>
    decreases s.len(),
{
    if s.len() > 0 && is_whitespace(s[0]) {
        trimmed_start(s.drop_first())
    } else {
        s
    }
}

/// `s` without its leading and trailing whitespace.
pub open spec fn trimmed(s: Seq<char>) -> Seq<char> {
    trimmed_start(trimmed_end(s))
}

/// Drops trailing whitespace.
pub fn trim_end(s: &str) -> (r: &str)
    ensures
        r@ == trimmed_end(s@),
{
    let chars: Vec<char> = to_chars(s);
    let mut end: usize = chars.len();
    assert(s@.take(end as int) =~= s@);
    while end > 0 && char_is_whitespace(chars[end - 1])
        invariant
            end <= chars@.len(),
            chars@ == s@,
            trimmed_end(s@) == trimmed_end(s@.take(end as int)),
        decreases end,
    {
        assert(s@.take(end as int).drop_last() =~= s@.take(end - 1));
        end = end - 1;
    }
    assert(s@.subrange(0, end as int) =~= s@.take(end as int));
    s.substring_char(0, end)
}

/// Drops leading whitespace.
pub fn trim_start(s: &str) -> (r: &str)
    ensures
        r@ == trimmed_start(s@),
{
    let chars: Vec<char> = to_chars(s);
    let mut start: usize = 0;
    assert(s@.skip(0) =~= s@);
    while start < chars.len() && char_is_whitespace(chars[start])
        invariant
            start <= chars@.len(),
            chars@ == s@,
            trimmed_start(s@) == trimmed_start(s@.skip(start as int)),
        decreases chars@.len() - start,
    {
        assert(s@.skip(start as int).drop_first() =~= s@.skip(start + 1));
        start = start + 1;
    }
    assert(s@.subrange(start as int, s@.len() as int) =~= s@.skip(start as int));
    s.substring_char(start, chars.len())
}

/// Drops leading and trailing whitespace.
pub fn trim(s: &str) -> (r: &str)
    ensures
        r@ == trimmed(s@),
{
    trim_start(trim_end(s))
}

// ---- splitting ------------------------------------------------------------

/// The fields of `s` between occurrences of `sep`. There is always at least
/// one, and one more than there are separators.
pub open spec fn fields(s: Seq<char>, sep: char) -> Seq<Seq<char>>
    decreases s.len(),
{
    if s.len() == 0 {
        seq![Seq::<char>::empty()]
    } else {
        let before = fields(s.drop_last(), sep);
        if s.last() == sep {
            before.push(Seq::<char>::empty())
        } else {
            before.drop_last().push(before.last().push(s.last()))
        }
    }
}

/// There is at least one field.
pub proof fn lemma_fields_nonempty(s: Seq<char>, sep: char)
    ensures
        fields(s, sep).len() >= 1,
    decreases s.len(),
{
    if s.len() > 0 {
        lemma_fields_nonempty(s.drop_last(), sep);
    }
}

/// Splits `s` at every occurrence of `sep`.
pub fn split(s: &str, sep: char) -> (out: Vec<String>)
    ensures
        out.deep_view() == fields(s@, sep),
{
    let chars: Vec<char> = to_chars(s);
    let mut out: Vec<String> = Vec::new();
    let mut start: usize = 0;
    let mut i: usize = 0;
    proof {
        assert(s@.take(0) =~= Seq::<char>::empty());
        assert(s@.subrange(0, 0) =~= Seq::<char>::empty());
        assert(out.deep_view() =~= fields(s@.take(0), sep).drop_last());
    }
    while i < chars.len()
        invariant
            chars@ == s@,
            start <= i <= chars@.len(),
            fields(s@.take(i as int), sep).len() >= 1,
            out.deep_view() == fields(s@.take(i as int), sep).drop_last(),
            s@.subrange(start as int, i as int) == fields(s@.take(i as int), sep).last(),
        decreases chars@.len() - i,
    {
        proof {
            assert(s@.take(i + 1).drop_last() =~= s@.take(i as int));
            assert(s@.take(i + 1).last() == s@[i as int]);
        }
        let ghost before = fields(s@.take(i as int), sep);
        let ghost prev = out.deep_view();
        if chars[i] == sep {
            let field: String = s.substring_char(start, i).to_owned();
            out.push(field);
            start = i + 1;
            proof {
                assert(out.deep_view() =~= prev.push(field@));
                assert(prev.push(field@) =~= before);
                assert(before.push(Seq::<char>::empty()).drop_last() =~= before);
                assert(s@.subrange(start as int, i + 1) =~= Seq::<char>::empty());
            }
        } else {
            proof {
                assert(s@.subrange(start as int, i + 1) =~= before.last().push(s@[i as int]));
                assert(before.drop_last().push(before.last().push(s@[i as int])).drop_last()
                    =~= before.drop_last());
            }
        }
        i = i + 1;
    }
    let ghost prev = out.deep_view();
    let field: String = s.substring_char(start, i).to_owned();
    out.push(field);
    proof {
        assert(s@.take(i as int) =~= s@);
        assert(out.deep_view() =~= prev.push(field@));
        assert(out.deep_view() =~= fields(s@, sep));
    }
    out
}

// ---- lines ----------------------------------------------------------------

/// `line` without one trailing carriage return.
pub open spec fn without_cr(line: Seq<char>) -> Seq<char> {
    if line.len() > 0 && line.last() == '\r' {
        line.drop_last()
    } else {
        line
    }
}

/// The lines of `s`. A line ends in `\n` or `\r\n`, which is not part of it;
/// the ending of the last line is optional, and a `\r` that no `\n` follows
/// belongs to its line.
pub open spec fn lines_of(s: Seq<char>) -> Seq<Seq<char>> {
    let pieces = fields(s, '\n');
    let ended = pieces.drop_last().map_values(|line: Seq<char>| without_cr(line));
    if pieces.last().len() == 0 {
        ended
    } else {
        ended.push(pieces.last())
    }
}

/// Splits `s` into its lines.
pub fn lines(s: &str) -> (out: Vec<String>)
    ensures
        out.deep_view() == lines_of(s@),
{
    let pieces: Vec<String> = split(s, '\n');
    let ghost model = fields(s@, '\n');
    proof {
        lemma_fields_nonempty(s@, '\n');
        assert(pieces.deep_view().len() == pieces@.len());
    }
    let last: usize = pieces.len() - 1;
    let mut out: Vec<String> = Vec::new();
    let ghost ended = model.drop_last().map_values(|line: Seq<char>| without_cr(line));
    let mut i: usize = 0;
    assert(out.deep_view() =~= ended.take(0));
    while i < last
        invariant
            i <= last,
            last == pieces@.len() - 1,
            pieces.deep_view() == model,
            ended == model.drop_last().map_values(|line: Seq<char>| without_cr(line)),
            out.deep_view() == ended.take(i as int),
        decreases last - i,
    {
        let ghost prev = out.deep_view();
        let piece: &str = pieces[i].as_str();
        assert(piece@ == model[i as int]);
        let n: usize = piece.unicode_len();
        let line: String = if n > 0 && piece.get_char(n - 1) == '\r' {
            assert(piece@.subrange(0, n - 1) =~= piece@.drop_last());
            piece.substring_char(0, n - 1).to_owned()
        } else {
            piece.to_owned()
        };
        assert(line@ == ended[i as int]);
        out.push(line);
        assert(out.deep_view() =~= prev.push(line@));
        assert(ended.take(i + 1) =~= ended.take(i as int).push(ended[i as int]));
        i = i + 1;
    }
    assert(ended.take(last as int) =~= ended);
    let tail: &str = pieces[last].as_str();
    assert(tail@ == model.last());
    if !tail.is_empty() {
        let ghost prev = out.deep_view();
        let line: String = tail.to_owned();
        out.push(line);
        assert(out.deep_view() =~= prev.push(line@));
    }
    out
}

/// Every line of `ls` followed by `\n`.
pub open spec fn terminated(ls: Seq<Seq<char>>) -> Seq<char>
    decreases ls.len(),
{
    if ls.len() == 0 {
        Seq::empty()
    } else {
        terminated(ls.drop_last()) + ls.last() + seq!['\n']
    }
}

/// The first `n` of `ls`, or all of them if there are fewer.
pub open spec fn at_most<T>(ls: Seq<T>, n: nat) -> Seq<T> {
    if ls.len() <= n {
        ls
    } else {
        ls.take(n as int)
    }
}

/// The first `max_lines` lines of `text`, each ended by `\n`, without the
/// whitespace at the end.
pub open spec fn clipped_lines(text: Seq<char>, max_lines: nat) -> Seq<char> {
    trimmed_end(terminated(at_most(lines_of(text), max_lines)))
}

/// Keeps at most `max_lines` lines of `text` and drops trailing whitespace.
pub fn clip_lines(text: &str, max_lines: usize) -> (out: String)
    ensures
        out@ == clipped_lines(text@, max_lines as nat),
{
    let all: Vec<String> = lines(text);
    let ghost model = lines_of(text@);
    assert(all.deep_view().len() == all@.len());
    let kept: usize = if all.len() <= max_lines {
        all.len()
    } else {
        max_lines
    };
    let mut out: String = String::new();
    let mut i: usize = 0;
    assert(model.take(0) =~= Seq::<Seq<char>>::empty());
    while i < kept
        invariant
            i <= kept <= all@.len(),
            all.deep_view() == model,
            out@ == terminated(model.take(i as int)),
        decreases kept - i,
    {
        proof {
            reveal_strlit("\n");
            assert("\n"@ =~= seq!['\n']);
            assert(model.take(i + 1).drop_last() =~= model.take(i as int));
        }
        assert(all@[i as int]@ == model[i as int]);
        out.append(all[i].as_str());
        out.append("\n");
        i = i + 1;
    }
    assert(at_most(model, max_lines as nat) =~= model.take(kept as int));
    trim_end(out.as_str()).to_owned()
}

// ---- substring search -----------------------------------------------------

/// Whether `pattern` occurs somewhere in `s`.
pub open spec fn occurs_in(pattern: Seq<char>, s: Seq<char>) -> bool {
    exists|i: int|
        0 <= i <= s.len() - pattern.len() && #[trigger] s.subrange(i, i + pattern.len()) == pattern
}

/// Searches `s` for `pattern`.
pub fn contains(s: &str, pattern: &str) -> (found: bool)
    ensures
        found == occurs_in(pattern@, s@),
{
    let hay: Vec<char> = to_chars(s);
    let needle: Vec<char> = to_chars(pattern);
    if needle.len() > hay.len() {
        return false;
    }
    let last: usize = hay.len() - needle.len();
    let mut i: usize = 0;
    loop
        invariant
            hay@ == s@,
            needle@ == pattern@,
            needle@.len() <= hay@.len(),
            last == hay@.len() - needle@.len(),
            last + needle@.len() <= usize::MAX,
            i <= last,
            forall|k: int|
                0 <= k < i ==> #[trigger] s@.subrange(k, k + pattern@.len()) != pattern@,
        decreases last - i,
    {
        let mut j: usize = 0;
        while j < needle.len() && hay[i + j] == needle[j]
            invariant
                hay@ == s@,
                needle@ == pattern@,
                last == hay@.len() - needle@.len(),
                last + needle@.len() <= usize::MAX,
                i <= last,
                j <= needle@.len(),
                forall|k: int| 0 <= k < j ==> hay@[i + k] == #[trigger] needle@[k],
            decreases needle@.len() - j,
        {
            j = j + 1;
        }
        if j == needle.len() {
            assert(s@.subrange(i as int, i + pattern@.len()) =~= pattern@);
            return true;
        }
        assert(s@.subrange(i as int, i + pattern@.len())[j as int] != pattern@[j as int]);
        if i == last {
            return false;
        }
        i = i + 1;
    }
}

// ---- decimal rendering ----------------------------------------------------

/// The character of a decimal digit.
pub open spec fn digit_char(n: nat) -> char {
    if n == 0 {
        '0'
    } else if n == 1 {
        '1'
    } else if n == 2 {
        '2'
    } else if n == 3 {
        '3'
    } else if n == 4 {
        '4'
    } else if n == 5 {
        '5'
    } else if n == 6 {
        '6'
    } else if n == 7 {
        '7'
    } else if n == 8 {
        '8'
    } else {
        '9'
    }
}

/// The decimal digits of `n`, without leading zeros.
pub open spec fn decimal(n: nat) -> Seq<char>
    decreases n,
{
    if n < 10 {
        seq![digit_char(n)]
    } else {
        decimal(n / 10).push(digit_char(n % 10))
    }
}

/// `digits` with zeros in front, up to `width` characters.
pub open spec fn zero_padded(digits: Seq<char>, width: nat) -> Seq<char>
    decreases width - digits.len(),
{
    if digits.len() >= width {
        digits
    } else {
        zero_padded(seq!['0'] + digits, width)
    }
}

fn digit_text(n: u64) -> (s: &'static str)
    requires
        n < 10,
    ensures
        s@ == seq![digit_char(n as nat)],
{
    proof {
        reveal_strlit("0");
        reveal_strlit("1");
        reveal_strlit("2");
        reveal_strlit("3");
        reveal_strlit("4");
        reveal_strlit("5");
        reveal_strlit("6");
        reveal_strlit("7");
        reveal_strlit("8");
        reveal_strlit("9");
    }
    let s: &'static str = if n == 0 {
        "0"
    } else if n == 1 {
        "1"
    } else if n == 2 {
        "2"
    } else if n == 3 {
        "3"
    } else if n == 4 {
        "4"
    } else if n == 5 {
        "5"
    } else if n == 6 {
        "6"
    } else if n == 7 {
        "7"
    } else if n == 8 {
        "8"
    } else {
        "9"
    };
    assert(s@ =~= seq![digit_char(n as nat)]);
    s
}

/// Renders `n` in decimal.
pub fn decimal_text(n: u64) -> (s: String)
    ensures
        s@ == decimal(n as nat),
    decreases n,
{
    if n < 10 {
        digit_text(n).to_owned()
    } else {
        let head: String = decimal_text(n / 10);
        let ghost front = head@;
        let s: String = head.concat(digit_text(n % 10));
        assert(s@ =~= front.push(digit_char((n % 10) as nat)));
        s
    }
}

/// Renders `n` in decimal, padded with zeros to at least `width` characters.
pub fn padded_text(n: u64, width: usize) -> (s: String)
    ensures
        s@ == zero_padded(decimal(n as nat), width as nat),
{
    let mut s: String = decimal_text(n);
    let mut len: usize = s.as_str().unicode_len();
    while len < width
        invariant
            len == s@.len(),
            zero_padded(s@, width as nat) == zero_padded(decimal(n as nat), width as nat),
        decreases width - len,
    {
        proof {
            reveal_strlit("0");
            assert("0"@ =~= seq!['0']);
        }
        let ghost tail = s@;
        s = "0".to_owned().concat(s.as_str());
        assert(s@ =~= seq!['0'] + tail);
        len = len + 1;
    }
    s
}

// ---- reading decimal digits -----------------------------------------------

/// Whether `c` is a decimal digit.
pub open spec fn is_digit(c: char) -> bool {
    '0' <= c <= '9'
}

/// Whether every character of `s` is a decimal digit.
pub open spec fn all_digits(s: Seq<char>) -> bool {
    forall|i: int| 0 <= i < s.len() ==> is_digit(#[trigger] s[i])
}

/// The value of a decimal digit.
pub open spec fn digit_value(c: char) -> nat {
    (c as int - '0' as int) as nat
}

/// The number that decimal digits stand for; leading zeros count nothing.
pub open spec fn number_value(s: Seq<char>) -> nat
    decreases s.len(),
{
    if s.len() == 0 {
        0
    } else {
        10 * number_value(s.drop_last()) + digit_value(s.last())
    }
}

/// The digits of a number stand for it.
pub proof fn lemma_decimal_value(n: nat)
    ensures
        all_digits(decimal(n)),
        number_value(decimal(n)) == n,
    decreases n,
{
    if n < 10 {
        assert(decimal(n).drop_last() =~= Seq::<char>::empty());
        assert(number_value(decimal(n).drop_last()) == 0);
    } else {
        lemma_decimal_value(n / 10);
        assert(decimal(n).drop_last() =~= decimal(n / 10));
    }
}

/// A zero in front of digits changes nothing of their value.
proof fn lemma_leading_zero(s: Seq<char>)
    ensures
        number_value(seq!['0'] + s) == number_value(s),
    decreases s.len(),
{
    let longer = seq!['0'] + s;
    if s.len() == 0 {
        assert(longer.drop_last() =~= Seq::<char>::empty());
        assert(number_value(longer.drop_last()) == 0);
    } else {
        lemma_leading_zero(s.drop_last());
        assert(longer.drop_last() =~= seq!['0'] + s.drop_last());
    }
}

/// Zeros in front fill digits up to the width and change nothing of their
/// value.
pub proof fn lemma_zero_padded(digits: Seq<char>, width: nat)
    requires
        all_digits(digits),
        digits.len() <= width,
    ensures
        zero_padded(digits, width).len() == width,
        all_digits(zero_padded(digits, width)),
        number_value(zero_padded(digits, width)) == number_value(digits),
    decreases width - digits.len(),
{
    if digits.len() < width {
        lemma_leading_zero(digits);
        lemma_zero_padded(seq!['0'] + digits, width);
    }
}

// ---- order ----------------------------------------------------------------

/// Whether `a` and `b` agree before `i`, and there `a` ends before `b` or has
/// the smaller character.
pub open spec fn smaller_at(a: Seq<char>, b: Seq<char>, i: int) -> bool {
    &&& 0 <= i <= a.len()
    &&& i < b.len()
    &&& forall|j: int| 0 <= j < i ==> a[j] == b[j]
    &&& i == a.len() || a[i] < b[i]
}

/// Whether `a` sorts before `b`: it is smaller at the first place where the
/// two differ.
pub open spec fn sorts_before(a: Seq<char>, b: Seq<char>) -> bool {
    exists|i: int| smaller_at(a, b, i)
}

/// Behind fronts of one length, the rest decides only where the fronts agree.
pub proof fn lemma_sorts_by_parts(a1: Seq<char>, b1: Seq<char>, a2: Seq<char>, b2: Seq<char>)
    requires
        a1.len() == a2.len(),
    ensures
        sorts_before(a1 + b1, a2 + b2) <==> sorts_before(a1, a2) || (a1 == a2 && sorts_before(
            b1,
            b2,
        )),
        a1 + b1 == a2 + b2 <==> a1 == a2 && b1 == b2,
{
    let n = a1.len() as int;
    let s1 = a1 + b1;
    let s2 = a2 + b2;
    if sorts_before(s1, s2) {
        let i = choose|i: int| smaller_at(s1, s2, i);
        if i < n {
            assert forall|j: int| 0 <= j < i implies a1[j] == a2[j] by {
                assert(s1[j] == s2[j]);
            }
            assert(smaller_at(a1, a2, i));
        } else {
            assert forall|j: int| 0 <= j < n implies a1[j] == a2[j] by {
                assert(s1[j] == s2[j]);
            }
            assert(a1 =~= a2);
            assert forall|j: int| 0 <= j < i - n implies b1[j] == b2[j] by {
                assert(s1[n + j] == s2[n + j]);
            }
            assert(smaller_at(b1, b2, i - n));
        }
    }
    if sorts_before(a1, a2) {
        let i = choose|i: int| smaller_at(a1, a2, i);
        assert(smaller_at(s1, s2, i));
    }
    if a1 == a2 && sorts_before(b1, b2) {
        let i = choose|i: int| smaller_at(b1, b2, i);
        assert(smaller_at(s1, s2, n + i));
    }
    if s1 == s2 {
        assert(a1 =~= s1.take(n) && a2 =~= s2.take(n));
        assert(b1 =~= s1.skip(n) && b2 =~= s2.skip(n));
    }
}

/// Nothing sorts before itself.
pub proof fn lemma_sorts_strictly(a: Seq<char>)
    ensures
        !sorts_before(a, a),
{
}

/// Digits of one length sort as the numbers that they stand for.
pub proof fn lemma_digits_sort(a: Seq<char>, b: Seq<char>)
    requires
        a.len() == b.len(),
        all_digits(a),
        all_digits(b),
    ensures
        sorts_before(a, b) <==> number_value(a) < number_value(b),
        a == b <==> number_value(a) == number_value(b),
    decreases a.len(),
{
    if a.len() == 0 {
        assert(a =~= b);
        lemma_sorts_strictly(a);
    } else {
        let last_a = seq![a.last()];
        let last_b = seq![b.last()];
        lemma_digits_sort(a.drop_last(), b.drop_last());
        lemma_sorts_by_parts(a.drop_last(), last_a, b.drop_last(), last_b);
        assert(a.drop_last() + last_a =~= a);
        assert(b.drop_last() + last_b =~= b);
        assert(is_digit(a[a.len() - 1]) && is_digit(b[b.len() - 1]));
        if a.last() < b.last() {
            assert(smaller_at(last_a, last_b, 0));
        }
        if sorts_before(last_a, last_b) {
            let i = choose|i: int| smaller_at(last_a, last_b, i);
            assert(i == 0 && last_a[0] < last_b[0]);
        }
        if last_a == last_b {
            assert(last_a[0] == last_b[0]);
        }
        if a.last() == b.last() {
            assert(last_a =~= last_b);
        }
    }
}

// ---- clipping by encoded length -------------------------------------------

/// The longest prefix of `s` whose UTF-8 encoding has at most `max` bytes.
pub open spec fn clipped_bytes(s: Seq<char>, max: nat) -> Seq<char>
    decreases s.len(),
{
    if s.len() == 0 || encode_utf8(s).len() <= max {
        s
    } else {
        clipped_bytes(s.drop_last(), max)
    }
}

/// Appending a character appends its encoding.
pub proof fn lemma_encode_push(s: Seq<char>, c: char)
    ensures
        encode_utf8(s.push(c)) == encode_utf8(s) + encode_scalar(c as u32),
    decreases s.len(),
{
    reveal_with_fuel(encode_utf8, 2);
    if s.len() == 0 {
        assert(s.push(c).drop_first() =~= Seq::<char>::empty());
        assert(encode_utf8(s.push(c)) =~= encode_utf8(s) + encode_scalar(c as u32));
    } else {
        lemma_encode_push(s.drop_first(), c);
        assert(s.push(c).drop_first() =~= s.drop_first().push(c));
        assert(encode_utf8(s.push(c)) =~= encode_utf8(s) + encode_scalar(c as u32));
    }
}

/// Every character takes at least one byte.
pub proof fn lemma_encode_grows(s: Seq<char>)
    ensures
        s.len() <= encode_utf8(s).len(),
    decreases s.len(),
{
    if s.len() > 0 {
        lemma_encode_grows(s.drop_first());
    }
}

/// A longer prefix does not encode to fewer bytes.
pub proof fn lemma_encode_prefix(s: Seq<char>, i: int, j: int)
    requires
        0 <= i <= j <= s.len(),
    ensures
        encode_utf8(s.take(i)).len() <= encode_utf8(s.take(j)).len(),
    decreases j - i,
{
    if i < j {
        lemma_encode_prefix(s, i, j - 1);
        lemma_encode_push(s.take(j - 1), s[j - 1]);
        assert(s.take(j - 1).push(s[j - 1]) =~= s.take(j));
    }
}

/// The first `k` characters are the longest prefix that fits into `max`
/// bytes, if they fit and one more does not.
pub proof fn lemma_clipped_bytes(s: Seq<char>, k: int, j: int, max: nat)
    requires
        0 <= k <= j <= s.len(),
        encode_utf8(s.take(k)).len() <= max,
        k == s.len() || encode_utf8(s.take(k + 1)).len() > max,
    ensures
        clipped_bytes(s.take(j), max) == s.take(k),
    decreases j,
{
    if k < j {
        lemma_encode_prefix(s, k + 1, j);
        lemma_clipped_bytes(s, k, j - 1, max);
        assert(s.take(j).drop_last() =~= s.take(j - 1));
    }
}

/// The number of bytes that encode `c` in UTF-8.
pub fn encoded_width(c: char) -> (n: usize)
    ensures
        n == encode_scalar(c as u32).len(),
        1 <= n <= 4,
{
    let v: u32 = c as u32;
    if v <= 0x7f {
        1
    } else if v <= 0x7ff {
        2
    } else if v <= 0xffff {
        3
    } else {
        4
    }
}

/// The longest prefix of `s` whose UTF-8 encoding has at most `max` bytes,
/// and whether that is all of `s`.
pub fn clip_bytes(s: &str, max: usize) -> (r: (&str, bool))
    ensures
        r.0@ == clipped_bytes(s@, max as nat),
        r.1 == (encode_utf8(s@).len() <= max),
{
    let chars: Vec<char> = to_chars(s);
    let mut used: usize = 0;
    let mut i: usize = 0;
    assert(s@.take(0) =~= Seq::<char>::empty());
    while i < chars.len() && encoded_width(chars[i]) <= max - used
        invariant
            chars@ == s@,
            i <= chars@.len(),
            used <= max,
            used == encode_utf8(s@.take(i as int)).len(),
        decreases chars@.len() - i,
    {
        proof {
            lemma_encode_push(s@.take(i as int), s@[i as int]);
            assert(s@.take(i as int).push(s@[i as int]) =~= s@.take(i + 1));
        }
        used = used + encoded_width(chars[i]);
        i = i + 1;
    }
    proof {
        if i < s@.len() {
            lemma_encode_push(s@.take(i as int), s@[i as int]);
            assert(s@.take(i as int).push(s@[i as int]) =~= s@.take(i + 1));
            lemma_encode_prefix(s@, i + 1, s@.len() as int);
        }
        assert(s@.take(s@.len() as int) =~= s@);
        lemma_clipped_bytes(s@, i as int, s@.len() as int, max as nat);
        assert(s@.subrange(0, i as int) =~= s@.take(i as int));
    }
    (s.substring_char(0, i), i == chars.len())
}

} // verus!
