//! Text building and reading: decimal numbers, padding, trimming and ordering of strings.
use vstd::prelude::*;
use vstd::string::*;

verus! {

/// The text of an optional string.
pub open spec fn opt_text(s: Option<String>) -> Option<Seq<char>> {
    match s {
        Some(t) => Some(t@),
        None => None,
    }
}

/// The decimal digit that stands for `d`.
pub open spec fn digit(d: nat) -> char {
    (48 + d) as char
}

/// `n` written in decimal, without leading zeros.
pub open spec fn decimal(n: nat) -> Seq<char>
    decreases n,
{
    if n < 10 {
        seq![digit(n)]
    } else {
        decimal(n / 10).push(digit(n % 10))
    }
}

/// `n` written in decimal, with a minus sign in front of a negative number.
pub open spec fn signed_decimal(n: int) -> Seq<char> {
    if n < 0 {
        "-"@ + decimal((-n) as nat)
    } else {
        decimal(n as nat)
    }
}

/// The characters of a string, one by one.
pub fn chars_of(s: &str) -> (r: Vec<char>)
    ensures
        r@ == s@,
{
    let mut out: Vec<char> = Vec::new();
    for c in it: s.chars()
        invariant
            out@ == it.seq().take(it.index() as int),
            it.seq() == s@,
    {
        out.push(c);
    }
    out
}

fn digit_text(d: u64) -> (r: &'static str)
    requires
        d < 10,
    ensures
        r@ == seq![digit(d as nat)],
{
    proof {
        reveal_strlit("0");
        reveal_strlit("1");
        reveal_strlit("2");
        reveal_strlit("3");
        reveal_strlit("4");
        reveal_strlit("5");
        reveal_strlit("6");
        reveal_strlit("7");
        reveal_strlit("8");
        reveal_strlit("9");
    }
    match d {
        0 => "0",
        1 => "1",
        2 => "2",
        3 => "3",
        4 => "4",
        5 => "5",
        6 => "6",
        7 => "7",
        8 => "8",
        _ => "9",
    }
}

/// Writes `n` in decimal at the end of `out`.
pub fn push_decimal(out: &mut String, n: u64)
    ensures
        final(out)@ == old(out)@ + decimal(n as nat),
    decreases n,
{
    if n >= 10 {
        push_decimal(out, n / 10);
    }
    out.append(digit_text(n % 10));
}

/// Writes `n` in decimal at the end of `out`, with its sign where it is negative.
pub fn push_signed(out: &mut String, n: i64)
    ensures
        final(out)@ == old(out)@ + signed_decimal(n as int),
{
    if n < 0 {
        let magnitude: u64 = (-(n + 1)) as u64 + 1;
        out.append("-");
        push_decimal(out, magnitude);
        assert(out@ =~= old(out)@ + signed_decimal(n as int));
    } else {
        push_decimal(out, n as u64);
    }
}

/// `s`, followed by as many spaces as it takes to reach `width` characters.
pub open spec fn padded(s: Seq<char>, width: nat) -> Seq<char> {
    if s.len() < width {
        s + Seq::new((width - s.len()) as nat, |i: int| ' ')
    } else {
        s
    }
}

/// A padded text begins with the text and is never narrower than its column, so that what
/// follows it stands in the same place on each line whose text fits.
pub proof fn law_padded_keeps_columns(s: Seq<char>, width: nat)
    ensures
        s.is_prefix_of(padded(s, width)),
        padded(s, width).len() >= width,
        s.len() <= width ==> padded(s, width).len() == width,
        forall|i: int| s.len() <= i < padded(s, width).len() ==> padded(s, width)[i] == ' ',
{
    assert(padded(s, width).take(s.len() as int) =~= s);
}

/// Writes `s` at the end of `out`, left-aligned in a column of `width` characters.
pub fn push_padded(out: &mut String, s: &str, width: usize)
    ensures
        final(out)@ == old(out)@ + padded(s@, width as nat),
{
    let len: usize = s.unicode_len();
    out.append(s);
    let mut at: usize = len;
    proof {
        reveal_strlit(" ");
    }
    while at < width
        invariant
            len == s@.len(),
            len <= at,
            at <= width || at == len,
            out@ == old(out)@ + s@ + Seq::new((at - len) as nat, |i: int| ' '),
            " "@ == seq![' '],
        decreases width - at,
    {
        out.append(" ");
        at = at + 1;
        assert(out@ =~= old(out)@ + s@ + Seq::new((at - len) as nat, |i: int| ' '));
    }
    assert(out@ =~= old(out)@ + padded(s@, width as nat));
}

/// The first `limit` characters of `s`, or all of it where it is shorter.
pub open spec fn head(s: Seq<char>, limit: nat) -> Seq<char> {
    if s.len() <= limit {
        s
    } else {
        s.take(limit as int)
    }
}

/// The head of a text is where the text begins: as much of it as the limit allows.
pub proof fn law_head_is_where_it_begins(s: Seq<char>, limit: nat)
    ensures
        head(s, limit).is_prefix_of(s),
        head(s, limit).len() <= limit,
        s.len() <= limit ==> head(s, limit) == s,
        s.len() >= limit ==> head(s, limit).len() == limit,
{
    assert(head(s, limit) =~= s.take(head(s, limit).len() as int));
}

/// Writes the first `limit` characters of `s` at the end of `out`.
pub fn push_head(out: &mut String, s: &str, limit: usize)
    ensures
        final(out)@ == old(out)@ + head(s@, limit as nat),
{
    if s.unicode_len() <= limit {
        out.append(s);
    } else {
        out.append(s.substring_char(0, limit));
    }
}

/// Whether `c` has the Unicode property `White_Space`.
pub open spec fn white_space(c: char) -> bool {
    let n = c as int;
    ||| 0x09 <= n <= 0x0d
    ||| n == 0x20
    ||| n == 0x85
    ||| n == 0xa0
    ||| n == 0x1680
    ||| 0x2000 <= n <= 0x200a
    ||| n == 0x2028
    ||| n == 0x2029
    ||| n == 0x202f
    ||| n == 0x205f
    ||| n == 0x3000
}

/// The code point of `c`.
fn code_point(c: char) -> (r: u32)
    ensures
        r == c as int,
{
    c as u32
}

fn is_white_space(c: char) -> (r: bool)
    ensures
        r == white_space(c),
{
    let n: u32 = c as u32;
    (0x09 <= n && n <= 0x0d) || n == 0x20 || n == 0x85 || n == 0xa0 || n == 0x1680 || (0x2000 <= n
        && n <= 0x200a) || n == 0x2028 || n == 0x2029 || n == 0x202f || n == 0x205f || n == 0x3000
}

/// `s` without the white space at its start.
pub open spec fn trim_start(s: Seq<char>) -> Seq<char>
    decreases s.len(),
{
    if s.len() > 0 && white_space(s[0]) {
        trim_start(s.skip(1))
    } else {
        s
    }
}

/// `s` without the white space at its end.
pub open spec fn trim_end(s: Seq<char>) -> Seq<char>
    decreases s.len(),
{
    if s.len() > 0 && white_space(s.last()) {
        trim_end(s.drop_last())
    } else {
        s
    }
}

/// `s` without the white space at either end.
pub open spec fn trimmed(s: Seq<char>) -> Seq<char> {
    trim_end(trim_start(s))
}

/// The bounds between which `s` is left when the white space at its ends is cut off.
fn trim_bounds(s: &Vec<char>) -> (r: (usize, usize))
    ensures
        r.0 <= r.1 <= s@.len(),
        s@.subrange(r.0 as int, r.1 as int) == trimmed(s@),
{
    let mut from: usize = 0;
    assert(s@.skip(0) =~= s@);
    while from < s.len() && is_white_space(s[from])
        invariant
            from <= s@.len(),
            trim_start(s@.skip(from as int)) == trim_start(s@),
        decreases s@.len() - from,
    {
        assert(s@.skip(from as int).skip(1) =~= s@.skip(from + 1));
        from = from + 1;
    }
    let mut to: usize = s.len();
    assert(s@.subrange(from as int, to as int) =~= s@.skip(from as int));
    assert(trim_start(s@) == s@.subrange(from as int, to as int));
    while from < to && is_white_space(s[to - 1])
        invariant
            from <= to <= s@.len(),
            trim_end(s@.subrange(from as int, to as int)) == trimmed(s@),
        decreases to,
    {
        assert(s@.subrange(from as int, to as int).drop_last() =~= s@.subrange(
            from as int,
            to - 1,
        ));
        to = to - 1;
    }
    (from, to)
}

/// Whether `c` is one of the digits 0 to 9.
pub open spec fn is_digit(c: char) -> bool {
    48 <= c as int <= 57
}

/// The number that a sequence of digits stands for.
pub open spec fn digits_value(s: Seq<char>) -> nat
    decreases s.len(),
{
    if s.len() == 0 {
        0
    } else {
        (10 * digits_value(s.drop_last()) + (s.last() as int - 48)) as nat
    }
}

/// Whether `s` holds digits alone.
pub open spec fn all_digits(s: Seq<char>) -> bool {
    forall|i: int| 0 <= i < s.len() ==> is_digit(#[trigger] s[i])
}

/// `s` without the plus sign that it may begin with.
pub open spec fn after_plus(s: Seq<char>) -> Seq<char> {
    if s.len() > 0 && s[0] == '+' {
        s.skip(1)
    } else {
        s
    }
}

/// The number that `s` holds: an optional plus sign, then one or more digits and nothing else,
/// with a value of at most `max`.
pub open spec fn unsigned_value(s: Seq<char>, max: nat) -> Option<nat> {
    let digits = after_plus(s);
    if digits.len() > 0 && all_digits(digits) && digits_value(digits) <= max {
        Some(digits_value(digits))
    } else {
        None
    }
}

/// The number that a one-number file holds, whatever white space surrounds it.
pub open spec fn number_in(s: Seq<char>, max: nat) -> Option<nat> {
    unsigned_value(trimmed(s), max)
}

proof fn lemma_digits_value_grows(s: Seq<char>, i: int)
    requires
        0 <= i <= s.len(),
        all_digits(s),
    ensures
        digits_value(s.take(i)) <= digits_value(s),
    decreases s.len(),
{
    if i < s.len() {
        lemma_digits_value_grows(s.drop_last(), i);
        assert(s.drop_last().take(i) =~= s.take(i));
        assert(is_digit(s[s.len() - 1]));
    } else {
        assert(s.take(i) =~= s);
    }
}

/// Reads the number that `s` holds, if it holds one of at most `max`.
pub fn parse_number(s: &str, max: u32) -> (r: Option<u32>)
    ensures
        r is Some <==> number_in(s@, max as nat) is Some,
        r matches Some(n) ==> number_in(s@, max as nat) == Some(n as nat),
{
    let chars: Vec<char> = chars_of(s);
    let bounds: (usize, usize) = trim_bounds(&chars);
    let to: usize = bounds.1;
    let mut at: usize = bounds.0;
    let ghost whole = chars@.subrange(at as int, to as int);
    if at < to && chars[at] == '+' {
        at = at + 1;
    }
    let ghost digits = chars@.subrange(at as int, to as int);
    assert(digits =~= after_plus(whole));
    if at >= to {
        return None;
    }
    let start: usize = at;
    let mut value: u64 = 0;
    assert(digits.take(0) =~= Seq::<char>::empty());
    while at < to
        invariant
            start <= at <= to <= chars@.len(),
            digits == chars@.subrange(start as int, to as int),
            start < to,
            value == digits_value(digits.take(at - start)),
            value <= max,
            forall|j: int| 0 <= j < at - start ==> is_digit(#[trigger] digits[j]),
            digits == after_plus(trimmed(s@)),
        decreases to - at,
    {
        let c: u32 = code_point(chars[at]);
        let ghost k = at - start;
        assert(digits[k] == chars@[at as int]);
        if c < 48 || c > 57 {
            return None;
        }
        value = value * 10 + (c - 48) as u64;
        assert(digits.take(k + 1).drop_last() =~= digits.take(k));
        assert(digits.take(k + 1).last() == digits[k]);
        if value > max as u64 {
            proof {
                if all_digits(digits) {
                    lemma_digits_value_grows(digits, k + 1);
                }
            }
            return None;
        }
        at = at + 1;
    }
    assert(digits.take(to - start) =~= digits);
    Some(value as u32)
}

proof fn lemma_decimal(n: nat)
    ensures
        decimal(n).len() > 0,
        all_digits(decimal(n)),
        digits_value(decimal(n)) == n,
    decreases n,
{
    if n < 10 {
        assert(decimal(n).drop_last() =~= Seq::<char>::empty());
        assert(digits_value(Seq::<char>::empty()) == 0);
    } else {
        lemma_decimal(n / 10);
        assert(decimal(n).drop_last() =~= decimal(n / 10));
    }
}

/// A number written as a line of its own is read back as that number.
pub proof fn law_number_round_trip(n: nat, max: nat)
    requires
        n <= max,
    ensures
        number_in(decimal(n) + "\n"@, max) == Some(n),
{
    reveal_strlit("\n");
    lemma_decimal(n);
    let line = decimal(n) + "\n"@;
    assert(is_digit(decimal(n)[0]));
    assert(is_digit(decimal(n).last()));
    assert(trim_start(line) == line);
    assert(line.last() == '\n');
    assert(line.drop_last() =~= decimal(n));
    assert(trim_end(decimal(n)) == decimal(n));
    assert(trimmed(line) == decimal(n));
}

/// Whether `a` stands before `b` in the order of their code points.
pub open spec fn text_less(a: Seq<char>, b: Seq<char>) -> bool
    decreases a.len(),
{
    if b.len() == 0 {
        false
    } else if a.len() == 0 {
        true
    } else if a[0] != b[0] {
        (a[0] as int) < (b[0] as int)
    } else {
        text_less(a.skip(1), b.skip(1))
    }
}

/// Whether `a` stands before `b` in the order of their code points.
pub fn is_before(a: &str, b: &str) -> (r: bool)
    ensures
        r == text_less(a@, b@),
{
    let left: Vec<char> = chars_of(a);
    let right: Vec<char> = chars_of(b);
    let mut i: usize = 0;
    assert(a@.skip(0) =~= a@);
    assert(b@.skip(0) =~= b@);
    while i < left.len() && i < right.len()
        invariant
            left@ == a@,
            right@ == b@,
            i <= left@.len(),
            i <= right@.len(),
            text_less(a@, b@) == text_less(a@.skip(i as int), b@.skip(i as int)),
        decreases left@.len() - i,
    {
        if left[i] != right[i] {
            return code_point(left[i]) < code_point(right[i]);
        }
        assert(a@.skip(i as int).skip(1) =~= a@.skip(i + 1));
        assert(b@.skip(i as int).skip(1) =~= b@.skip(i + 1));
        i = i + 1;
    }
    i < right.len()
}

/// The order of texts is total: of two different texts one stands before the other.
pub proof fn lemma_text_less_total(a: Seq<char>, b: Seq<char>)
    ensures
        text_less(a, b) || text_less(b, a) || a == b,
        !(text_less(a, b) && text_less(b, a)),
        a == b ==> !text_less(a, b),
    decreases a.len(),
{
    if a.len() > 0 && b.len() > 0 && a[0] == b[0] {
        lemma_text_less_total(a.skip(1), b.skip(1));
        if a.skip(1) == b.skip(1) {
            assert(a =~= seq![a[0]] + a.skip(1));
            assert(b =~= seq![b[0]] + b.skip(1));
        }
    } else if a.len() == 0 && b.len() == 0 {
        assert(a =~= b);
    }
}

/// The order of texts is transitive.
pub proof fn lemma_text_less_transitive(a: Seq<char>, b: Seq<char>, c: Seq<char>)
    requires
        text_less(a, b),
        text_less(b, c),
    ensures
        text_less(a, c),
    decreases a.len(),
{
    if a.len() > 0 && b.len() > 0 && c.len() > 0 && a[0] == b[0] && b[0] == c[0] {
        lemma_text_less_transitive(a.skip(1), b.skip(1), c.skip(1));
    }
}

/// Whether two texts are the same.
pub fn same_text(a: &str, b: &str) -> (r: bool)
    ensures
        r == (a@ == b@),
{
    let left: Vec<char> = chars_of(a);
    let right: Vec<char> = chars_of(b);
    if left.len() != right.len() {
        return false;
    }
    let mut i: usize = 0;
    while i < left.len()
        invariant
            left@ == a@,
            right@ == b@,
            left@.len() == right@.len(),
            i <= left@.len(),
            forall|j: int| 0 <= j < i ==> left@[j] == right@[j],
        decreases left@.len() - i,
    {
        if left[i] != right[i] {
            return false;
        }
        i = i + 1;
    }
    assert(a@ =~= b@);
    true
}

/// A copy of an optional string.
pub fn copy_opt(s: &Option<String>) -> (r: Option<String>)
    ensures
        opt_text(r) == opt_text(*s),
{
    match s {
        Some(t) => Some(t.clone()),
        None => None,
    }
}

/// A decimal numeral is built digit by digit: one more digit at its end is ten times the number
/// and that digit.
pub proof fn law_decimal_is_built_by_digits(n: nat, d: nat)
    requires
        d < 10,
    ensures
        decimal(d) == seq![(48 + d) as char],
        n > 0 ==> decimal(10 * n + d) == decimal(n).push((48 + d) as char),
{
    if n > 0 {
        assert((10 * n + d) / 10 == n);
        assert((10 * n + d) % 10 == d);
    }
}

/// A negative number is a minus sign and its amount; any other is its amount.
pub proof fn law_sign_precedes_the_amount(n: int)
    ensures
        n < 0 ==> signed_decimal(n) == "-"@ + decimal((-n) as nat),
        n >= 0 ==> signed_decimal(n) == decimal(n as nat),
{
}

proof fn lemma_trim_start(before: Seq<char>, rest: Seq<char>)
    requires
        forall|i: int| 0 <= i < before.len() ==> white_space(#[trigger] before[i]),
        rest.len() > 0,
        !white_space(rest[0]),
    ensures
        trim_start(before + rest) == rest,
    decreases before.len(),
{
    let all = before + rest;
    if before.len() == 0 {
        assert(all =~= rest);
    } else {
        assert(all[0] == before[0]);
        assert(all.skip(1) =~= before.skip(1) + rest);
        lemma_trim_start(before.skip(1), rest);
    }
}

proof fn lemma_trim_end(rest: Seq<char>, after: Seq<char>)
    requires
        forall|i: int| 0 <= i < after.len() ==> white_space(#[trigger] after[i]),
        rest.len() > 0,
        !white_space(rest.last()),
    ensures
        trim_end(rest + after) == rest,
    decreases after.len(),
{
    let all = rest + after;
    if after.len() == 0 {
        assert(all =~= rest);
    } else {
        assert(all.last() == after.last());
        assert(all.drop_last() =~= rest + after.drop_last());
        lemma_trim_end(rest, after.drop_last());
    }
}

/// Whether a text is made of blanks and line ends alone.
pub open spec fn blank(s: Seq<char>) -> bool {
    forall|i: int|
        0 <= i < s.len() ==> (#[trigger] s[i] == ' ' || s[i] == '\n' || s[i] == '\t' || s[i] == '\r')
}

/// A numeral is read as its number wherever blanks stand before and after it and though a plus
/// sign precedes it, if the number is not above the limit; else it is not read.
pub proof fn law_numeral_is_read(before: Seq<char>, n: nat, after: Seq<char>, max: nat)
    requires
        blank(before),
        blank(after),
    ensures
        number_in(before + decimal(n) + after, max) == (if n <= max {
            Some(n)
        } else {
            None
        }),
        number_in(before + (seq!['+'] + decimal(n)) + after, max) == (if n <= max {
            Some(n)
        } else {
            None
        }),
{
    lemma_decimal(n);
    let plain = decimal(n);
    let signed = seq!['+'] + plain;
    assert(is_digit(plain[0]));
    assert(is_digit(plain.last()));
    assert(plain.last() == plain[plain.len() - 1]);
    assert(forall|i: int| 0 <= i < before.len() ==> white_space(#[trigger] before[i]));
    assert(forall|i: int| 0 <= i < after.len() ==> white_space(#[trigger] after[i]));
    assert(before + plain + after =~= before + (plain + after));
    assert((plain + after)[0] == plain[0]);
    lemma_trim_start(before, plain + after);
    lemma_trim_end(plain, after);
    assert(trimmed(before + plain + after) == plain);
    assert(before + signed + after =~= before + (signed + after));
    assert((signed + after)[0] == '+');
    assert(signed.last() == plain.last());
    lemma_trim_start(before, signed + after);
    lemma_trim_end(signed, after);
    assert(trimmed(before + signed + after) == signed);
    assert(signed.skip(1) =~= plain);
}

proof fn lemma_cut_start(s: Seq<char>) -> (n: int)
    ensures
        0 <= n <= s.len(),
        trim_start(s) == s.skip(n),
        forall|i: int| 0 <= i < n ==> white_space(#[trigger] s[i]),
    decreases s.len(),
{
    if s.len() > 0 && white_space(s[0]) {
        let m = lemma_cut_start(s.skip(1));
        assert(s.skip(1).skip(m) =~= s.skip(m + 1));
        assert forall|i: int| 0 <= i < m + 1 implies white_space(#[trigger] s[i]) by {
            if i > 0 {
                assert(s.skip(1)[i - 1] == s[i]);
            }
        }
        m + 1
    } else {
        assert(s.skip(0) =~= s);
        0
    }
}

proof fn lemma_cut_end(s: Seq<char>) -> (n: int)
    ensures
        0 <= n <= s.len(),
        trim_end(s) == s.take(n),
        forall|i: int| n <= i < s.len() ==> white_space(#[trigger] s[i]),
    decreases s.len(),
{
    if s.len() > 0 && white_space(s.last()) {
        let m = lemma_cut_end(s.drop_last());
        assert(s.drop_last().take(m) =~= s.take(m));
        assert forall|i: int| m <= i < s.len() implies white_space(#[trigger] s[i]) by {
            if i < s.len() - 1 {
                assert(s.drop_last()[i] == s[i]);
            }
        }
        m
    } else {
        assert(s.take(s.len() as int) =~= s);
        s.len() as int
    }
}

/// What is read as a number is one run of digits, which may follow a plus sign, with white space
/// around it and nothing else; it is the number that the digits stand for, and not above the
/// limit.
pub proof fn law_only_a_numeral_is_read(s: Seq<char>, max: nat)
    requires
        number_in(s, max) is Some,
    ensures
        number_in(s, max)->0 <= max,
        exists|from: int, to: int|
            #![trigger s.subrange(from, to)]
            0 <= from < to <= s.len() && number_in(s, max) == Some(
                digits_value(s.subrange(from, to)),
            ) && (forall|i: int| from <= i < to ==> '0' <= (#[trigger] s[i]) <= '9') && (forall|
                i: int,
            |
                to <= i < s.len() ==> white_space(#[trigger] s[i])) && (forall|i: int|
                0 <= i < from ==> white_space(#[trigger] s[i]) || (i == from - 1 && s[i] == '+')),
{
    let a = lemma_cut_start(s);
    let b = lemma_cut_end(s.skip(a));
    let core = trimmed(s);
    assert(core =~= s.subrange(a, a + b));
    let from = if core.len() > 0 && core[0] == '+' {
        a + 1
    } else {
        a
    };
    let to = a + b;
    let digits = after_plus(core);
    assert(digits =~= s.subrange(from, to));
    assert forall|i: int| from <= i < to implies '0' <= (#[trigger] s[i]) <= '9' by {
        assert(is_digit(digits[i - from]));
    }
    assert forall|i: int| to <= i < s.len() implies white_space(#[trigger] s[i]) by {
        assert(s.skip(a)[i - a] == s[i]);
    }
}

/// The number of a run of digits: one more digit at its end is ten times the number and that
/// digit.
pub proof fn law_digits_are_read_in_order(digits: Seq<char>, d: nat)
    requires
        d < 10,
    ensures
        digits_value(Seq::empty()) == 0,
        digits_value(digits.push((48 + d) as char)) == 10 * digits_value(digits) + d,
{
    assert(digits.push((48 + d) as char).drop_last() =~= digits);
}

/// Of two texts that differ, the first place where they do decides which stands before; a text
/// stands before each longer one that begins with it.
pub proof fn law_first_difference_decides(
    common: Seq<char>,
    a: char,
    b: char,
    x: Seq<char>,
    y: Seq<char>,
)
    ensures
        a < b ==> text_less(common + (seq![a] + x), common + (seq![b] + y)),
        a > b ==> !text_less(common + (seq![a] + x), common + (seq![b] + y)),
        text_less(common, common + (seq![a] + x)),
        !text_less(common + (seq![a] + x), common),
    decreases common.len(),
{
    let left = common + (seq![a] + x);
    let right = common + (seq![b] + y);
    if common.len() > 0 {
        law_first_difference_decides(common.skip(1), a, b, x, y);
        assert(left.skip(1) =~= common.skip(1) + (seq![a] + x));
        assert(right.skip(1) =~= common.skip(1) + (seq![b] + y));
    }
}

/// White space is what Unicode calls so: the blank, the tab, the line and page ends, the next-line
/// control, and the spaces and separators of typography; no digit, letter or sign is.
pub proof fn law_white_space_is_unicodes(c: char)
    ensures
        white_space(c) <==> c == ' ' || c == '\u{9}' || c == '\u{a}' || c == '\u{b}' || c
            == '\u{c}' || c == '\u{d}' || c == '\u{85}' || c == '\u{a0}' || c == '\u{1680}' || (
        '\u{2000}' <= c <= '\u{200a}') || c == '\u{2028}' || c == '\u{2029}' || c == '\u{202f}' || c
            == '\u{205f}' || c == '\u{3000}',
{
}

/// An optional string is kept as it is when it is copied, an empty one too.
pub proof fn law_optional_text_is_kept(s: Option<String>, r: Option<String>)
    requires
        call_ensures(copy_opt, (&s,), r),
    ensures
        s matches Some(text) ==> opt_text(s) == Some(text@) && (r matches Some(kept) && kept@
            == text@),
        s is None ==> opt_text(s) is None && r is None,
{
}

} // verus!
