//! Text primitives shared by the sensor frame and calibration file parsers:
//! whitespace trimming, lines and fields, and unsigned decimal numerals.
//!
//! Everything is stated over sequences of characters. Trimming removes the
//! characters with the Unicode `White_Space` property, and a numeral is an
//! optional `+` followed by ASCII digits, so the functions agree with
//! `str::trim` and with `str::parse` for the unsigned integer types.

use vstd::prelude::*;
use vstd::string::*;

verus! {

/// Why a piece of text is not an unsigned decimal numeral that fits.
#[derive(Clone, Copy, Debug, PartialEq, Eq, Structural)]
pub enum ParseFault {
    /// The text has no characters at all.
    Empty,
    /// A character that is not an ASCII digit, or a sign with nothing behind it.
    InvalidDigit,
    /// The digits read so far already denote more than the limit.
    TooLarge,
}

/// The characters with the Unicode `White_Space` property.
pub open spec fn is_whitespace(c: char) -> bool {
    let u = c as u32;
    ||| 0x09 <= u <= 0x0D
    ||| u == 0x20
    ||| u == 0x85
    ||| u == 0xA0
    ||| u == 0x1680
    ||| 0x2000 <= u <= 0x200A
    ||| u == 0x2028
    ||| u == 0x2029
    ||| u == 0x202F
    ||| u == 0x205F
    ||| u == 0x3000
}

/// `s` without its leading whitespace.
pub open spec fn trim_start_of(s: Seq<char>) -> Seq<char>
    decreases s.len(),
{
    if s.len() > 0 && is_whitespace(s[0]) {
        trim_start_of(s.drop_first())
    } else {
        s
    }
}

/// `s` without its trailing whitespace.
pub open spec fn trim_end_of(s: Seq<char>) -> Seq<char>
    decreases s.len(),
{
    if s.len() > 0 && is_whitespace(s.last()) {
        trim_end_of(s.drop_last())
    } else {
        s
    }
}

/// `s` without leading and trailing whitespace.
pub open spec fn trimmed(s: Seq<char>) -> Seq<char> {
    trim_end_of(trim_start_of(s))
}

/// The ASCII digits `0` to `9`.
pub open spec fn is_digit(c: char) -> bool {
    0x30 <= c as u32 <= 0x39
}

/// The number a digit stands for.
pub open spec fn digit_value(c: char) -> nat {
    (c as u32 - 0x30) as nat
}

/// The digit that stands for `d`, for `d` below ten.
pub open spec fn digit_char(d: nat) -> char {
    (0x30 + d) as char
}

/// The number that a sequence of digits denotes in base ten.
pub open spec fn numeral_value(d: Seq<char>) -> nat
    decreases d.len(),
{
    if d.len() == 0 {
        0
    } else {
        numeral_value(d.drop_last()) * 10 + digit_value(d.last())
    }
}

/// Reads `d` from the left as a base-ten numeral of at most `max`. The first
/// character that is no digit gives `InvalidDigit`, the first digit with which
/// the value read so far exceeds `max` gives `TooLarge`, whichever comes first.
pub open spec fn numeral(d: Seq<char>, max: nat) -> Result<nat, ParseFault>
    decreases d.len(),
{
    if d.len() == 0 {
        Ok(0)
    } else {
        match numeral(d.drop_last(), max) {
            Err(e) => Err(e),
            Ok(v) => if !is_digit(d.last()) {
                Err(ParseFault::InvalidDigit)
            } else if v * 10 + digit_value(d.last()) > max {
                Err(ParseFault::TooLarge)
            } else {
                Ok(v * 10 + digit_value(d.last()))
            },
        }
    }
}

/// The unsigned number that `s` spells, if it is one of at most `max`: an
/// optional `+` followed by at least one digit, and nothing else.
pub open spec fn parsed_unsigned(s: Seq<char>, max: nat) -> Result<nat, ParseFault> {
    if s.len() == 0 {
        Err(ParseFault::Empty)
    } else {
        let digits = if s[0] == '+' {
            s.drop_first()
        } else {
            s
        };
        if digits.len() == 0 {
            Err(ParseFault::InvalidDigit)
        } else {
            numeral(digits, max)
        }
    }
}

/// What is left of `s` without the `+` that it may start with.
pub open spec fn unsigned_part(s: Seq<char>) -> Seq<char> {
    if s.len() > 0 && s[0] == '+' {
        s.drop_first()
    } else {
        s
    }
}

/// Whether `s` spells an unsigned number of at most `max`.
pub open spec fn is_numeral(s: Seq<char>, max: nat) -> bool {
    &&& unsigned_part(s).len() > 0
    &&& all_digits(unsigned_part(s))
    &&& numeral_value(unsigned_part(s)) <= max
}

/// The shortest base-ten spelling of `n`.
pub open spec fn decimal_text(n: nat) -> Seq<char>
    decreases n,
{
    if n < 10 {
        seq![digit_char(n)]
    } else {
        decimal_text(n / 10).push(digit_char(n % 10))
    }
}

/// The pieces of `s` between occurrences of `a` and of `b`. There is always
/// one piece more than there are separators, so the empty text has one
/// empty piece.
pub open spec fn split_either(s: Seq<char>, a: char, b: char) -> Seq<Seq<char>>
    decreases s.len(),
{
    if s.len() == 0 {
        seq![Seq::<char>::empty()]
    } else {
        let before = split_either(s.drop_last(), a, b);
        if s.last() == a || s.last() == b {
            before.push(Seq::<char>::empty())
        } else {
            before.update(before.len() - 1, before.last().push(s.last()))
        }
    }
}

/// The pieces of `s` between occurrences of `sep`.
pub open spec fn split_fields(s: Seq<char>, sep: char) -> Seq<Seq<char>> {
    split_either(s, sep, sep)
}

/// The lines of `s`: the pieces between carriage returns and line feeds. A
/// carriage return and a line feed in a row have an empty line between them.
pub open spec fn split_lines(s: Seq<char>) -> Seq<Seq<char>> {
    split_either(s, '\r', '\n')
}

/// The contents of each vector of `fields`, in order.
pub open spec fn field_views(fields: Seq<Vec<char>>) -> Seq<Seq<char>> {
    Seq::new(fields.len(), |i: int| fields[i]@)
}

/// Every character of `d` is a digit.
pub open spec fn all_digits(d: Seq<char>) -> bool {
    forall|i: int| 0 <= i < d.len() ==> is_digit(#[trigger] d[i])
}

/// A failure met while reading a prefix is the result for the whole text.
pub proof fn lemma_numeral_prefix_fault(d: Seq<char>, k: int, max: nat)
    requires
        0 <= k <= d.len(),
        numeral(d.take(k), max) is Err,
    ensures
        numeral(d, max) == numeral(d.take(k), max),
    decreases d.len(),
{
    if k == d.len() {
        assert(d.take(k) =~= d);
    } else {
        assert(d.drop_last().take(k) =~= d.take(k));
        lemma_numeral_prefix_fault(d.drop_last(), k, max);
    }
}

/// Digits that denote a number within the limit are read as that number.
pub proof fn lemma_numeral_of_digits(d: Seq<char>, max: nat)
    requires
        all_digits(d),
        numeral_value(d) <= max,
    ensures
        numeral(d, max) == Ok::<nat, ParseFault>(numeral_value(d)),
    decreases d.len(),
{
    if d.len() > 0 {
        let init = d.drop_last();
        assert forall|i: int| 0 <= i < init.len() implies is_digit(#[trigger] init[i]) by {
            assert(init[i] == d[i]);
        }
        assert(is_digit(d.last()));
        lemma_numeral_of_digits(init, max);
    }
}

/// What `numeral` accepts is made of digits and denotes the number returned.
pub proof fn lemma_numeral_accepts(d: Seq<char>, max: nat)
    requires
        numeral(d, max) is Ok,
    ensures
        all_digits(d),
        numeral(d, max) == Ok::<nat, ParseFault>(numeral_value(d)),
        numeral_value(d) <= max,
    decreases d.len(),
{
    if d.len() > 0 {
        let init = d.drop_last();
        lemma_numeral_accepts(init, max);
        assert forall|i: int| 0 <= i < d.len() implies is_digit(#[trigger] d[i]) by {
            if i < init.len() {
                assert(init[i] == d[i]);
            }
        }
    }
}

/// A text is read as a number exactly if it spells one that fits, and the
/// number read is the one spelled.
pub proof fn lemma_parsed_iff_numeral(s: Seq<char>, max: nat)
    ensures
        parsed_unsigned(s, max) is Ok <==> is_numeral(s, max),
        is_numeral(s, max) ==> parsed_unsigned(s, max) == Ok::<nat, ParseFault>(
            numeral_value(unsigned_part(s)),
        ),
{
    let digits = unsigned_part(s);
    if is_numeral(s, max) {
        lemma_numeral_of_digits(digits, max);
    }
    if parsed_unsigned(s, max) is Ok {
        lemma_numeral_accepts(digits, max);
    }
}

/// The spelling of a number consists of digits and denotes that number.
pub proof fn lemma_decimal_text_denotes(n: nat)
    ensures
        decimal_text(n).len() >= 1,
        all_digits(decimal_text(n)),
        numeral_value(decimal_text(n)) == n,
    decreases n,
{
    if n < 10 {
        let t = decimal_text(n);
        assert(t.drop_last() =~= Seq::<char>::empty());
        assert(numeral_value(t.drop_last()) == 0);
    } else {
        lemma_decimal_text_denotes(n / 10);
        let init = decimal_text(n / 10);
        let t = decimal_text(n);
        assert(t.drop_last() =~= init);
        assert(t.last() == digit_char(n % 10));
        assert forall|i: int| 0 <= i < t.len() implies is_digit(#[trigger] t[i]) by {
            if i < init.len() {
                assert(t[i] == init[i]);
            }
        }
    }
}

/// Trimming leaves a text alone that neither starts nor ends with whitespace.
pub proof fn lemma_trimmed_fixed(s: Seq<char>)
    requires
        s.len() > 0 ==> !is_whitespace(s[0]) && !is_whitespace(s.last()),
    ensures
        trimmed(s) == s,
{
}

/// A number that is written out and read back, even with whitespace trimmed
/// from the written text first, is the number that was written.
pub proof fn lemma_decimal_round_trip(n: nat, max: nat)
    requires
        n <= max,
    ensures
        trimmed(decimal_text(n)) == decimal_text(n),
        parsed_unsigned(decimal_text(n), max) == Ok::<nat, ParseFault>(n),
{
    let t = decimal_text(n);
    lemma_decimal_text_denotes(n);
    assert(is_digit(t[0]));
    assert(is_digit(t.last()));
    lemma_trimmed_fixed(t);
    lemma_numeral_of_digits(t, max);
}

/// A text always has a piece.
pub proof fn lemma_split_has_a_piece(s: Seq<char>, a: char, b: char)
    ensures
        split_either(s, a, b).len() >= 1,
    decreases s.len(),
{
    if s.len() > 0 {
        lemma_split_has_a_piece(s.drop_last(), a, b);
    }
}

/// The pieces of two texts with a separator between them are the pieces of
/// the first followed by the pieces of the second.
pub proof fn lemma_split_joined(head: Seq<char>, sep: char, tail: Seq<char>, a: char, b: char)
    requires
        sep == a || sep == b,
    ensures
        split_either(head + seq![sep] + tail, a, b) == split_either(head, a, b) + split_either(
            tail,
            a,
            b,
        ),
    decreases tail.len(),
{
    let joined = head + seq![sep] + tail;
    let first = split_either(head, a, b);
    if tail.len() == 0 {
        assert(joined.drop_last() =~= head);
        assert(first.push(Seq::<char>::empty()) =~= first + seq![Seq::<char>::empty()]);
    } else {
        let shorter = tail.drop_last();
        lemma_split_joined(head, sep, shorter, a, b);
        lemma_split_has_a_piece(shorter, a, b);
        assert(joined.drop_last() =~= head + seq![sep] + shorter);
        assert(joined.last() == tail.last());
        let second = split_either(shorter, a, b);
        if tail.last() == a || tail.last() == b {
            assert((first + second).push(Seq::<char>::empty()) =~= first + second.push(
                Seq::<char>::empty(),
            ));
        } else {
            let grown = second.last().push(tail.last());
            assert((first + second).update(first.len() + second.len() - 1, grown) =~= first
                + second.update(second.len() - 1, grown));
        }
    }
}

/// Whether `c` is whitespace.
pub fn char_is_whitespace(c: char) -> (b: bool)
    ensures
        b == is_whitespace(c),
{
    let u: u32 = c as u32;
    (0x09 <= u && u <= 0x0D) || u == 0x20 || u == 0x85 || u == 0xA0 || u == 0x1680 || (0x2000 <= u
        && u <= 0x200A) || u == 0x2028 || u == 0x2029 || u == 0x202F || u == 0x205F || u == 0x3000
}

/// The number that the digit `c` stands for, or `None` if `c` is no digit.
pub fn char_to_digit(c: char) -> (r: Option<u8>)
    ensures
        r is Some <==> is_digit(c),
        r matches Some(d) ==> d as nat == digit_value(c) && d < 10,
{
    let u: u32 = c as u32;
    if 0x30 <= u && u <= 0x39 {
        Some((u - 0x30) as u8)
    } else {
        None
    }
}

/// The characters of `s`, in order.
pub fn chars_of(s: &str) -> (v: Vec<char>)
    ensures
        v@ == s@,
{
    let mut v: Vec<char> = Vec::new();
    for c in it: s.chars()
        invariant
            v@ == it.seq().take(it.index() as int),
    {
        v.push(c);
    }
    v
}

/// The bounds `(start, end)` of what is left of `v` once leading and trailing
/// whitespace is cut off.
pub fn trim_bounds(v: &Vec<char>) -> (r: (usize, usize))
    ensures
        r.0 <= r.1 <= v.len(),
        v@.subrange(r.0 as int, r.1 as int) == trimmed(v@),
{
    let len: usize = v.len();
    let mut start: usize = 0;
    assert(v@.subrange(0, len as int) =~= v@);
    while start < len && char_is_whitespace(v[start])
        invariant
            start <= len == v.len(),
            trim_start_of(v@) == trim_start_of(v@.subrange(start as int, len as int)),
        decreases len - start,
    {
        assert(v@.subrange(start as int, len as int).drop_first() =~= v@.subrange(
            start as int + 1,
            len as int,
        ));
        start = start + 1;
    }
    let ghost rest = v@.subrange(start as int, len as int);
    assert(trim_start_of(v@) == rest);
    let mut end: usize = len;
    while end > start && char_is_whitespace(v[end - 1])
        invariant
            start <= end <= len == v.len(),
            trim_end_of(rest) == trim_end_of(v@.subrange(start as int, end as int)),
        decreases end - start,
    {
        assert(v@.subrange(start as int, end as int).drop_last() =~= v@.subrange(
            start as int,
            end as int - 1,
        ));
        end = end - 1;
    }
    (start, end)
}

/// Reads the characters of `v` from `start` up to `end` as an unsigned decimal
/// numeral of at most `max`.
pub(crate) fn parse_unsigned_in(v: &Vec<char>, start: usize, end: usize, max: u64) -> (r: Result<
    u64,
    ParseFault,
>)
    requires
        start <= end <= v.len(),
    ensures
        match r {
            Ok(n) => parsed_unsigned(v@.subrange(start as int, end as int), max as nat) == Ok::<
                nat,
                ParseFault,
            >(n as nat) && n <= max,
            Err(e) => parsed_unsigned(v@.subrange(start as int, end as int), max as nat) == Err::<
                nat,
                ParseFault,
            >(e),
        },
{
    let ghost s = v@.subrange(start as int, end as int);
    if start == end {
        return Err(ParseFault::Empty);
    }
    let first: usize = if v[start] == '+' {
        start + 1
    } else {
        start
    };
    assert(s[0] == v[start as int]);
    let ghost d = v@.subrange(first as int, end as int);
    assert(d =~= if s[0] == '+' {
        s.drop_first()
    } else {
        s
    });
    if first == end {
        return Err(ParseFault::InvalidDigit);
    }
    let mut acc: u64 = 0;
    let mut i: usize = first;
    assert(d.take(0) =~= Seq::<char>::empty());
    while i < end
        invariant
            first <= i <= end <= v.len(),
            d == v@.subrange(first as int, end as int),
            d.len() > 0,
            parsed_unsigned(v@.subrange(start as int, end as int), max as nat) == numeral(
                d,
                max as nat,
            ),
            numeral(d.take(i - first), max as nat) == Ok::<nat, ParseFault>(acc as nat),
            acc <= max,
        decreases end - i,
    {
        let ghost k = i - first;
        assert(d.take(k + 1).drop_last() =~= d.take(k));
        assert(d.take(k + 1).last() == v[i as int]);
        match char_to_digit(v[i]) {
            None => {
                proof {
                    lemma_numeral_prefix_fault(d, k + 1, max as nat);
                }
                return Err(ParseFault::InvalidDigit);
            },
            Some(digit) => {
                let next: u128 = (acc as u128) * 10 + (digit as u128);
                if next > max as u128 {
                    proof {
                        lemma_numeral_prefix_fault(d, k + 1, max as nat);
                    }
                    return Err(ParseFault::TooLarge);
                }
                acc = next as u64;
            },
        }
        i = i + 1;
    }
    assert(d.take(d.len() as int) =~= d);
    Ok(acc)
}

/// Reads `s` as an unsigned decimal numeral of at most `max`.
pub fn parse_unsigned(s: &str, max: u64) -> (r: Result<u64, ParseFault>)
    ensures
        match r {
            Ok(n) => parsed_unsigned(s@, max as nat) == Ok::<nat, ParseFault>(n as nat) && n <= max,
            Err(e) => parsed_unsigned(s@, max as nat) == Err::<nat, ParseFault>(e),
        },
{
    let v = chars_of(s);
    assert(v@.subrange(0, v@.len() as int) =~= v@);
    parse_unsigned_in(&v, 0, v.len(), max)
}

/// Reads `s`, with the whitespace around it cut off, as an unsigned decimal
/// numeral of at most `max`.
pub fn parse_trimmed(s: &str, max: u64) -> (r: Result<u64, ParseFault>)
    ensures
        match r {
            Ok(n) => parsed_unsigned(trimmed(s@), max as nat) == Ok::<nat, ParseFault>(n as nat)
                && n <= max,
            Err(e) => parsed_unsigned(trimmed(s@), max as nat) == Err::<nat, ParseFault>(e),
        },
{
    let v = chars_of(s);
    let (start, end) = trim_bounds(&v);
    parse_unsigned_in(&v, start, end, max)
}

/// The one-character text of the digit `d`.
fn digit_text(d: u8) -> (r: &'static str)
    requires
        d < 10,
    ensures
        r@ == seq![digit_char(d as nat)],
{
    proof {
        reveal_strlit("0");
        reveal_strlit("1");
        reveal_strlit("2");
        reveal_strlit("3");
        reveal_strlit("4");
        reveal_strlit("5");
        reveal_strlit("6");
        reveal_strlit("7");
        reveal_strlit("8");
        reveal_strlit("9");
    }
    match d {
        0 => "0",
        1 => "1",
        2 => "2",
        3 => "3",
        4 => "4",
        5 => "5",
        6 => "6",
        7 => "7",
        8 => "8",
        _ => "9",
    }
}

/// Appends the shortest base-ten spelling of `n` to `out`.
pub fn push_decimal(out: &mut String, n: u64)
    ensures
        final(out)@ == old(out)@ + decimal_text(n as nat),
    decreases n,
{
    if n >= 10 {
        push_decimal(out, n / 10);
    }
    out.append(digit_text((n % 10) as u8));
    proof {
        if n >= 10 {
            assert(old(out)@ + decimal_text((n / 10) as nat) + seq![digit_char((n % 10) as nat)]
                =~= old(out)@ + decimal_text(n as nat));
        } else {
            assert(decimal_text(n as nat) =~= seq![digit_char(n as nat)]);
        }
    }
}

/// The shortest base-ten spelling of `n`.
pub fn format_decimal(n: u64) -> (s: String)
    ensures
        s@ == decimal_text(n as nat),
{
    let mut s = String::new();
    push_decimal(&mut s, n);
    assert(Seq::<char>::empty() + decimal_text(n as nat) =~= decimal_text(n as nat));
    s
}

/// Cuts `v` at every occurrence of `a` and of `b`.
fn split_at_either(v: &Vec<char>, a: char, b: char) -> (pieces: Vec<Vec<char>>)
    ensures
        field_views(pieces@) == split_either(v@, a, b),
        pieces.len() >= 1,
{
    let mut done: Vec<Vec<char>> = Vec::new();
    let mut current: Vec<char> = Vec::new();
    let mut i: usize = 0;
    assert(v@.take(0) =~= Seq::<char>::empty());
    assert(field_views(done@).push(current@) =~= seq![Seq::<char>::empty()]);
    while i < v.len()
        invariant
            i <= v.len(),
            field_views(done@).push(current@) == split_either(v@.take(i as int), a, b),
        decreases v.len() - i,
    {
        let c: char = v[i];
        let ghost before = split_either(v@.take(i as int), a, b);
        assert(v@.take(i + 1).drop_last() =~= v@.take(i as int));
        assert(v@.take(i + 1).last() == c);
        if c == a || c == b {
            done.push(current);
            current = Vec::new();
            assert(field_views(done@) =~= before);
            assert(field_views(done@).push(current@) =~= before.push(Seq::<char>::empty()));
        } else {
            current.push(c);
            assert(field_views(done@).push(current@) =~= before.update(
                before.len() - 1,
                before.last().push(c),
            ));
        }
        i = i + 1;
    }
    assert(v@.take(v.len() as int) =~= v@);
    let ghost all = field_views(done@).push(current@);
    done.push(current);
    assert(field_views(done@) =~= all);
    done
}

/// Cuts `v` at every occurrence of `sep`.
pub fn split_on(v: &Vec<char>, sep: char) -> (fields: Vec<Vec<char>>)
    ensures
        field_views(fields@) == split_fields(v@, sep),
        fields.len() >= 1,
{
    split_at_either(v, sep, sep)
}

/// Cuts `v` into its lines.
pub fn lines_of(v: &Vec<char>) -> (lines: Vec<Vec<char>>)
    ensures
        field_views(lines@) == split_lines(v@),
        lines.len() >= 1,
{
    split_at_either(v, '\r', '\n')
}

/// Whether the characters of `v` from `start` up to `end` are exactly those of `word`.
pub(crate) fn range_equals(v: &Vec<char>, start: usize, end: usize, word: &Vec<char>) -> (b: bool)
    requires
        start <= end <= v.len(),
    ensures
        b == (v@.subrange(start as int, end as int) == word@),
{
    if end - start != word.len() {
        return false;
    }
    let ghost s = v@.subrange(start as int, end as int);
    let mut i: usize = 0;
    while i < word.len()
        invariant
            i <= word.len() == end - start,
            start <= end <= v.len(),
            s == v@.subrange(start as int, end as int),
            forall|j: int| 0 <= j < i ==> s[j] == word@[j],
        decreases word.len() - i,
    {
        if v[start + i] != word[i] {
            assert(s[i as int] != word@[i as int]);
            return false;
        }
        i = i + 1;
    }
    assert(s =~= word@);
    true
}

} // verus!
