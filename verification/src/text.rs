//! Character-level helpers shared by the parsers: decimal and hexadecimal
//! digits, numbers written as digit runs, and searching inside a text.

use vstd::prelude::*;
use vstd::std_specs::iter::IteratorSpec;

verus! {

/// `c` is one of `0`..`9`.
pub open spec fn is_decimal_digit(c: char) -> bool {
    '0' <= c && c <= '9'
}

/// `c` is a hexadecimal digit in either case.
pub open spec fn is_hex_digit(c: char) -> bool {
    ('0' <= c && c <= '9') || ('a' <= c && c <= 'f') || ('A' <= c && c <= 'F')
}

/// Numeric value of a decimal or hexadecimal digit.
pub open spec fn digit_value(c: char) -> nat {
    if '0' <= c && c <= '9' {
        (c as u32 - '0' as u32) as nat
    } else if 'a' <= c && c <= 'f' {
        (c as u32 - 'a' as u32 + 10) as nat
    } else if 'A' <= c && c <= 'F' {
        (c as u32 - 'A' as u32 + 10) as nat
    } else {
        0
    }
}

/// The number that the digits of `s` denote in the given radix, most
/// significant digit first. The empty text denotes zero.
pub open spec fn number_value(s: Seq<char>, radix: nat) -> nat
    decreases s.len(),
{
    if s.len() == 0 {
        0
    } else {
        number_value(s.drop_last(), radix) * radix + digit_value(s.last())
    }
}

/// `c` is a digit of the given radix. Only radix 10 and radix 16 are used; any
/// radix other than 16 reads as decimal.
pub open spec fn is_digit_of(c: char, radix: nat) -> bool {
    if radix == 16 {
        is_hex_digit(c)
    } else {
        is_decimal_digit(c)
    }
}

/// Every character of `s` is a digit of the given radix.
pub open spec fn all_digits(s: Seq<char>, radix: nat) -> bool {
    forall|i: int| 0 <= i < s.len() ==> is_digit_of(#[trigger] s[i], radix)
}

/// The number written by `s`, when `s` is a non-empty run of digits of the
/// given radix whose value does not exceed `max`. Leading zeros are allowed
/// and the run may be of any length.
pub open spec fn bounded_number(s: Seq<char>, radix: nat, max: nat) -> Option<nat> {
    if s.len() > 0 && all_digits(s, radix) && number_value(s, radix) <= max {
        Some(number_value(s, radix))
    } else {
        None
    }
}

/// A number never shrinks when more digits are written behind it.
pub proof fn lemma_number_value_grows(s: Seq<char>, k: int, radix: nat)
    requires
        0 <= k <= s.len(),
        radix >= 1,
    ensures
        number_value(s.take(k), radix) <= number_value(s, radix),
    decreases s.len(),
{
    if k == s.len() {
        assert(s.take(k) == s);
    } else {
        lemma_number_value_grows(s.drop_last(), k, radix);
        assert(s.drop_last().take(k) == s.take(k));
        let v = number_value(s.drop_last(), radix);
        assert(v * radix >= v) by (nonlinear_arith)
            requires
                radix >= 1,
                v >= 0,
        ;
    }
}

/// Value of `c` as a digit of the given radix, if it is one.
pub fn digit_of(c: char, hex: bool) -> (d: Option<u8>)
    ensures
        d is Some <==> is_digit_of(c, if hex { 16 } else { 10 }),
        d matches Some(v) ==> v == digit_value(c) && v < (if hex { 16u8 } else { 10u8 }),
{
    let n: u32 = c as u32;
    if n >= 48 && n <= 57 {
        Some((n - 48) as u8)
    } else if hex && n >= 97 && n <= 102 {
        Some((n - 97 + 10) as u8)
    } else if hex && n >= 65 && n <= 70 {
        Some((n - 65 + 10) as u8)
    } else {
        None
    }
}

/// Reads `chars[from..to]` as a number of radix 10, or of radix 16 when `hex`
/// is set, and returns it unless the text is empty, holds another character,
/// or denotes more than `max`.
pub(crate) fn parse_number(chars: &Vec<char>, from: usize, to: usize, hex: bool, max: u32) -> (r: Option<
    u32,
>)
    requires
        from <= to <= chars.len(),
    ensures
        r is Some <==> bounded_number(
            chars@.subrange(from as int, to as int),
            if hex { 16 } else { 10 },
            max as nat,
        ) is Some,
        r matches Some(v) ==> bounded_number(
            chars@.subrange(from as int, to as int),
            if hex { 16 } else { 10 },
            max as nat,
        ) == Some(v as nat),
{
    let ghost s = chars@.subrange(from as int, to as int);
    let ghost radix: nat = if hex { 16 } else { 10 };
    if from == to {
        return None;
    }
    let base: u64 = if hex { 16 } else { 10 };
    let mut acc: u64 = 0;
    let mut i: usize = from;
    while i < to
        invariant
            from <= i <= to <= chars.len(),
            s == chars@.subrange(from as int, to as int),
            radix == (if hex { 16nat } else { 10nat }),
            base == radix,
            acc <= max,
            acc == number_value(s.take(i - from), radix),
            all_digits(s.take(i - from), radix),
        decreases to - i,
    {
        let c = chars[i];
        proof {
            assert(s[i - from] == c);
            assert(s.take(i - from + 1).drop_last() == s.take(i - from));
            assert(s.take(i - from + 1).last() == c);
        }
        match digit_of(c, hex) {
            None => {
                assert(!is_digit_of(s[i - from], radix));
                return None;
            },
            Some(d) => {
                assert(acc * base + d <= 0xffff_ffff * 16 + 15) by (nonlinear_arith)
                    requires
                        acc <= 0xffff_ffff,
                        base <= 16,
                        d <= 15,
                ;
                let next: u64 = acc * base + d as u64;
                if next > max as u64 {
                    proof {
                        lemma_number_value_grows(s, i - from + 1, radix);
                    }
                    return None;
                }
                acc = next;
            },
        }
        i = i + 1;
    }
    proof {
        assert(s.take(to - from) == s);
    }
    Some(acc as u32)
}

/// Index of the first `c` in `s`, or the length of `s` when there is none.
pub open spec fn index_of_char(s: Seq<char>, c: char) -> int
    decreases s.len(),
{
    if s.len() == 0 {
        0
    } else if s[0] == c {
        0
    } else {
        1 + index_of_char(s.drop_first(), c)
    }
}

/// What `index_of_char` finds: the least index that holds `c`.
pub proof fn lemma_index_of_char(s: Seq<char>, c: char)
    ensures
        0 <= index_of_char(s, c) <= s.len(),
        forall|i: int| 0 <= i < index_of_char(s, c) ==> s[i] != c,
        index_of_char(s, c) < s.len() ==> s[index_of_char(s, c)] == c,
    decreases s.len(),
{
    if s.len() == 0 || s[0] == c {
    } else {
        lemma_index_of_char(s.drop_first(), c);
        let p = index_of_char(s.drop_first(), c);
        assert forall|i: int| 0 <= i < 1 + p implies s[i] != c by {
            if i > 0 {
                assert(s.drop_first()[i - 1] == s[i]);
            }
        }
    }
}

/// An index with the properties of the first `c` is the one `index_of_char`
/// finds.
pub proof fn lemma_index_of_char_unique(s: Seq<char>, c: char, p: int)
    requires
        0 <= p <= s.len(),
        forall|i: int| 0 <= i < p ==> s[i] != c,
        p < s.len() ==> s[p] == c,
    ensures
        index_of_char(s, c) == p,
{
    lemma_index_of_char(s, c);
}

/// Finds the first `c` in `chars[from..to]`; returns `to` when there is none.
pub(crate) fn find_char(chars: &Vec<char>, from: usize, to: usize, c: char) -> (p: usize)
    requires
        from <= to <= chars.len(),
    ensures
        from <= p <= to,
        p - from == index_of_char(chars@.subrange(from as int, to as int), c),
{
    let ghost s = chars@.subrange(from as int, to as int);
    let mut i: usize = from;
    while i < to && chars[i] != c
        invariant
            from <= i <= to <= chars.len(),
            s == chars@.subrange(from as int, to as int),
            forall|j: int| 0 <= j < i - from ==> s[j] != c,
        decreases to - i,
    {
        assert(s[i - from] == chars[i as int]);
        i = i + 1;
    }
    proof {
        if i < to {
            assert(s[i - from] == chars[i as int]);
        }
        lemma_index_of_char_unique(s, c, i - from);
    }
    i
}

/// The fields of `s` between occurrences of `sep`. A text without `sep` is one
/// field, the empty text is one empty field, and a trailing `sep` is followed
/// by an empty field.
pub open spec fn split(s: Seq<char>, sep: char) -> Seq<Seq<char>>
    decreases s.len(),
{
    let p = index_of_char(s, sep);
    if 0 <= p < s.len() {
        seq![s.take(p)] + split(s.skip(p + 1), sep)
    } else {
        seq![s]
    }
}

/// `spans` marks, inside `chars[from..to]`, the given fields in order.
pub open spec fn spans_mark(
    chars: Seq<char>,
    from: int,
    to: int,
    spans: Seq<(usize, usize)>,
    fields: Seq<Seq<char>>,
) -> bool {
    &&& spans.len() == fields.len()
    &&& forall|k: int|
        0 <= k < spans.len() ==> from <= (#[trigger] spans[k]).0 <= spans[k].1 <= to
            && chars.subrange(spans[k].0 as int, spans[k].1 as int) == fields[k]
}

/// Splits `chars[from..to]` at every `sep` and returns where each field lies.
pub(crate) fn split_spans(chars: &Vec<char>, from: usize, to: usize, sep: char) -> (out: Vec<
    (usize, usize),
>)
    requires
        from <= to <= chars.len(),
    ensures
        spans_mark(
            chars@,
            from as int,
            to as int,
            out@,
            split(chars@.subrange(from as int, to as int), sep),
        ),
{
    let ghost fields = split(chars@.subrange(from as int, to as int), sep);
    let mut out: Vec<(usize, usize)> = Vec::new();
    let ghost mut done: Seq<Seq<char>> = Seq::empty();
    let mut pos: usize = from;
    loop
        invariant_except_break
            from <= pos <= to <= chars.len(),
            fields == done + split(chars@.subrange(pos as int, to as int), sep),
            spans_mark(chars@, from as int, to as int, out@, done),
        ensures
            spans_mark(chars@, from as int, to as int, out@, fields),
        decreases to - pos,
    {
        let ghost rest = chars@.subrange(pos as int, to as int);
        let ghost before = out@;
        let p = find_char(chars, pos, to, sep);
        out.push((pos, p));
        proof {
            lemma_index_of_char(rest, sep);
            assert(rest.take(p - pos) == chars@.subrange(pos as int, p as int));
            assert forall|k: int| 0 <= k < out@.len() implies from <= (#[trigger] out@[k]).0
                <= out@[k].1 <= to && chars@.subrange(out@[k].0 as int, out@[k].1 as int) == (done
                + seq![rest.take(p - pos)])[k] by {
                if k < before.len() {
                    assert(out@[k] == before[k]);
                }
            }
        }
        if p == to {
            proof {
                assert(rest.take(p - pos) == rest);
                done = done + seq![rest];
            }
            break ;
        }
        proof {
            assert(rest.skip(p - pos + 1) == chars@.subrange(p + 1, to as int));
            assert(done + (seq![rest.take(p - pos)] + split(rest.skip(p - pos + 1), sep)) == (done
                + seq![rest.take(p - pos)]) + split(rest.skip(p - pos + 1), sep));
            done = done + seq![rest.take(p - pos)];
        }
        pos = p + 1;
    }
    out
}

/// The characters of a string slice, in order.
pub fn chars_of(s: &str) -> (out: Vec<char>)
    ensures
        out@ == s@,
{
    let mut out: Vec<char> = Vec::new();
    let mut it = s.chars();
    for c in iter: it
        invariant
            out@ == iter.seq().take(iter.index() as int),
            iter.seq() == s@,
    {
        out.push(c);
    }
    out
}

} // verus!
