//! Literal socket addresses: `a.b.c.d:port` and `[v6]:port`.
//!
//! An IPv4 address is four decimal fields of one to three digits, none above
//! 255 and none with a leading zero. An IPv6 address is eight groups of one
//! to four hexadecimal digits; `::` may stand once for one or more groups of
//! zero, and a dotted quad may stand for the last two groups. A port is a run
//! of decimal digits that denotes at most 65535. In brackets, `%` and a
//! decimal scope identifier may follow the address. Nothing else may stand in
//! the text, not even blanks.
//!
//! `socket_address_of` states this grammar over the characters of a text;
//! `SocketAddress::from_text` is the executable parser and is proved to
//! compute it.

use crate::text::{
    bounded_number, chars_of, find_char, index_of_char, lemma_index_of_char_unique, parse_number,
    spans_mark, split, split_spans,
};
use vstd::prelude::*;

verus! {

/// An IP address together with a port.
#[derive(Clone, Copy, Debug, PartialEq, Eq, Hash)]
pub enum SocketAddress {
    /// IPv4: the four octets in network order, and the port.
    V4 { octets: [u8; 4], port: u16 },
    /// IPv6: the eight 16-bit groups in network order, the scope identifier
    /// (zero when none was written), and the port.
    V6 { segments: [u16; 8], scope_id: u32, port: u16 },
}

/// Mathematical value of a socket address.
pub enum AddressModel {
    V4 { octets: Seq<u8>, port: u16 },
    V6 { segments: Seq<u16>, scope_id: u32, port: u16 },
}

impl View for SocketAddress {
    type V = AddressModel;

    open spec fn view(&self) -> AddressModel {
        match *self {
            SocketAddress::V4 { octets, port } => AddressModel::V4 { octets: octets@, port },
            SocketAddress::V6 { segments, scope_id, port } => AddressModel::V6 {
                segments: segments@,
                scope_id,
                port,
            },
        }
    }
}

/// One field of a dotted quad: one to three decimal digits, no leading zero
/// before another digit, at most 255.
pub open spec fn octet_of(f: Seq<char>) -> Option<u8> {
    if f.len() <= 3 && (f.len() <= 1 || f[0] != '0') {
        match bounded_number(f, 10, 255) {
            Some(v) => Some(v as u8),
            None => None,
        }
    } else {
        None
    }
}

/// A dotted quad: exactly four octet fields separated by `.`.
pub open spec fn ipv4_of(s: Seq<char>) -> Option<Seq<u8>> {
    let f = split(s, '.');
    if f.len() == 4 && octet_of(f[0]) is Some && octet_of(f[1]) is Some && octet_of(f[2]) is Some
        && octet_of(f[3]) is Some {
        Some(seq![octet_of(f[0])->0, octet_of(f[1])->0, octet_of(f[2])->0, octet_of(f[3])->0])
    } else {
        None
    }
}

/// A port: a non-empty run of decimal digits that denotes at most 65535.
pub open spec fn port_of(s: Seq<char>) -> Option<u16> {
    match bounded_number(s, 10, 65535) {
        Some(v) => Some(v as u16),
        None => None,
    }
}

/// `a.b.c.d:port`.
pub open spec fn socket_v4_of(s: Seq<char>) -> Option<AddressModel> {
    let p = index_of_char(s, ':');
    if 0 <= p < s.len() {
        match (ipv4_of(s.take(p)), port_of(s.skip(p + 1))) {
            (Some(octets), Some(port)) => Some(AddressModel::V4 { octets, port }),
            _ => None,
        }
    } else {
        None
    }
}

/// One group of an IPv6 address: one to four hexadecimal digits.
pub open spec fn group_of(f: Seq<char>) -> Option<u16> {
    if f.len() <= 4 {
        match bounded_number(f, 16, 0xffff) {
            Some(v) => Some(v as u16),
            None => None,
        }
    } else {
        None
    }
}

/// The 16-bit group that two octets of an embedded dotted quad make.
pub open spec fn word_of(hi: u8, lo: u8) -> u16 {
    (hi as int * 256 + lo as int) as u16
}

/// The groups that colon-separated fields denote. Every field is a group,
/// except that the last one may be a dotted quad, which stands for two
/// groups, when `v4_last` is set.
pub open spec fn groups_of(fields: Seq<Seq<char>>, v4_last: bool) -> Option<Seq<u16>>
    decreases fields.len(),
{
    if fields.len() == 0 {
        Some(Seq::empty())
    } else {
        match groups_of(fields.drop_last(), false) {
            None => None,
            Some(g) => match group_of(fields.last()) {
                Some(v) => Some(g.push(v)),
                None => if v4_last {
                    match ipv4_of(fields.last()) {
                        Some(o) => Some(g.push(word_of(o[0], o[1])).push(word_of(o[2], o[3]))),
                        None => None,
                    }
                } else {
                    None
                },
            },
        }
    }
}

/// Index of the first `::` in `s`, or the length of `s` when there is none.
pub open spec fn index_of_gap(s: Seq<char>) -> int
    decreases s.len(),
{
    if s.len() < 2 {
        s.len() as int
    } else if s[0] == ':' && s[1] == ':' {
        0
    } else {
        1 + index_of_gap(s.drop_first())
    }
}

/// The colon-separated fields of one side of `::`; an empty side has none.
pub open spec fn colon_fields(s: Seq<char>) -> Seq<Seq<char>> {
    if s.len() == 0 {
        Seq::empty()
    } else {
        split(s, ':')
    }
}

/// `n` groups of zero.
pub open spec fn zero_groups(n: int) -> Seq<u16> {
    Seq::new(n as nat, |i: int| 0u16)
}

/// The eight groups of an address written with `::`, given the texts before
/// and after it: the groups on both sides are at most seven, and the gap
/// stands for the zero groups that are missing. Only the text after the gap
/// may end in a dotted quad.
pub open spec fn gapped_ipv6_of(before: Seq<char>, after: Seq<char>) -> Option<Seq<u16>> {
    match (groups_of(colon_fields(before), false), groups_of(colon_fields(after), true)) {
        (Some(head), Some(tail)) => if head.len() + tail.len() <= 7 {
            Some(head + zero_groups(8 - head.len() - tail.len()) + tail)
        } else {
            None
        },
        _ => None,
    }
}

/// The eight groups of an IPv6 address. Without `::` the text holds all
/// eight; with `::` the groups before and after it are at most seven and the
/// gap stands for the zero groups that are missing. A dotted quad may stand
/// for the last two groups.
pub open spec fn ipv6_of(s: Seq<char>) -> Option<Seq<u16>> {
    let p = index_of_gap(s);
    if 0 <= p < s.len() {
        gapped_ipv6_of(s.take(p), s.skip(p + 2))
    } else {
        match groups_of(colon_fields(s), true) {
            Some(g) => if g.len() == 8 {
                Some(g)
            } else {
                None
            },
            None => None,
        }
    }
}

/// A scope identifier: a non-empty run of decimal digits that fits 32 bits.
pub open spec fn scope_of(s: Seq<char>) -> Option<u32> {
    match bounded_number(s, 10, 0xffff_ffff) {
        Some(v) => Some(v as u32),
        None => None,
    }
}

/// `[v6]:port` or `[v6%scope]:port`.
pub open spec fn socket_v6_of(s: Seq<char>) -> Option<AddressModel> {
    let q = index_of_char(s, ']');
    if s.len() > 0 && s[0] == '[' && 0 < q && q + 1 < s.len() && s[q + 1] == ':' {
        let inner = s.subrange(1, q);
        let r = index_of_char(inner, '%');
        let scope = if 0 <= r < inner.len() {
            scope_of(inner.skip(r + 1))
        } else {
            Some(0u32)
        };
        match (ipv6_of(inner.take(r)), scope, port_of(s.skip(q + 2))) {
            (Some(segments), Some(scope_id), Some(port)) => Some(
                AddressModel::V6 { segments, scope_id, port },
            ),
            _ => None,
        }
    } else {
        None
    }
}

/// The socket address that a text denotes, if it is one.
pub open spec fn socket_address_of(s: Seq<char>) -> Option<AddressModel> {
    match socket_v4_of(s) {
        Some(a) => Some(a),
        None => socket_v6_of(s),
    }
}

/// No address without a colon: both forms separate the port by one.
pub proof fn address_needs_a_colon(s: Seq<char>)
    requires
        forall|i: int| 0 <= i < s.len() ==> s[i] != ':',
    ensures
        socket_address_of(s) is None,
{
    lemma_index_of_char_unique(s, ':', s.len() as int);
}

/// Reads `chars[from..to]` as one field of a dotted quad.
pub(crate) fn parse_octet(chars: &Vec<char>, from: usize, to: usize) -> (r: Option<u8>)
    requires
        from <= to <= chars.len(),
    ensures
        r == octet_of(chars@.subrange(from as int, to as int)),
{
    let ghost f = chars@.subrange(from as int, to as int);
    if to - from > 3 {
        return None;
    }
    if to - from > 1 && chars[from] == '0' {
        assert(f[0] == '0');
        return None;
    }
    proof {
        if f.len() > 1 {
            assert(f[0] == chars@[from as int]);
        }
    }
    match parse_number(chars, from, to, false, 255) {
        Some(v) => Some(v as u8),
        None => None,
    }
}

/// Reads `chars[from..to]` as a dotted quad.
pub(crate) fn parse_ipv4(chars: &Vec<char>, from: usize, to: usize) -> (r: Option<[u8; 4]>)
    requires
        from <= to <= chars.len(),
    ensures
        r is Some <==> ipv4_of(chars@.subrange(from as int, to as int)) is Some,
        r matches Some(o) ==> ipv4_of(chars@.subrange(from as int, to as int)) == Some(o@),
{
    let spans = split_spans(chars, from, to, '.');
    if spans.len() != 4 {
        return None;
    }
    let a = parse_octet(chars, spans[0].0, spans[0].1);
    let b = parse_octet(chars, spans[1].0, spans[1].1);
    let c = parse_octet(chars, spans[2].0, spans[2].1);
    let d = parse_octet(chars, spans[3].0, spans[3].1);
    match (a, b, c, d) {
        (Some(a), Some(b), Some(c), Some(d)) => {
            let o: [u8; 4] = [a, b, c, d];
            assert(o@ == seq![a, b, c, d]);
            Some(o)
        },
        _ => None,
    }
}

/// Reads `chars[from..to]` as one group of an IPv6 address.
pub(crate) fn parse_group(chars: &Vec<char>, from: usize, to: usize) -> (r: Option<u16>)
    requires
        from <= to <= chars.len(),
    ensures
        r == group_of(chars@.subrange(from as int, to as int)),
{
    if to - from > 4 {
        return None;
    }
    match parse_number(chars, from, to, true, 0xffff) {
        Some(v) => Some(v as u16),
        None => None,
    }
}

/// `s` holds `::` at index `i`.
pub open spec fn gap_at(s: Seq<char>, i: int) -> bool {
    0 <= i && i + 1 < s.len() && s[i] == ':' && s[i + 1] == ':'
}

/// What `index_of_gap` finds: the least index that holds `::`.
pub proof fn lemma_index_of_gap(s: Seq<char>)
    ensures
        0 <= index_of_gap(s) <= s.len(),
        forall|i: int| 0 <= i < index_of_gap(s) ==> !#[trigger] gap_at(s, i),
        index_of_gap(s) < s.len() ==> gap_at(s, index_of_gap(s)),
    decreases s.len(),
{
    if s.len() < 2 || (s[0] == ':' && s[1] == ':') {
    } else {
        let t = s.drop_first();
        lemma_index_of_gap(t);
        let p = index_of_gap(t);
        assert forall|i: int| 0 <= i < 1 + p implies !#[trigger] gap_at(s, i) by {
            if i > 0 {
                assert(!gap_at(t, i - 1));
                if i + 1 < s.len() {
                    assert(t[i - 1] == s[i] && t[i] == s[i + 1]);
                }
            }
        }
        if p < t.len() {
            assert(gap_at(t, p));
            assert(t[p] == s[p + 1] && t[p + 1] == s[p + 2]);
        }
    }
}

/// An index with the properties of the first `::` is the one `index_of_gap`
/// finds.
pub proof fn lemma_index_of_gap_unique(s: Seq<char>, p: int)
    requires
        0 <= p <= s.len(),
        forall|i: int| 0 <= i < p ==> !#[trigger] gap_at(s, i),
        p < s.len() ==> gap_at(s, p),
    ensures
        index_of_gap(s) == p,
{
    lemma_index_of_gap(s);
    let q = index_of_gap(s);
    if q < p {
        assert(gap_at(s, q));
    }
    if p < q {
        assert(gap_at(s, p));
    }
}

/// Finds the first `::` in `chars[from..to]`; returns `to` when there is none.
pub(crate) fn find_gap(chars: &Vec<char>, from: usize, to: usize) -> (p: usize)
    requires
        from <= to <= chars.len(),
    ensures
        from <= p <= to,
        p - from == index_of_gap(chars@.subrange(from as int, to as int)),
{
    let ghost s = chars@.subrange(from as int, to as int);
    let mut i: usize = from;
    while i < to
        invariant
            from <= i <= to <= chars.len(),
            s == chars@.subrange(from as int, to as int),
            forall|j: int| 0 <= j < i - from ==> !#[trigger] gap_at(s, j),
        decreases to - i,
    {
        if i + 1 < to && chars[i] == ':' && chars[i + 1] == ':' {
            proof {
                assert(s[i - from] == chars@[i as int] && s[i - from + 1] == chars@[i + 1]);
                assert(gap_at(s, i - from));
                lemma_index_of_gap_unique(s, i - from);
            }
            return i;
        }
        proof {
            if i + 1 < to {
                assert(s[i - from] == chars@[i as int] && s[i - from + 1] == chars@[i + 1]);
            }
            assert(!gap_at(s, i - from));
        }
        i = i + 1;
    }
    proof {
        lemma_index_of_gap_unique(s, to - from);
    }
    to
}

/// The texts that `spans` mark in `chars`.
pub open spec fn span_texts(chars: Seq<char>, spans: Seq<(usize, usize)>) -> Seq<Seq<char>> {
    Seq::new(spans.len(), |k: int| chars.subrange(spans[k].0 as int, spans[k].1 as int))
}

/// Every span lies inside `chars`.
pub open spec fn spans_inside(chars: Seq<char>, spans: Seq<(usize, usize)>) -> bool {
    forall|k: int| 0 <= k < spans.len() ==> (#[trigger] spans[k]).0 <= spans[k].1 <= chars.len()
}

/// Once a field before the last is no group, no longer list of fields
/// denotes groups.
pub proof fn lemma_groups_fail_early(fields: Seq<Seq<char>>, k: int, v4_last: bool)
    requires
        0 <= k < fields.len(),
        groups_of(fields.take(k), false) is None,
    ensures
        groups_of(fields, v4_last) is None,
    decreases fields.len(),
{
    if k == fields.len() - 1 {
        assert(fields.drop_last() == fields.take(k));
    } else {
        assert(fields.drop_last().take(k) == fields.take(k));
        lemma_groups_fail_early(fields.drop_last(), k, false);
    }
}

/// Where the colon-separated fields of `chars[from..to]` lie; none when the
/// range is empty.
pub(crate) fn colon_spans(chars: &Vec<char>, from: usize, to: usize) -> (out: Vec<(usize, usize)>)
    requires
        from <= to <= chars.len(),
    ensures
        spans_inside(chars@, out@),
        span_texts(chars@, out@) == colon_fields(chars@.subrange(from as int, to as int)),
{
    let out = if from == to {
        Vec::new()
    } else {
        split_spans(chars, from, to, ':')
    };
    proof {
        let fields = colon_fields(chars@.subrange(from as int, to as int));
        assert(spans_mark(chars@, from as int, to as int, out@, fields));
        assert(span_texts(chars@, out@) =~= fields);
    }
    out
}

/// Reads the fields that `spans` mark as groups of an IPv6 address.
pub(crate) fn parse_groups(chars: &Vec<char>, spans: &Vec<(usize, usize)>, v4_last: bool) -> (r: Option<
    Vec<u16>,
>)
    requires
        spans_inside(chars@, spans@),
    ensures
        r is Some <==> groups_of(span_texts(chars@, spans@), v4_last) is Some,
        r matches Some(g) ==> groups_of(span_texts(chars@, spans@), v4_last) == Some(g@),
{
    let ghost texts = span_texts(chars@, spans@);
    let n = spans.len();
    let mut out: Vec<u16> = Vec::new();
    let mut k: usize = 0;
    while k < n
        invariant
            k <= n == spans.len(),
            texts == span_texts(chars@, spans@),
            spans_inside(chars@, spans@),
            groups_of(texts.take(k as int), false) == Some(out@),
        decreases n - k,
    {
        let (a, b) = spans[k];
        proof {
            assert(texts.take(k + 1).drop_last() == texts.take(k as int));
            assert(texts.take(k + 1).last() == chars@.subrange(a as int, b as int));
            if k + 1 == n {
                assert(texts.take(k + 1) == texts);
            }
        }
        match parse_group(chars, a, b) {
            Some(v) => {
                out.push(v);
            },
            None => {
                if v4_last && k + 1 == n {
                    match parse_ipv4(chars, a, b) {
                        Some(o) => {
                            out.push(o[0] as u16 * 256 + o[1] as u16);
                            out.push(o[2] as u16 * 256 + o[3] as u16);
                            return Some(out);
                        },
                        None => {
                            return None;
                        },
                    }
                } else {
                    proof {
                        if k + 1 < n {
                            lemma_groups_fail_early(texts, k + 1, v4_last);
                        }
                    }
                    return None;
                }
            },
        }
        k = k + 1;
    }
    proof {
        assert(texts.take(n as int) == texts);
    }
    Some(out)
}

/// Reads `chars[from..to]` as a port.
pub(crate) fn parse_port(chars: &Vec<char>, from: usize, to: usize) -> (r: Option<u16>)
    requires
        from <= to <= chars.len(),
    ensures
        r == port_of(chars@.subrange(from as int, to as int)),
{
    match parse_number(chars, from, to, false, 65535) {
        Some(v) => Some(v as u16),
        None => None,
    }
}

/// The groups before and after `::` with the zero groups between them that
/// make eight in all.
pub(crate) fn fill_gap(head: Vec<u16>, tail: &Vec<u16>) -> (all: Vec<u16>)
    requires
        head.len() + tail.len() <= 7,
    ensures
        all@ == head@ + zero_groups(8 - head.len() - tail.len()) + tail@,
        all.len() == 8,
{
    let ghost h = head@;
    let missing: usize = 8 - head.len() - tail.len();
    let mut all: Vec<u16> = head;
    let mut z: usize = 0;
    while z < missing
        invariant
            z <= missing,
            all@ == h + zero_groups(z as int),
        decreases missing - z,
    {
        all.push(0u16);
        assert(all@ =~= h + zero_groups(z + 1));
        z = z + 1;
    }
    let mut t: usize = 0;
    while t < tail.len()
        invariant
            t <= tail.len(),
            all@ == h + zero_groups(missing as int) + tail@.take(t as int),
        decreases tail.len() - t,
    {
        all.push(tail[t]);
        assert(all@ =~= h + zero_groups(missing as int) + tail@.take(t + 1));
        t = t + 1;
    }
    assert(tail@.take(tail.len() as int) == tail@);
    all
}

/// Eight groups as an array.
pub(crate) fn eight_groups(all: &Vec<u16>) -> (g: [u16; 8])
    requires
        all.len() == 8,
    ensures
        g@ == all@,
{
    let g: [u16; 8] = [all[0], all[1], all[2], all[3], all[4], all[5], all[6], all[7]];
    assert(g@ =~= all@);
    g
}

/// Reads `chars[from..to]`, which holds `::` at `gap`, as an IPv6 address
/// with a run of zero groups.
fn parse_ipv6_with_gap(chars: &Vec<char>, from: usize, gap: usize, to: usize) -> (r: Option<
    [u16; 8],
>)
    requires
        from <= gap,
        gap + 2 <= to <= chars.len(),
    ensures
        r is Some <==> gapped_ipv6_of(
            chars@.subrange(from as int, gap as int),
            chars@.subrange(gap + 2, to as int),
        ) is Some,
        r matches Some(g) ==> gapped_ipv6_of(
            chars@.subrange(from as int, gap as int),
            chars@.subrange(gap + 2, to as int),
        ) == Some(g@),
{
    let head_spans = colon_spans(chars, from, gap);
    let tail_spans = colon_spans(chars, gap + 2, to);
    let head = match parse_groups(chars, &head_spans, false) {
        Some(g) => g,
        None => {
            return None;
        },
    };
    let tail = match parse_groups(chars, &tail_spans, true) {
        Some(g) => g,
        None => {
            return None;
        },
    };
    if head.len() > 7 || tail.len() > 7 - head.len() {
        return None;
    }
    let all = fill_gap(head, &tail);
    Some(eight_groups(&all))
}

/// Reads `chars[from..to]` as an IPv6 address.
pub(crate) fn parse_ipv6(chars: &Vec<char>, from: usize, to: usize) -> (r: Option<[u16; 8]>)
    requires
        from <= to <= chars.len(),
    ensures
        r is Some <==> ipv6_of(chars@.subrange(from as int, to as int)) is Some,
        r matches Some(g) ==> ipv6_of(chars@.subrange(from as int, to as int)) == Some(g@),
{
    let ghost s = chars@.subrange(from as int, to as int);
    let gap = find_gap(chars, from, to);
    proof {
        lemma_index_of_gap(s);
    }
    if gap < to {
        proof {
            assert(gap_at(s, gap - from));
            assert(s.take(gap - from) == chars@.subrange(from as int, gap as int));
            assert(s.skip(gap - from + 2) == chars@.subrange(gap + 2, to as int));
        }
        parse_ipv6_with_gap(chars, from, gap, to)
    } else {
        let spans = colon_spans(chars, from, to);
        match parse_groups(chars, &spans, true) {
            Some(all) => {
                if all.len() != 8 {
                    return None;
                }
                Some(eight_groups(&all))
            },
            None => None,
        }
    }
}

/// Reads `chars[from..to]` as `a.b.c.d:port`.
pub(crate) fn parse_socket_v4(chars: &Vec<char>, from: usize, to: usize) -> (r: Option<SocketAddress>)
    requires
        from <= to <= chars.len(),
    ensures
        r is Some <==> socket_v4_of(chars@.subrange(from as int, to as int)) is Some,
        r matches Some(a) ==> socket_v4_of(chars@.subrange(from as int, to as int)) == Some(a@),
{
    let ghost s = chars@.subrange(from as int, to as int);
    let p = find_char(chars, from, to, ':');
    if p == to {
        return None;
    }
    proof {
        assert(s.take(p - from) == chars@.subrange(from as int, p as int));
        assert(s.skip(p - from + 1) == chars@.subrange(p + 1, to as int));
    }
    match (parse_ipv4(chars, from, p), parse_port(chars, p + 1, to)) {
        (Some(octets), Some(port)) => Some(SocketAddress::V4 { octets, port }),
        _ => None,
    }
}

/// Reads `chars[from..to]` as `[v6]:port` or `[v6%scope]:port`.
pub(crate) fn parse_socket_v6(chars: &Vec<char>, from: usize, to: usize) -> (r: Option<SocketAddress>)
    requires
        from <= to <= chars.len(),
    ensures
        r is Some <==> socket_v6_of(chars@.subrange(from as int, to as int)) is Some,
        r matches Some(a) ==> socket_v6_of(chars@.subrange(from as int, to as int)) == Some(a@),
{
    let ghost s = chars@.subrange(from as int, to as int);
    if from == to || chars[from] != '[' {
        proof {
            if from < to {
                assert(s[0] == chars@[from as int]);
            }
        }
        return None;
    }
    assert(s[0] == chars@[from as int]);
    let q = find_char(chars, from, to, ']');
    if q == from || to - q < 2 || chars[q + 1] != ':' {
        proof {
            if q + 1 < to {
                assert(s[q - from + 1] == chars@[q + 1]);
            }
        }
        return None;
    }
    assert(s[q - from + 1] == chars@[q + 1]);
    let ghost inner = s.subrange(1, q - from);
    assert(inner == chars@.subrange(from + 1, q as int));
    let r = find_char(chars, from + 1, q, '%');
    proof {
        assert(inner.take(r - (from + 1)) == chars@.subrange(from + 1, r as int));
        assert(s.skip(q - from + 2) == chars@.subrange(q + 2, to as int));
    }
    let scope: Option<u32> = if r < q {
        assert(inner.skip(r - (from + 1) + 1) == chars@.subrange(r + 1, q as int));
        parse_number(chars, r + 1, q, false, 0xffff_ffff)
    } else {
        Some(0u32)
    };
    match (parse_ipv6(chars, from + 1, r), scope, parse_port(chars, q + 2, to)) {
        (Some(segments), Some(scope_id), Some(port)) => Some(
            SocketAddress::V6 { segments, scope_id, port },
        ),
        _ => None,
    }
}

impl SocketAddress {
    /// The port of the address.
    pub fn port(&self) -> (p: u16)
        ensures
            p == match self@ {
                AddressModel::V4 { port, .. } => port,
                AddressModel::V6 { port, .. } => port,
            },
    {
        match self {
            SocketAddress::V4 { port, .. } => *port,
            SocketAddress::V6 { port, .. } => *port,
        }
    }

    /// Reads `chars[from..to]` as a socket address.
    pub(crate) fn parse(chars: &Vec<char>, from: usize, to: usize) -> (r: Option<SocketAddress>)
        requires
            from <= to <= chars.len(),
        ensures
            r is Some <==> socket_address_of(chars@.subrange(from as int, to as int)) is Some,
            r matches Some(a) ==> socket_address_of(chars@.subrange(from as int, to as int))
                == Some(a@),
    {
        match parse_socket_v4(chars, from, to) {
            Some(a) => Some(a),
            None => parse_socket_v6(chars, from, to),
        }
    }

    /// Reads a whole text as a socket address.
    pub fn from_text(text: &str) -> (r: Option<SocketAddress>)
        ensures
            r is Some <==> socket_address_of(text@) is Some,
            r matches Some(a) ==> socket_address_of(text@) == Some(a@),
    {
        let chars = chars_of(text);
        assert(chars@.subrange(0, chars@.len() as int) == chars@);
        SocketAddress::parse(&chars, 0, chars.len())
    }
}

} // verus!
