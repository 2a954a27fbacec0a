//! Socket addresses and their text form.
//!
//! A socket address is written as `a.b.c.d:port` for version 4 and as
//! `[g:g:g:g:g:g:g:g]:port` for version 6, where a double colon may stand
//! for groups that are zero and the last two groups may be written as a
//! version 4 address. The grammar is given by
//! [`parse_socket_address`]; [`socket_address_text`] is the text the library
//! itself writes, and [`lemma_text_round_trip`] shows that reading it back
//! yields the address it was written from.

use crate::net_v6::{lemma_v6_round_trip, parse_v6, parse_v6_socket_address, push_v6_text};
use crate::net_v6::{v6_groups, v6_text};
use vstd::prelude::*;

verus! {

/// The byte `.`.
pub const DOT: u8 = 46;

/// The byte `:`.
pub const COLON: u8 = 58;

/// The byte `[`.
pub const OPEN_BRACKET: u8 = 91;

/// The byte `]`.
pub const CLOSE_BRACKET: u8 = 93;

/// The value of `b` as a digit in the given radix (10 or 16), if it is one.
/// Hexadecimal digits are accepted in both cases.
pub open spec fn digit_value(b: u8, radix: nat) -> Option<nat> {
    if 48 <= b <= 57 {
        Some((b - 48) as nat)
    } else if radix == 16 && 97 <= b <= 102 {
        Some((b - 87) as nat)
    } else if radix == 16 && 65 <= b <= 70 {
        Some((b - 55) as nat)
    } else {
        None
    }
}

/// The byte that writes the digit `d` (lower case for ten and above).
pub open spec fn digit_byte(d: nat) -> u8 {
    if d < 10 {
        (48 + d) as u8
    } else {
        (87 + d) as u8
    }
}

/// Whether every byte of `s` is a digit in the given radix.
pub open spec fn all_digits(s: Seq<u8>, radix: nat) -> bool {
    forall|i: int| 0 <= i < s.len() ==> (#[trigger] digit_value(s[i], radix)) is Some
}

/// The number that a string of digits denotes, most significant digit first.
pub open spec fn text_value(s: Seq<u8>, radix: nat) -> nat
    decreases s.len(),
{
    if s.len() == 0 {
        0
    } else {
        text_value(s.drop_last(), radix) * radix + match digit_value(s.last(), radix) {
            Some(d) => d,
            None => 0,
        }
    }
}

/// The shortest text of `n` in the given radix: no leading zero, and `0` for zero.
pub open spec fn number_text(n: nat, radix: nat) -> Seq<u8>
    decreases n,
{
    if n < radix || radix < 2 {
        seq![digit_byte(n)]
    } else {
        proof {
            vstd::arithmetic::div_mod::lemma_div_decreases(n as int, radix as int);
            vstd::arithmetic::div_mod::lemma_div_pos_is_pos(n as int, radix as int);
        }
        number_text(n / radix, radix).push(digit_byte(n % radix))
    }
}

/// The index just behind the longest run of digits of `s` that starts at `start`.
pub open spec fn digit_run_end(s: Seq<u8>, start: int, radix: nat) -> int
    decreases s.len() - start,
{
    if 0 <= start < s.len() && digit_value(s[start], radix) is Some {
        digit_run_end(s, start + 1, radix)
    } else {
        start
    }
}



/// An IP address of either version, held as its octets or 16-bit groups.
#[derive(Clone, Copy, Debug, PartialEq, Eq, Structural)]
pub enum IpAddress {
    V4(u8, u8, u8, u8),
    V6(u16, u16, u16, u16, u16, u16, u16, u16),
}

/// An IP address together with a port.
#[derive(Clone, Copy, Debug, PartialEq, Eq, Structural)]
pub struct SocketAddress {
    pub ip: IpAddress,
    pub port: u16,
}

/// Whether `t` writes one octet of a version 4 address: digits without a
/// leading zero, worth at most 255.
pub open spec fn octet_text(t: Seq<u8>) -> bool {
    &&& t.len() >= 1
    &&& t.len() > 1 ==> t[0] != 48
    &&& text_value(t, 10) <= 255
}

/// Whether `t` writes one group of a version 6 address: one to four
/// hexadecimal digits.
pub open spec fn group_text(t: Seq<u8>) -> bool {
    1 <= t.len() <= 4
}

/// The octet written at `start` and closed by the byte `sep`, with the index
/// behind `sep`.
pub open spec fn octet_then(s: Seq<u8>, start: int, sep: u8) -> Option<(u8, int)> {
    let end = digit_run_end(s, start, 10);
    let t = s.subrange(start, end);
    if octet_text(t) && end < s.len() && s[end] == sep {
        Some((text_value(t, 10) as u8, end + 1))
    } else {
        None
    }
}

/// The octet written at `start`, with the index behind it.
pub open spec fn octet_at(s: Seq<u8>, start: int) -> Option<(u8, int)> {
    let end = digit_run_end(s, start, 10);
    let t = s.subrange(start, end);
    if octet_text(t) {
        Some((text_value(t, 10) as u8, end))
    } else {
        None
    }
}

/// The port written from `start` to the end of `s`: one or more decimal
/// digits worth at most 65535.
pub open spec fn port_at(s: Seq<u8>, start: int) -> Option<u16> {
    let t = s.subrange(start, s.len() as int);
    if 0 <= start < s.len() && all_digits(t, 10) && text_value(t, 10) <= 65535 {
        Some(text_value(t, 10) as u16)
    } else {
        None
    }
}

/// The version 4 socket address that `s` writes, if it writes one.
pub open spec fn parse_v4_socket_address(s: Seq<u8>) -> Option<SocketAddress> {
    match octet_then(s, 0, DOT) {
        Some((a, i1)) => match octet_then(s, i1, DOT) {
            Some((b, i2)) => match octet_then(s, i2, DOT) {
                Some((c, i3)) => match octet_then(s, i3, COLON) {
                    Some((d, i4)) => match port_at(s, i4) {
                        Some(port) => Some(SocketAddress { ip: IpAddress::V4(a, b, c, d), port }),
                        None => None,
                    },
                    None => None,
                },
                None => None,
            },
            None => None,
        },
        None => None,
    }
}

/// The text that the library writes for a version 4 address and a port.
pub open spec fn v4_text(a: u8, b: u8, c: u8, d: u8, port: u16) -> Seq<u8> {
    number_text(a as nat, 10) + seq![DOT] + number_text(b as nat, 10) + seq![DOT] + number_text(
        c as nat,
        10,
    ) + seq![DOT] + number_text(d as nat, 10) + seq![COLON] + number_text(port as nat, 10)
}

/// What is known of the shortest text of a number: it is made of digits, has
/// no leading zero, and denotes the number.
pub proof fn lemma_number_text(n: nat, radix: nat)
    requires
        radix == 10 || radix == 16,
    ensures
        number_text(n, radix).len() >= 1,
        all_digits(number_text(n, radix), radix),
        text_value(number_text(n, radix), radix) == n,
        number_text(n, radix).len() > 1 ==> number_text(n, radix)[0] != 48,
        n > 0 ==> number_text(n, radix)[0] != 48,
    decreases n,
{
    let t = number_text(n, radix);
    if n < radix {
        assert(t =~= seq![digit_byte(n)]);
        assert(t.drop_last() =~= Seq::<u8>::empty());
        assert(text_value(t.drop_last(), radix) == 0);
        assert(digit_value(digit_byte(n), radix) == Some(n));
    } else {
        let m = n / radix;
        let r = n % radix;
        lemma_number_text(m, radix);
        let h = number_text(m, radix);
        assert(t == h.push(digit_byte(r)));
        assert(t.drop_last() =~= h);
        assert(t.last() == digit_byte(r));
        assert(digit_value(digit_byte(r), radix) == Some(r));
        assert(m * radix + r == n);
        assert(m > 0);
        assert(t[0] == h[0]);
        assert forall|i: int| 0 <= i < t.len() implies (#[trigger] digit_value(t[i], radix)) is Some by {
            if i < h.len() {
                assert(t[i] == h[i]);
            }
        }
    }
}

/// A run of digits that is closed by the end of the text or by a byte that is
/// no digit ends exactly there.
pub proof fn lemma_digit_run(s: Seq<u8>, start: int, end: int, radix: nat)
    requires
        0 <= start <= end <= s.len(),
        forall|i: int| start <= i < end ==> (#[trigger] digit_value(s[i], radix)) is Some,
        end < s.len() ==> digit_value(s[end], radix) is None,
    ensures
        digit_run_end(s, start, radix) == end,
    decreases end - start,
{
    if start < end {
        lemma_digit_run(s, start + 1, end, radix);
    }
}



/// Appending one digit to a text multiplies its value by the radix and adds
/// the digit.
proof fn lemma_text_value_step(s: Seq<u8>, start: int, i: int, radix: nat)
    requires
        0 <= start <= i < s.len(),
        digit_value(s[i], radix) is Some,
    ensures
        text_value(s.subrange(start, i + 1), radix) == text_value(s.subrange(start, i), radix)
            * radix + digit_value(s[i], radix).unwrap(),
{
    let t = s.subrange(start, i + 1);
    assert(t.drop_last() =~= s.subrange(start, i));
    assert(t.last() == s[i]);
}

/// Reads one byte as a digit.
fn digit_of(b: u8, radix: u32) -> (r: Option<u32>)
    requires
        radix == 10 || radix == 16,
    ensures
        match r {
            Some(d) => digit_value(b, radix as nat) == Some(d as nat),
            None => digit_value(b, radix as nat) is None,
        },
{
    if 48 <= b && b <= 57 {
        Some((b - 48) as u32)
    } else if radix == 16 && 97 <= b && b <= 102 {
        Some((b - 87) as u32)
    } else if radix == 16 && 65 <= b && b <= 70 {
        Some((b - 55) as u32)
    } else {
        None
    }
}

/// Reads the longest run of digits at `start`. Returns where it ends and,
/// unless the value exceeds `limit`, the value.
pub(crate) fn scan_digits(s: &[u8], start: usize, radix: u32, limit: u32) -> (r: (Option<u32>, usize))
    requires
        start <= s.len(),
        radix == 10 || radix == 16,
        limit <= 0xffff,
    ensures
        r.1 == digit_run_end(s@, start as int, radix as nat),
        start <= r.1 <= s.len(),
        match r.0 {
            Some(v) => v == text_value(s@.subrange(start as int, r.1 as int), radix as nat) && v
                <= limit,
            None => text_value(s@.subrange(start as int, r.1 as int), radix as nat) > limit,
        },
{
    let mut i: usize = start;
    let mut value: u32 = 0;
    let mut over: bool = false;
    assert(s@.subrange(start as int, start as int) =~= Seq::<u8>::empty());
    loop
        invariant
            start <= i <= s.len(),
            radix == 10 || radix == 16,
            limit <= 0xffff,
            digit_run_end(s@, start as int, radix as nat) == digit_run_end(
                s@,
                i as int,
                radix as nat,
            ),
            !over ==> value == text_value(s@.subrange(start as int, i as int), radix as nat)
                && value <= limit,
            over ==> text_value(s@.subrange(start as int, i as int), radix as nat) > limit,
        ensures
            start <= i <= s.len(),
            i == digit_run_end(s@, start as int, radix as nat),
            !over ==> value == text_value(s@.subrange(start as int, i as int), radix as nat)
                && value <= limit,
            over ==> text_value(s@.subrange(start as int, i as int), radix as nat) > limit,
        decreases s.len() - i,
    {
        if i >= s.len() {
            break ;
        }
        let digit = digit_of(s[i], radix);
        match digit {
            None => {
                break ;
            },
            Some(d) => {
                proof {
                    lemma_text_value_step(s@, start as int, i as int, radix as nat);
                    let old_value = text_value(s@.subrange(start as int, i as int), radix as nat);
                    if over {
                        assert(old_value * radix + d > limit) by (nonlinear_arith)
                            requires
                                old_value > limit,
                                radix >= 2,
                                d >= 0,
                        ;
                    }
                }
                if !over {
                    let next: u32 = value * radix + d;
                    if next > limit {
                        over = true;
                    } else {
                        value = next;
                    }
                }
                i = i + 1;
            },
        }
    }
    if over {
        (None, i)
    } else {
        (Some(value), i)
    }
}

/// Reads an octet at `start` that is closed by `sep`.
pub(crate) fn read_octet_then(s: &[u8], start: usize, sep: u8) -> (r: Option<(u8, usize)>)
    requires
        start <= s.len(),
    ensures
        match r {
            Some((v, next)) => octet_then(s@, start as int, sep) == Some((v, next as int)) && next
                <= s.len(),
            None => octet_then(s@, start as int, sep) is None,
        },
{
    let (value, end) = scan_digits(s, start, 10, 255);
    match value {
        None => None,
        Some(v) => {
            if end == start || (end - start > 1 && s[start] == 48) || end >= s.len() || s[end]
                != sep {
                None
            } else {
                Some((v as u8, end + 1))
            }
        },
    }
}

/// Reads an octet at `start`.
pub(crate) fn read_octet(s: &[u8], start: usize) -> (r: Option<(u8, usize)>)
    requires
        start <= s.len(),
    ensures
        match r {
            Some((v, end)) => octet_at(s@, start as int) == Some((v, end as int)) && end
                <= s.len(),
            None => octet_at(s@, start as int) is None,
        },
{
    let (value, end) = scan_digits(s, start, 10, 255);
    match value {
        None => None,
        Some(v) => {
            if end == start || (end - start > 1 && s[start] == 48) {
                None
            } else {
                Some((v as u8, end))
            }
        },
    }
}

/// Reads a port that spans from `start` to the end of the text.
pub(crate) fn read_port(s: &[u8], start: usize) -> (r: Option<u16>)
    requires
        start <= s.len(),
    ensures
        r == port_at(s@, start as int),
{
    let (value, end) = scan_digits(s, start, 10, 0xffff);
    proof {
        let t = s@.subrange(start as int, s.len() as int);
        if end == s.len() {
            lemma_run_is_digits(s@, start as int, 10);
            assert forall|i: int| 0 <= i < t.len() implies (#[trigger] digit_value(t[i], 10)) is Some by {
                assert(t[i] == s@[start + i]);
            }
        } else {
            lemma_run_is_digits(s@, start as int, 10);
            assert(t[end - start] == s@[end as int]);
        }
    }
    if start >= s.len() || end != s.len() {
        return None;
    }
    match value {
        None => None,
        Some(v) => Some(v as u16),
    }
}

/// Every byte of a digit run is a digit, and the byte behind it, if any, is none.
pub proof fn lemma_run_is_digits(s: Seq<u8>, start: int, radix: nat)
    requires
        0 <= start <= s.len(),
    ensures
        start <= digit_run_end(s, start, radix) <= s.len(),
        forall|i: int|
            start <= i < digit_run_end(s, start, radix) ==> (#[trigger] digit_value(s[i], radix))
                is Some,
        digit_run_end(s, start, radix) < s.len() ==> digit_value(
            s[digit_run_end(s, start, radix)],
            radix,
        ) is None,
    decreases s.len() - start,
{
    if start < s.len() && digit_value(s[start], radix) is Some {
        lemma_run_is_digits(s, start + 1, radix);
    }
}

/// A text of at most four hexadecimal digits is worth less than 65536.
pub proof fn lemma_group_value(t: Seq<u8>)
    requires
        t.len() <= 4,
    ensures
        text_value(t, 16) <= 0xffff,
{
    lemma_text_value_bound(t, 16);
    let n = t.len();
    assert(vstd::arithmetic::power::pow(16, n) <= 65536) by {
        reveal_with_fuel(vstd::arithmetic::power::pow, 5);
    }
}

/// A text of `k` digits is worth less than the radix to the power `k`.
pub proof fn lemma_text_value_bound(t: Seq<u8>, radix: nat)
    requires
        radix == 10 || radix == 16,
    ensures
        text_value(t, radix) < vstd::arithmetic::power::pow(radix as int, t.len()),
    decreases t.len(),
{
    reveal(vstd::arithmetic::power::pow);
    if t.len() > 0 {
        lemma_text_value_bound(t.drop_last(), radix);
        let p = vstd::arithmetic::power::pow(radix as int, t.drop_last().len());
        let v = text_value(t.drop_last(), radix) as int;
        assert(v + 1 <= p);
        assert((v + 1) * radix <= p * radix) by (nonlinear_arith)
            requires
                v + 1 <= p,
                radix > 0,
        ;
        assert(vstd::arithmetic::power::pow(radix as int, t.len()) == radix * p);
        assert(radix * p == p * radix) by (nonlinear_arith);
        assert((v + 1) * radix == v * radix + radix) by (nonlinear_arith);
    }
}


/// The socket address that the text `s` writes, if it writes one. A text that
/// opens with a square bracket is read as version 6, any other as version 4.
pub open spec fn parse_socket_address(s: Seq<u8>) -> Option<SocketAddress> {
    if s.len() >= 1 && s[0] == OPEN_BRACKET {
        parse_v6_socket_address(s)
    } else {
        parse_v4_socket_address(s)
    }
}

/// The text that the library writes for a socket address.
pub open spec fn socket_address_text(addr: SocketAddress) -> Seq<u8> {
    match addr.ip {
        IpAddress::V4(a, b, c, d) => v4_text(a, b, c, d, addr.port),
        IpAddress::V6(_, _, _, _, _, _, _, _) => v6_text(v6_groups(addr.ip), addr.port),
    }
}

/// Appends the shortest text of `n` to `out`.
pub(crate) fn push_number(out: &mut Vec<u8>, n: u16, radix: u16)
    requires
        radix == 10 || radix == 16,
    ensures
        final(out)@ == old(out)@ + number_text(n as nat, radix as nat),
    decreases n,
{
    if n >= radix {
        push_number(out, n / radix, radix);
    }
    let d: u16 = n % radix;
    let b: u8 = if d < 10 {
        (48 + d) as u8
    } else {
        (87 + d) as u8
    };
    out.push(b);
    proof {
        let text = number_text(n as nat, radix as nat);
        if n >= radix {
            let head = number_text((n / radix) as nat, radix as nat);
            assert(text == head.push(b));
            assert(out@ =~= old(out)@ + text);
        } else {
            assert(text =~= seq![b]);
            assert(out@ =~= old(out)@ + text);
        }
    }
}

impl SocketAddress {
    /// A socket address of version 4.
    pub fn v4(a: u8, b: u8, c: u8, d: u8, port: u16) -> (r: SocketAddress)
        ensures
            r == (SocketAddress { ip: IpAddress::V4(a, b, c, d), port }),
    {
        SocketAddress { ip: IpAddress::V4(a, b, c, d), port }
    }

    /// Reads a socket address from its text. Returns `None` exactly for the
    /// texts that write no socket address.
    pub fn parse(text: &[u8]) -> (r: Option<SocketAddress>)
        ensures
            r == parse_socket_address(text@),
    {
        if text.len() >= 1 && text[0] == OPEN_BRACKET {
            parse_v6(text)
        } else {
            Self::parse_v4(text)
        }
    }

    fn parse_v4(s: &[u8]) -> (r: Option<SocketAddress>)
        ensures
            r == parse_v4_socket_address(s@),
    {
        let (a, i1) = match read_octet_then(s, 0, DOT) {
            Some(x) => x,
            None => { return None; },
        };
        let (b, i2) = match read_octet_then(s, i1, DOT) {
            Some(x) => x,
            None => { return None; },
        };
        let (c, i3) = match read_octet_then(s, i2, DOT) {
            Some(x) => x,
            None => { return None; },
        };
        let (d, i4) = match read_octet_then(s, i3, COLON) {
            Some(x) => x,
            None => { return None; },
        };
        match read_port(s, i4) {
            Some(port) => Some(SocketAddress { ip: IpAddress::V4(a, b, c, d), port }),
            None => None,
        }
    }

    /// Writes the socket address as text.
    pub fn to_text(&self) -> (r: Vec<u8>)
        ensures
            r@ == socket_address_text(*self),
    {
        let mut out: Vec<u8> = Vec::new();
        match self.ip {
            IpAddress::V4(a, b, c, d) => {
                push_number(&mut out, a as u16, 10);
                out.push(DOT);
                push_number(&mut out, b as u16, 10);
                out.push(DOT);
                push_number(&mut out, c as u16, 10);
                out.push(DOT);
                push_number(&mut out, d as u16, 10);
                out.push(COLON);
                push_number(&mut out, self.port, 10);
                assert(out@ =~= v4_text(a, b, c, d, self.port));
            },
            IpAddress::V6(g0, g1, g2, g3, g4, g5, g6, g7) => {
                let mut groups: Vec<u16> = Vec::new();
                groups.push(g0);
                groups.push(g1);
                groups.push(g2);
                groups.push(g3);
                groups.push(g4);
                groups.push(g5);
                groups.push(g6);
                groups.push(g7);
                assert(groups@ =~= v6_groups(self.ip));
                push_v6_text(&mut out, &groups, self.port);
                assert(out@ =~= v6_text(v6_groups(self.ip), self.port));
            },
        }
        out
    }
}


/// Where a text of digits stands in `s` at `start` and is closed there, the
/// digit run at `start` is that text.
pub proof fn lemma_field(s: Seq<u8>, start: int, t: Seq<u8>, radix: nat)
    requires
        0 <= start,
        start + t.len() <= s.len(),
        forall|i: int| 0 <= i < t.len() ==> s[start + i] == #[trigger] t[i],
        all_digits(t, radix),
        start + t.len() < s.len() ==> digit_value(s[start + t.len()], radix) is None,
    ensures
        digit_run_end(s, start, radix) == start + t.len(),
        s.subrange(start, start + t.len()) == t,
{
    assert(s.subrange(start, start + t.len()) =~= t);
    assert forall|i: int| start <= i < start + t.len() implies (#[trigger] digit_value(
        s[i],
        radix,
    )) is Some by {
        assert(s[i] == t[i - start]);
    }
    lemma_digit_run(s, start, start + t.len(), radix);
}

/// The shortest hexadecimal text of a 16-bit number has at most four digits.
pub proof fn lemma_group_text_len(n: nat)
    requires
        n <= 0xffff,
    ensures
        number_text(n, 16).len() <= 4,
{
    let m1 = n / 16;
    let m2 = m1 / 16;
    let m3 = m2 / 16;
    assert(m3 < 16);
    assert(number_text(m3, 16).len() == 1);
    if n >= 16 {
        assert(number_text(n, 16) == number_text(m1, 16).push(digit_byte(n % 16)));
        if m1 >= 16 {
            assert(number_text(m1, 16) == number_text(m2, 16).push(digit_byte(m1 % 16)));
            if m2 >= 16 {
                assert(number_text(m2, 16) == number_text(m3, 16).push(digit_byte(m2 % 16)));
            }
        }
    }
}

/// Whether `s` begins with `x`.
spec fn begins_with(s: Seq<u8>, x: Seq<u8>) -> bool {
    x.len() <= s.len() && forall|i: int| 0 <= i < x.len() ==> s[i] == x[i]
}

/// Where `s` begins with `pre`, the shortest text of an octet and `sep`, the
/// octet is read at the end of `pre`, and `s` begins with `pre` as well.
proof fn lemma_octet_in_prefix(s: Seq<u8>, x: Seq<u8>, pre: Seq<u8>, v: u8, sep: u8)
    requires
        x == pre + number_text(v as nat, 10) + seq![sep],
        begins_with(s, x),
        sep == DOT || sep == COLON,
    ensures
        octet_then(s, pre.len() as int, sep) == Some((v, x.len() as int)),
        begins_with(s, pre),
{
    let t = number_text(v as nat, 10);
    lemma_number_text(v as nat, 10);
    let start = pre.len() as int;
    assert forall|i: int| 0 <= i < t.len() implies s[start + i] == #[trigger] t[i] by {
        assert(x[start + i] == t[i]);
    }
    assert(s[start + t.len()] == x[start + t.len()]);
    assert(digit_value(sep, 10) is None);
    lemma_field(s, start, t, 10);
    assert forall|i: int| 0 <= i < pre.len() implies s[i] == pre[i] by {
        assert(x[i] == pre[i]);
    }
}

/// Reading the text written for a version 4 address gives the address back.
proof fn lemma_v4_round_trip(a: u8, b: u8, c: u8, d: u8, port: u16)
    ensures
        parse_socket_address(v4_text(a, b, c, d, port)) == Some(
            SocketAddress { ip: IpAddress::V4(a, b, c, d), port },
        ),
{
    let x0 = Seq::<u8>::empty();
    let x1 = number_text(a as nat, 10) + seq![DOT];
    let x2 = x1 + number_text(b as nat, 10) + seq![DOT];
    let x3 = x2 + number_text(c as nat, 10) + seq![DOT];
    let x4 = x3 + number_text(d as nat, 10) + seq![COLON];
    let tp = number_text(port as nat, 10);
    let s = v4_text(a, b, c, d, port);
    assert(s == x4 + tp);
    assert(begins_with(s, x4));
    assert(x1 =~= x0 + number_text(a as nat, 10) + seq![DOT]);
    lemma_octet_in_prefix(s, x4, x3, d, COLON);
    lemma_octet_in_prefix(s, x3, x2, c, DOT);
    lemma_octet_in_prefix(s, x2, x1, b, DOT);
    lemma_octet_in_prefix(s, x1, x0, a, DOT);
    lemma_number_text(a as nat, 10);
    assert(s[0] == number_text(a as nat, 10)[0]);
    assert(digit_value(s[0], 10) is Some);
    lemma_number_text(port as nat, 10);
    lemma_field(s, x4.len() as int, tp, 10);
    assert(port_at(s, x4.len() as int) == Some(port));
}

/// Reading back the text that the library writes for a socket address gives
/// that address.
pub proof fn lemma_text_round_trip(addr: SocketAddress)
    ensures
        parse_socket_address(socket_address_text(addr)) == Some(addr),
{
    match addr.ip {
        IpAddress::V4(a, b, c, d) => {
            lemma_v4_round_trip(a, b, c, d, addr.port);
        },
        IpAddress::V6(g0, g1, g2, g3, g4, g5, g6, g7) => {
            lemma_v6_round_trip(v6_groups(addr.ip), addr.port);
        },
    }
}

} // verus!
