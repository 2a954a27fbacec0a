//! The text form of version 6 socket addresses.
//!
//! Between square brackets stand the eight groups of the address in
//! hexadecimal, separated by colons. One run of groups that are zero may be
//! left out and is then marked by a double colon, and the last two groups
//! may be written as a version 4 address in dotted form. Behind the closing
//! bracket follow a colon and the port. The library itself writes every
//! group in hexadecimal, in lower case and without leading zeros, and leaves
//! out the longest run of at least two zero groups, the first of them where
//! several are as long.

use crate::net::{digit_run_end, digit_value, group_text, number_text, port_at, text_value};
use crate::net::{lemma_run_is_digits, octet_at, octet_then, read_octet, read_octet_then, DOT};
use crate::net::{lemma_field, lemma_group_text_len, lemma_group_value, lemma_number_text};
use crate::net::{push_number, read_port, scan_digits};
use crate::net::{IpAddress, SocketAddress, CLOSE_BRACKET, COLON, OPEN_BRACKET};
use vstd::prelude::*;

verus! {

/// The group written at `start`, with the index behind it.
pub open spec fn group_at(s: Seq<u8>, start: int) -> Option<(u16, int)> {
    let end = digit_run_end(s, start, 16);
    let t = s.subrange(start, end);
    if group_text(t) {
        Some((text_value(t, 16) as u16, end))
    } else {
        None
    }
}

/// The version 4 address written at `start` as four octets with dots
/// between them, as the two groups that it fills, with the index behind it.
pub open spec fn dotted_at(s: Seq<u8>, start: int) -> Option<(u16, u16, int)> {
    match octet_then(s, start, DOT) {
        None => None,
        Some((a, i1)) => match octet_then(s, i1, DOT) {
            None => None,
            Some((b, i2)) => match octet_then(s, i2, DOT) {
                None => None,
                Some((c, i3)) => match octet_at(s, i3) {
                    None => None,
                    Some((d, end)) => Some(((a * 256 + b) as u16, (c * 256 + d) as u16, end)),
                },
            },
        },
    }
}

/// The groups written from `start` on, each but the first behind a single
/// colon: as many as there are, up to `limit`, with the index behind the
/// last. Where at least two groups may still follow and a version 4 address
/// in dotted form stands next, it is read as two groups and ends the
/// reading; the third part of the result says whether that is so.
pub open spec fn groups_from(s: Seq<u8>, start: int, limit: nat) -> (Seq<u16>, int, bool)
    decreases limit,
{
    if limit == 0 {
        (Seq::empty(), start, false)
    } else if limit >= 2 && dotted_at(s, start) is Some {
        let dotted = dotted_at(s, start)->0;
        (seq![dotted.0, dotted.1], dotted.2, true)
    } else {
        match group_at(s, start) {
            None => (Seq::empty(), start, false),
            Some((g, end)) => if limit > 1 && end < s.len() && s[end] == COLON && group_at(
                s,
                end + 1,
            ) is Some {
                let rest = groups_from(s, end + 1, (limit - 1) as nat);
                (seq![g] + rest.0, rest.1, rest.2)
            } else {
                (seq![g], end, false)
            },
        }
    }
}

/// `n` groups that are zero.
pub open spec fn zeros(n: nat) -> Seq<u16> {
    Seq::new(n, |i: int| 0u16)
}

/// The eight groups written from `start` on, with the index behind them.
/// Either all eight are written, or a double colon stands for those that are
/// left out, which is at least one. A version 4 address in dotted form can
/// stand for the last two groups only.
pub open spec fn parse_v6_ip(s: Seq<u8>, start: int) -> Option<(Seq<u16>, int)> {
    let head = groups_from(s, start, 8);
    let p = head.1;
    if head.0.len() == 8 {
        Some((head.0, p))
    } else if !head.2 && head.0.len() < 8 && p + 1 < s.len() && s[p] == COLON && s[p + 1]
        == COLON {
        let tail = groups_from(s, p + 2, (7 - head.0.len()) as nat);
        Some((head.0 + zeros((8 - head.0.len() - tail.0.len()) as nat) + tail.0, tail.1))
    } else {
        None
    }
}

/// The address with the given eight groups.
pub open spec fn v6_from_groups(g: Seq<u16>) -> IpAddress {
    IpAddress::V6(g[0], g[1], g[2], g[3], g[4], g[5], g[6], g[7])
}

/// The groups of a version 6 address.
pub open spec fn v6_groups(ip: IpAddress) -> Seq<u16> {
    match ip {
        IpAddress::V6(g0, g1, g2, g3, g4, g5, g6, g7) => seq![g0, g1, g2, g3, g4, g5, g6, g7],
        IpAddress::V4(_, _, _, _) => Seq::empty(),
    }
}

/// The version 6 socket address that `s` writes, if it writes one.
pub open spec fn parse_v6_socket_address(s: Seq<u8>) -> Option<SocketAddress> {
    if !(s.len() >= 1 && s[0] == OPEN_BRACKET) {
        None
    } else {
        match parse_v6_ip(s, 1) {
            None => None,
            Some((groups, q)) => if q + 1 < s.len() && s[q] == CLOSE_BRACKET && s[q + 1]
                == COLON {
                match port_at(s, q + 2) {
                    Some(port) => Some(SocketAddress { ip: v6_from_groups(groups), port }),
                    None => None,
                }
            } else {
                None
            },
        }
    }
}

/// The number of groups from `at` on that are zero without a break.
pub open spec fn zero_run(groups: Seq<u16>, at: int) -> nat
    decreases groups.len() - at,
{
    if 0 <= at < groups.len() && groups[at] == 0 {
        1 + zero_run(groups, at + 1)
    } else {
        0
    }
}

/// Where the longest run of zero groups from `from` on begins, and how long
/// it is. Of several that are as long, it is the first. Where no group is
/// zero the length is zero.
pub open spec fn longest_zero_run(groups: Seq<u16>, from: int) -> (int, nat)
    decreases groups.len() - from,
{
    if from < 0 || from >= groups.len() {
        (groups.len() as int, 0)
    } else {
        let later = longest_zero_run(groups, from + 1);
        let here = zero_run(groups, from);
        if here > 0 && here >= later.1 {
            (from, here)
        } else {
            later
        }
    }
}

/// The groups in hexadecimal with a colon between each two.
pub open spec fn joined(groups: Seq<u16>) -> Seq<u8>
    decreases groups.len(),
{
    if groups.len() == 0 {
        Seq::empty()
    } else if groups.len() == 1 {
        number_text(groups[0] as nat, 16)
    } else {
        number_text(groups[0] as nat, 16) + seq![COLON] + joined(groups.drop_first())
    }
}

/// The text that the library writes for the groups of a version 6 address.
pub open spec fn v6_ip_text(groups: Seq<u16>) -> Seq<u8> {
    let run = longest_zero_run(groups, 0);
    if run.1 >= 2 {
        joined(groups.subrange(0, run.0)) + seq![COLON, COLON] + joined(
            groups.subrange(run.0 + run.1, groups.len() as int),
        )
    } else {
        joined(groups)
    }
}

/// The text that the library writes for the groups of a version 6 address
/// and a port.
pub open spec fn v6_text(groups: Seq<u16>, port: u16) -> Seq<u8> {
    seq![OPEN_BRACKET] + v6_ip_text(groups) + seq![CLOSE_BRACKET, COLON] + number_text(
        port as nat,
        10,
    )
}

/// Reads a group at `start`.
fn read_group(s: &[u8], start: usize) -> (r: Option<(u16, usize)>)
    requires
        start <= s.len(),
    ensures
        match r {
            Some((v, end)) => group_at(s@, start as int) == Some((v, end as int)) && end
                <= s.len(),
            None => group_at(s@, start as int) is None,
        },
{
    let (value, end) = scan_digits(s, start, 16, 0xffff);
    if end == start || end - start > 4 {
        return None;
    }
    match value {
        None => {
            proof {
                lemma_group_value(s@.subrange(start as int, end as int));
            }
            None
        },
        Some(v) => Some((v as u16, end)),
    }
}

/// Reads a version 4 address in dotted form at `start`, as two groups.
fn read_dotted(s: &[u8], start: usize) -> (r: Option<(u16, u16, usize)>)
    requires
        start <= s.len(),
    ensures
        match r {
            Some((hi, lo, end)) => dotted_at(s@, start as int) == Some((hi, lo, end as int))
                && end <= s.len(),
            None => dotted_at(s@, start as int) is None,
        },
{
    let (a, i1) = match read_octet_then(s, start, DOT) {
        Some(x) => x,
        None => { return None; },
    };
    let (b, i2) = match read_octet_then(s, i1, DOT) {
        Some(x) => x,
        None => { return None; },
    };
    let (c, i3) = match read_octet_then(s, i2, DOT) {
        Some(x) => x,
        None => { return None; },
    };
    let (d, end) = match read_octet(s, i3) {
        Some(x) => x,
        None => { return None; },
    };
    let hi: u16 = (a as u16) * 256 + (b as u16);
    let lo: u16 = (c as u16) * 256 + (d as u16);
    Some((hi, lo, end))
}

/// Reads groups from `start` on, up to `limit` of them, onto the end of
/// `out`. Returns the index behind the last, and whether the last two were
/// written in dotted form.
fn read_groups(s: &[u8], start: usize, limit: usize, out: &mut Vec<u16>) -> (r: (usize, bool))
    requires
        start <= s.len(),
    ensures
        final(out)@ == old(out)@ + groups_from(s@, start as int, limit as nat).0,
        r.0 == groups_from(s@, start as int, limit as nat).1,
        r.1 == groups_from(s@, start as int, limit as nat).2,
        r.0 <= s.len(),
        groups_from(s@, start as int, limit as nat).0.len() <= limit,
    decreases limit,
{
    if limit == 0 {
        assert(out@ =~= old(out)@ + Seq::<u16>::empty());
        return (start, false);
    }
    if limit >= 2 {
        match read_dotted(s, start) {
            Some((hi, lo, end)) => {
                out.push(hi);
                out.push(lo);
                assert(out@ =~= old(out)@ + seq![hi, lo]);
                return (end, true);
            },
            None => {},
        }
    }
    match read_group(s, start) {
        None => {
            assert(out@ =~= old(out)@ + Seq::<u16>::empty());
            (start, false)
        },
        Some((g, end)) => {
            out.push(g);
            if limit > 1 && end < s.len() && s[end] == COLON {
                if read_group(s, end + 1).is_some() {
                    let r = read_groups(s, end + 1, limit - 1, out);
                    proof {
                        let rest = groups_from(s@, end + 1, (limit - 1) as nat);
                        assert(out@ =~= old(out)@ + (seq![g] + rest.0));
                    }
                    return r;
                }
            }
            assert(out@ =~= old(out)@ + seq![g]);
            (end, false)
        },
    }
}

/// Reads a version 6 socket address.
pub(crate) fn parse_v6(s: &[u8]) -> (r: Option<SocketAddress>)
    ensures
        r == parse_v6_socket_address(s@),
{
    if s.len() < 1 || s[0] != OPEN_BRACKET {
        return None;
    }
    let mut groups: Vec<u16> = Vec::new();
    let (p, dotted) = read_groups(s, 1, 8, &mut groups);
    let ghost head = groups@;
    assert(head =~= groups_from(s@, 1, 8).0);
    let q: usize;
    if groups.len() == 8 {
        q = p;
    } else if !dotted && p < s.len() && s.len() - p > 1 && s[p] == COLON && s[p + 1] == COLON {
        let mut tail: Vec<u16> = Vec::new();
        let limit: usize = 7 - groups.len();
        let (end, _) = read_groups(s, p + 2, limit, &mut tail);
        q = end;
        assert(tail@ =~= groups_from(s@, p + 2, limit as nat).0);
        let fill: usize = 8 - groups.len() - tail.len();
        let mut k: usize = 0;
        assert(groups@ =~= head + zeros(0));
        while k < fill
            invariant
                k <= fill,
                groups@ == head + zeros(k as nat),
            decreases fill - k,
        {
            groups.push(0);
            k = k + 1;
            assert(groups@ =~= head + zeros(k as nat));
        }
        let mut j: usize = 0;
        assert(groups@ =~= head + zeros(fill as nat) + tail@.subrange(0, 0));
        while j < tail.len()
            invariant
                j <= tail.len(),
                groups@ == head + zeros(fill as nat) + tail@.subrange(0, j as int),
            decreases tail.len() - j,
        {
            groups.push(tail[j]);
            j = j + 1;
            assert(groups@ =~= head + zeros(fill as nat) + tail@.subrange(0, j as int));
        }
        assert(tail@.subrange(0, j as int) =~= tail@);
    } else {
        return None;
    }
    if !(q < s.len() && s.len() - q > 1 && s[q] == CLOSE_BRACKET && s[q + 1] == COLON) {
        return None;
    }
    match read_port(s, q + 2) {
        Some(port) => Some(
            SocketAddress {
                ip: IpAddress::V6(
                    groups[0],
                    groups[1],
                    groups[2],
                    groups[3],
                    groups[4],
                    groups[5],
                    groups[6],
                    groups[7],
                ),
                port,
            },
        ),
        None => None,
    }
}

/// Finds the longest run of zero groups.
fn find_longest_zero_run(groups: &Vec<u16>) -> (r: (usize, usize))
    requires
        groups.len() == 8,
    ensures
        (r.0 as int, r.1 as nat) == longest_zero_run(groups@, 0),
        r.0 <= 8,
        r.1 <= 8,
{
    let mut i: usize = 8;
    let mut run: usize = 0;
    let mut best_at: usize = 8;
    let mut best_len: usize = 0;
    while i > 0
        invariant
            i <= 8,
            groups.len() == 8,
            run == zero_run(groups@, i as int),
            run <= 8 - i,
            (best_at as int, best_len as nat) == longest_zero_run(groups@, i as int),
            best_at <= 8,
            best_len <= 8 - i,
        decreases i,
    {
        i = i - 1;
        if groups[i] == 0 {
            run = run + 1;
        } else {
            run = 0;
        }
        if run > 0 && run >= best_len {
            best_at = i;
            best_len = run;
        }
    }
    (best_at, best_len)
}

/// Appends the groups from `from` up to `to`, with a colon between each two.
fn push_joined(out: &mut Vec<u8>, groups: &Vec<u16>, from: usize, to: usize)
    requires
        from <= to <= groups.len(),
    ensures
        final(out)@ == old(out)@ + joined(groups@.subrange(from as int, to as int)),
    decreases to - from,
{
    let ghost part = groups@.subrange(from as int, to as int);
    if from == to {
        assert(out@ =~= old(out)@ + joined(part));
    } else {
        push_number(out, groups[from], 16);
        if from + 1 < to {
            out.push(COLON);
            push_joined(out, groups, from + 1, to);
            proof {
                assert(part.drop_first() =~= groups@.subrange(from + 1, to as int));
                assert(out@ =~= old(out)@ + joined(part));
            }
        } else {
            assert(out@ =~= old(out)@ + joined(part));
        }
    }
}

/// Appends the text of a version 6 socket address.
pub(crate) fn push_v6_text(out: &mut Vec<u8>, groups: &Vec<u16>, port: u16)
    requires
        groups.len() == 8,
    ensures
        final(out)@ == old(out)@ + v6_text(groups@, port),
{
    out.push(OPEN_BRACKET);
    let (at, len) = find_longest_zero_run(groups);
    proof {
        lemma_longest_zero_run(groups@, 0);
    }
    if len >= 2 {
        push_joined(out, groups, 0, at);
        out.push(COLON);
        out.push(COLON);
        push_joined(out, groups, at + len, 8);
    } else {
        push_joined(out, groups, 0, 8);
        assert(groups@.subrange(0, 8) =~= groups@);
    }
    out.push(CLOSE_BRACKET);
    out.push(COLON);
    push_number(out, port, 10);
    assert(out@ =~= old(out)@ + v6_text(groups@, port));
}

/// A run of zero groups ends within the groups and holds zeros only.
proof fn lemma_zero_run(groups: Seq<u16>, at: int)
    requires
        0 <= at <= groups.len(),
    ensures
        at + zero_run(groups, at) <= groups.len(),
        forall|k: int| at <= k < at + zero_run(groups, at) ==> groups[k] == 0,
    decreases groups.len() - at,
{
    if at < groups.len() && groups[at] == 0 {
        lemma_zero_run(groups, at + 1);
    }
}

/// The longest run of zero groups lies within the groups and holds zeros only.
proof fn lemma_longest_zero_run(groups: Seq<u16>, from: int)
    requires
        0 <= from <= groups.len(),
    ensures
        ({
            let run = longest_zero_run(groups, from);
            &&& from <= run.0 <= groups.len()
            &&& run.0 + run.1 <= groups.len()
            &&& forall|k: int| run.0 <= k < run.0 + run.1 ==> groups[k] == 0
        }),
    decreases groups.len() - from,
{
    if from < groups.len() {
        lemma_longest_zero_run(groups, from + 1);
        lemma_zero_run(groups, from);
    }
}

/// Whether `x` stands in `s` at `at`.
spec fn holds_at(s: Seq<u8>, at: int, x: Seq<u8>) -> bool {
    &&& 0 <= at
    &&& at + x.len() <= s.len()
    &&& forall|k: int| 0 <= k < x.len() ==> s[at + k] == #[trigger] x[k]
}

/// Where a text stands in `s`, so does each part of it.
proof fn lemma_part_holds(
    s: Seq<u8>,
    at: int,
    x: Seq<u8>,
    pre: Seq<u8>,
    mid: Seq<u8>,
    post: Seq<u8>,
)
    requires
        holds_at(s, at, x),
        x =~= pre + mid + post,
    ensures
        holds_at(s, at + pre.len(), mid),
{
    assert forall|k: int| 0 <= k < mid.len() implies s[at + pre.len() + k] == #[trigger] mid[k] by {
        assert(x[pre.len() + k] == mid[k]);
    }
}

/// The text of a group that stands in `s` and is closed there is read as
/// that group.
proof fn lemma_group_read(s: Seq<u8>, start: int, g: u16)
    requires
        holds_at(s, start, number_text(g as nat, 16)),
        start + number_text(g as nat, 16).len() < s.len() ==> digit_value(
            s[start + number_text(g as nat, 16).len()],
            16,
        ) is None,
    ensures
        group_at(s, start) == Some((g, start + number_text(g as nat, 16).len())),
{
    let t = number_text(g as nat, 16);
    lemma_number_text(g as nat, 16);
    lemma_group_text_len(g as nat);
    lemma_field(s, start, t, 16);
}

/// No group is read where no hexadecimal digit stands.
proof fn lemma_no_group(s: Seq<u8>, start: int)
    requires
        0 <= start <= s.len(),
        start < s.len() ==> digit_value(s[start], 16) is None,
    ensures
        group_at(s, start) is None,
{
    assert(digit_run_end(s, start, 16) == start);
    assert(s.subrange(start, start).len() == 0);
}

/// The digits of a decimal run are hexadecimal digits too, so the decimal
/// run at a place ends no later than the hexadecimal one.
proof fn lemma_decimal_run_within(s: Seq<u8>, start: int)
    ensures
        digit_run_end(s, start, 10) <= digit_run_end(s, start, 16),
    decreases s.len() - start,
{
    if 0 <= start < s.len() && digit_value(s[start], 10) is Some {
        lemma_decimal_run_within(s, start + 1);
    } else if 0 <= start < s.len() && digit_value(s[start], 16) is Some {
        lemma_run_is_digits(s, start + 1, 16);
    }
}

/// Where the text of a group stands and no dot follows it, no version 4
/// address in dotted form is read.
proof fn lemma_no_dotted(s: Seq<u8>, start: int, g: u16)
    requires
        holds_at(s, start, number_text(g as nat, 16)),
        start + number_text(g as nat, 16).len() < s.len() ==> digit_value(
            s[start + number_text(g as nat, 16).len()],
            16,
        ) is None && s[start + number_text(g as nat, 16).len()] != DOT,
    ensures
        dotted_at(s, start) is None,
{
    let t = number_text(g as nat, 16);
    lemma_number_text(g as nat, 16);
    lemma_field(s, start, t, 16);
    lemma_decimal_run_within(s, start);
    lemma_run_is_digits(s, start, 10);
    let e10 = digit_run_end(s, start, 10);
    let e16: int = start + t.len();
    if e10 < e16 {
        assert(s[start + (e10 - start)] == t[e10 - start]);
        assert(digit_value(t[e10 - start], 16) is Some);
        assert(digit_value(DOT, 16) is None);
    }
    assert(octet_then(s, start, DOT) is None);
}

/// Groups that stand joined in `s`, and are followed there by neither a
/// digit, nor a dot, nor a colon with a digit behind it, are read as they are.
proof fn lemma_groups_read(s: Seq<u8>, start: int, groups: Seq<u16>, limit: nat)
    requires
        holds_at(s, start, joined(groups)),
        groups.len() <= limit,
        start + joined(groups).len() < s.len() ==> digit_value(
            s[start + joined(groups).len()],
            16,
        ) is None && s[start + joined(groups).len()] != DOT,
        start + joined(groups).len() + 1 < s.len() && s[start + joined(groups).len()] == COLON
            ==> digit_value(s[start + joined(groups).len() + 1], 16) is None,
    ensures
        groups_from(s, start, limit) == (groups, start + joined(groups).len(), false),
        groups.len() > 0 ==> group_at(s, start) is Some,
    decreases groups.len(),
{
    let e: int = start + joined(groups).len();
    if groups.len() == 0 {
        lemma_no_group(s, start);
        lemma_run_is_digits(s, start, 10);
        lemma_decimal_run_within(s, start);
        assert(digit_run_end(s, start, 16) == start);
        assert(s.subrange(start, start).len() == 0);
        assert(octet_then(s, start, DOT) is None);
        assert(groups =~= Seq::<u16>::empty());
    } else {
        let g = groups[0];
        let t = number_text(g as nat, 16);
        let end: int = start + t.len();
        if groups.len() == 1 {
            lemma_group_read(s, start, g);
            lemma_no_dotted(s, start, g);
            if end < s.len() && s[end] == COLON {
                lemma_no_group(s, end + 1);
            }
            assert(groups =~= seq![g]);
        } else {
            let rest = groups.drop_first();
            let jr = joined(rest);
            assert(joined(groups) == t + seq![COLON] + jr);
            lemma_part_holds(s, start, joined(groups), Seq::empty(), t, seq![COLON] + jr);
            lemma_part_holds(s, start, joined(groups), t, seq![COLON], jr);
            lemma_part_holds(s, start, joined(groups), t + seq![COLON], jr, Seq::empty());
            assert(s[end] == seq![COLON][0]);
            assert(digit_value(COLON, 16) is None);
            lemma_group_read(s, start, g);
            lemma_no_dotted(s, start, g);
            lemma_groups_read(s, end + 1, rest, (limit - 1) as nat);
            assert(groups =~= seq![g] + rest);
        }
    }
}

/// Where the pieces of the text of a socket address stand in it.
proof fn lemma_frame(s: Seq<u8>, ip: Seq<u8>, tp: Seq<u8>)
    requires
        s == seq![OPEN_BRACKET] + ip + seq![CLOSE_BRACKET, COLON] + tp,
    ensures
        s.len() == ip.len() + tp.len() + 3,
        s[0] == OPEN_BRACKET,
        holds_at(s, 1, ip),
        s[ip.len() as int + 1] == CLOSE_BRACKET,
        s[ip.len() as int + 2] == COLON,
        holds_at(s, ip.len() as int + 3, tp),
{
    let close = seq![CLOSE_BRACKET, COLON];
    assert(holds_at(s, 0, s));
    lemma_part_holds(s, 0, s, seq![OPEN_BRACKET], ip, close + tp);
    lemma_part_holds(s, 0, s, seq![OPEN_BRACKET] + ip, close, tp);
    lemma_part_holds(s, 0, s, seq![OPEN_BRACKET] + ip + close, tp, Seq::empty());
    assert(s[ip.len() as int + 1] == close[0]);
    assert(s[ip.len() as int + 2] == close[1]);
}

/// The port that stands at the end of a text is read as that port.
proof fn lemma_port_read(s: Seq<u8>, start: int, port: u16)
    requires
        holds_at(s, start, number_text(port as nat, 10)),
        s.len() == start + number_text(port as nat, 10).len(),
    ensures
        port_at(s, start) == Some(port),
{
    lemma_number_text(port as nat, 10);
    lemma_field(s, start, number_text(port as nat, 10), 10);
}

/// Where the text that the library writes for eight groups stands in `s`
/// and is closed by a square bracket there, the groups are read back.
proof fn lemma_v6_ip_read(s: Seq<u8>, groups: Seq<u16>)
    requires
        groups.len() == 8,
        holds_at(s, 1, v6_ip_text(groups)),
        v6_ip_text(groups).len() as int + 1 < s.len(),
        s[v6_ip_text(groups).len() as int + 1] == CLOSE_BRACKET,
    ensures
        parse_v6_ip(s, 1) == Some((groups, v6_ip_text(groups).len() as int + 1)),
{
    let ip = v6_ip_text(groups);
    let q: int = ip.len() as int + 1;
    let run = longest_zero_run(groups, 0);
    lemma_longest_zero_run(groups, 0);
    assert(digit_value(CLOSE_BRACKET, 16) is None);
    assert(digit_value(COLON, 16) is None);
    if run.1 >= 2 {
        let head = groups.subrange(0, run.0);
        let tail = groups.subrange(run.0 + run.1, 8);
        let jh = joined(head);
        let jt = joined(tail);
        let mark = seq![COLON, COLON];
        assert(ip == jh + mark + jt);
        let p: int = jh.len() as int + 1;
        assert(holds_at(s, 1, jh) && holds_at(s, p, mark) && holds_at(s, p + 2, jt)) by {
            lemma_part_holds(s, 1, ip, Seq::empty(), jh, mark + jt);
            lemma_part_holds(s, 1, ip, jh, mark, jt);
            lemma_part_holds(s, 1, ip, jh + mark, jt, Seq::empty());
        }
        assert(s[p] == COLON && s[p + 1] == COLON) by {
            assert(s[p + 0] == mark[0]);
            assert(s[p + 1] == mark[1]);
        }
        assert(p + 2 + jt.len() == q);
        assert(groups_from(s, 1, 8) == (head, p, false)) by {
            lemma_groups_read(s, 1, head, 8);
        }
        assert(groups_from(s, p + 2, (7 - head.len()) as nat) == (tail, q, false)) by {
            lemma_groups_read(s, p + 2, tail, (7 - head.len()) as nat);
        }
        let read = head + zeros((8 - head.len() - tail.len()) as nat) + tail;
        assert(read =~= groups);
    } else {
        assert(ip == joined(groups));
        assert(groups_from(s, 1, 8) == (groups, q, false)) by {
            lemma_groups_read(s, 1, groups, 8);
        }
    }
}

/// Reading the text written for a version 6 address gives the address back.
pub proof fn lemma_v6_round_trip(groups: Seq<u16>, port: u16)
    requires
        groups.len() == 8,
    ensures
        parse_v6_socket_address(v6_text(groups, port)) == Some(
            SocketAddress { ip: v6_from_groups(groups), port },
        ),
        v6_text(groups, port).len() >= 1,
        v6_text(groups, port)[0] == OPEN_BRACKET,
{
    let s = v6_text(groups, port);
    let ip = v6_ip_text(groups);
    let tp = number_text(port as nat, 10);
    lemma_frame(s, ip, tp);
    lemma_port_read(s, ip.len() as int + 3, port);
    lemma_v6_ip_read(s, groups);
}

} // verus!
