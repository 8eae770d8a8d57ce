//! Network addresses as plain values, and their textual form.

use vstd::prelude::*;
use vstd::string::StringExecFns;

verus! {

/// An IP address: four octets, or eight 16-bit groups.
#[derive(Clone, Copy, Debug, PartialEq, Eq, Hash)]
pub enum IpAddress {
    V4([u8; 4]),
    V6([u16; 8]),
}

/// The character that stands for a digit below sixteen, in lower case.
pub open spec fn digit_char(d: int) -> char {
    if d == 0 {
        '0'
    } else if d == 1 {
        '1'
    } else if d == 2 {
        '2'
    } else if d == 3 {
        '3'
    } else if d == 4 {
        '4'
    } else if d == 5 {
        '5'
    } else if d == 6 {
        '6'
    } else if d == 7 {
        '7'
    } else if d == 8 {
        '8'
    } else if d == 9 {
        '9'
    } else if d == 10 {
        'a'
    } else if d == 11 {
        'b'
    } else if d == 12 {
        'c'
    } else if d == 13 {
        'd'
    } else if d == 14 {
        'e'
    } else {
        'f'
    }
}

/// The decimal digits of `n`, most significant first, without leading
/// zeros; a single `0` for zero.
pub open spec fn decimal(n: nat) -> Seq<char>
    decreases n,
{
    if n < 10 {
        seq![digit_char(n as int)]
    } else {
        decimal(n / 10).push(digit_char((n % 10) as int))
    }
}

/// Four octets in decimal, separated by dots.
pub open spec fn dotted_quad(octets: Seq<u8>) -> Seq<char> {
    decimal(octets[0] as nat) + seq!['.'] + decimal(octets[1] as nat) + seq!['.']
        + decimal(octets[2] as nat) + seq!['.'] + decimal(octets[3] as nat)
}

fn digit_str(d: u8) -> (s: &'static str)
    requires
        d < 16,
    ensures
        s@ == seq![digit_char(d as int)],
{
    proof {
        reveal_strlit("0");
        reveal_strlit("1");
        reveal_strlit("2");
        reveal_strlit("3");
        reveal_strlit("4");
        reveal_strlit("5");
        reveal_strlit("6");
        reveal_strlit("7");
        reveal_strlit("8");
        reveal_strlit("9");
        reveal_strlit("a");
        reveal_strlit("b");
        reveal_strlit("c");
        reveal_strlit("d");
        reveal_strlit("e");
        reveal_strlit("f");
    }
    match d {
        0 => "0",
        1 => "1",
        2 => "2",
        3 => "3",
        4 => "4",
        5 => "5",
        6 => "6",
        7 => "7",
        8 => "8",
        9 => "9",
        10 => "a",
        11 => "b",
        12 => "c",
        13 => "d",
        14 => "e",
        _ => "f",
    }
}

fn push_decimal(out: &mut String, n: u8)
    ensures
        final(out)@ == old(out)@ + decimal(n as nat),
{
    proof {
        reveal_with_fuel(decimal, 3);
    }
    if n >= 100 {
        out.append(digit_str(n / 100));
    }
    if n >= 10 {
        out.append(digit_str((n / 10) % 10));
    }
    out.append(digit_str(n % 10));
}

/// The hexadecimal digits of `n` in lower case, most significant first,
/// without leading zeros; a single `0` for zero.
pub open spec fn hex(n: nat) -> Seq<char>
    decreases n,
{
    if n < 16 {
        seq![digit_char(n as int)]
    } else {
        hex(n / 16).push(digit_char((n % 16) as int))
    }
}

/// Groups in hexadecimal, separated by colons.
pub open spec fn colon_hex(groups: Seq<u16>) -> Seq<char>
    decreases groups.len(),
{
    if groups.len() == 0 {
        Seq::empty()
    } else if groups.len() == 1 {
        hex(groups[0] as nat)
    } else {
        colon_hex(groups.drop_last()) + seq![':'] + hex(groups.last() as nat)
    }
}

/// The number of zero groups in a row from index `start` on.
pub open spec fn zero_run(groups: Seq<u16>, start: int) -> nat
    decreases groups.len() - start,
{
    if 0 <= start < groups.len() && groups[start] == 0 {
        1 + zero_run(groups, start + 1)
    } else {
        0
    }
}

/// Where the longest run of zero groups begins, among the runs that begin
/// before `upto`, and how long it is; of several runs of that length the
/// first. `(0, 0)` where no group before `upto` is zero.
pub open spec fn longest_zero_run(groups: Seq<u16>, upto: int) -> (int, nat)
    decreases upto,
{
    if upto <= 0 {
        (0, 0)
    } else {
        let best = longest_zero_run(groups, upto - 1);
        let here = zero_run(groups, upto - 1);
        if here > best.1 {
            (upto - 1, here)
        } else {
            best
        }
    }
}

/// Whether eight groups hold a four-octet address: five zero groups, then
/// `ffff`.
pub open spec fn is_v4_mapped(groups: Seq<u16>) -> bool {
    groups[0] == 0 && groups[1] == 0 && groups[2] == 0 && groups[3] == 0 && groups[4] == 0
        && groups[5] == 0xffff
}

/// The four octets that the last two of eight groups hold.
pub open spec fn mapped_octets(groups: Seq<u16>) -> Seq<u8> {
    seq![
        (groups[6] / 256) as u8,
        (groups[6] % 256) as u8,
        (groups[7] / 256) as u8,
        (groups[7] % 256) as u8,
    ]
}

/// Eight groups as text: the groups in hexadecimal with colons between
/// them, the longest run of two or more zero groups shortened to `::`; an
/// address that holds a four-octet address as `::ffff:` and the dotted quad.
pub open spec fn colon_groups(groups: Seq<u16>) -> Seq<char> {
    if is_v4_mapped(groups) {
        seq![':', ':', 'f', 'f', 'f', 'f', ':'] + dotted_quad(mapped_octets(groups))
    } else {
        let (start, len) = longest_zero_run(groups, 8);
        if len > 1 {
            colon_hex(groups.subrange(0, start)) + seq![':', ':'] + colon_hex(
                groups.subrange(start + len, 8),
            )
        } else {
            colon_hex(groups)
        }
    }
}

/// A run of zero groups ends within the sequence.
pub proof fn zero_run_is_bounded(groups: Seq<u16>, start: int)
    requires
        0 <= start <= groups.len(),
    ensures
        start + zero_run(groups, start) <= groups.len(),
    decreases groups.len() - start,
{
    if start < groups.len() && groups[start] == 0 {
        zero_run_is_bounded(groups, start + 1);
    }
}

/// `longest_zero_run` finds the longest run of zero groups, and of several
/// runs of that length the first: no run that begins before `upto` is
/// longer, and none that begins before it is as long.
pub proof fn longest_zero_run_is_first_longest(groups: Seq<u16>, upto: int)
    requires
        0 <= upto <= groups.len(),
    ensures
        ({
            let (start, len) = longest_zero_run(groups, upto);
            &&& 0 <= start
            &&& start + len <= groups.len()
            &&& len > 0 ==> start < upto && len == zero_run(groups, start)
            &&& forall|i: int| 0 <= i < upto ==> zero_run(groups, i) <= len
            &&& forall|i: int| 0 <= i < start ==> zero_run(groups, i) < len
        }),
    decreases upto,
{
    if upto > 0 {
        longest_zero_run_is_first_longest(groups, upto - 1);
        zero_run_is_bounded(groups, upto - 1);
    }
}

fn push_hex(out: &mut String, n: u16)
    ensures
        final(out)@ == old(out)@ + hex(n as nat),
{
    proof {
        reveal_with_fuel(hex, 4);
    }
    if n >= 4096 {
        out.append(digit_str((n / 4096) as u8));
    }
    if n >= 256 {
        out.append(digit_str(((n / 256) % 16) as u8));
    }
    if n >= 16 {
        out.append(digit_str(((n / 16) % 16) as u8));
    }
    out.append(digit_str((n % 16) as u8));
}

fn push_colon_hex(out: &mut String, groups: &[u16; 8], from: usize, to: usize)
    requires
        from <= to <= 8,
    ensures
        final(out)@ == old(out)@ + colon_hex(groups@.subrange(from as int, to as int)),
{
    let mut i: usize = from;
    while i < to
        invariant
            from <= i <= to <= 8,
            out@ == old(out)@ + colon_hex(groups@.subrange(from as int, i as int)),
        decreases to - i,
    {
        let ghost upto = groups@.subrange(from as int, i + 1);
        assert(upto.drop_last() =~= groups@.subrange(from as int, i as int));
        proof {
            reveal_strlit(":");
        }
        if i > from {
            out.append(":");
        }
        push_hex(out, groups[i]);
        i += 1;
    }
}

fn zero_run_at(groups: &[u16; 8], start: usize) -> (len: usize)
    requires
        start < 8,
    ensures
        len == zero_run(groups@, start as int),
        start + len <= 8,
{
    let mut j: usize = start;
    while j < 8 && groups[j] == 0
        invariant
            start <= j <= 8,
            zero_run(groups@, start as int) == (j - start) + zero_run(groups@, j as int),
        decreases 8 - j,
    {
        j += 1;
    }
    j - start
}

fn find_longest_zero_run(groups: &[u16; 8]) -> (found: (usize, usize))
    ensures
        (found.0 as int, found.1 as nat) == longest_zero_run(groups@, 8),
        found.0 + found.1 <= 8,
{
    let mut start: usize = 0;
    let mut len: usize = 0;
    let mut i: usize = 0;
    while i < 8
        invariant
            i <= 8,
            (start as int, len as nat) == longest_zero_run(groups@, i as int),
            start + len <= 8,
        decreases 8 - i,
    {
        let here = zero_run_at(groups, i);
        if here > len {
            start = i;
            len = here;
        }
        i += 1;
    }
    (start, len)
}

fn format_v4(octets: &[u8; 4]) -> (s: String)
    ensures
        s@ == dotted_quad(octets@),
{
    proof {
        reveal_strlit(".");
    }
    let mut out = String::new();
    push_decimal(&mut out, octets[0]);
    out.append(".");
    push_decimal(&mut out, octets[1]);
    out.append(".");
    push_decimal(&mut out, octets[2]);
    out.append(".");
    push_decimal(&mut out, octets[3]);
    out
}

fn format_v6(groups: &[u16; 8]) -> (s: String)
    ensures
        s@ == colon_groups(groups@),
{
    proof {
        reveal_strlit("::ffff:");
        reveal_strlit("::");
    }
    let mapped = groups[0] == 0 && groups[1] == 0 && groups[2] == 0 && groups[3] == 0 && groups[4]
        == 0 && groups[5] == 0xffff;
    if mapped {
        let octets: [u8; 4] = [
            (groups[6] / 256) as u8,
            (groups[6] % 256) as u8,
            (groups[7] / 256) as u8,
            (groups[7] % 256) as u8,
        ];
        let mut out = String::from_str("::ffff:");
        let quad = format_v4(&octets);
        out.append(quad.as_str());
        out
    } else {
        let (start, len) = find_longest_zero_run(groups);
        let mut out = String::new();
        if len > 1 {
            push_colon_hex(&mut out, groups, 0, start);
            out.append("::");
            push_colon_hex(&mut out, groups, start + len, 8);
        } else {
            push_colon_hex(&mut out, groups, 0, 8);
            assert(groups@.subrange(0, 8) =~= groups@);
        }
        out
    }
}

impl IpAddress {
    /// Whether this is a four-octet address.
    pub fn is_ipv4(&self) -> (b: bool)
        ensures
            b == (*self is V4),
    {
        match self {
            IpAddress::V4(_) => true,
            IpAddress::V6(_) => false,
        }
    }

    /// Whether this is the same address as `other`.
    pub fn same_as(&self, other: &IpAddress) -> (same: bool)
        ensures
            same == (*self == *other),
    {
        match (self, other) {
            (IpAddress::V4(a), IpAddress::V4(b)) => {
                let same = a[0] == b[0] && a[1] == b[1] && a[2] == b[2] && a[3] == b[3];
                proof {
                    broadcast use vstd::array::group_array_axioms;

                    if same {
                        assert(*a =~= *b);
                    }
                }
                same
            },
            (IpAddress::V6(a), IpAddress::V6(b)) => {
                let same = a[0] == b[0] && a[1] == b[1] && a[2] == b[2] && a[3] == b[3] && a[4]
                    == b[4] && a[5] == b[5] && a[6] == b[6] && a[7] == b[7];
                proof {
                    broadcast use vstd::array::group_array_axioms;

                    if same {
                        assert(*a =~= *b);
                    }
                }
                same
            },
            _ => false,
        }
    }

    /// The address as text: a dotted quad, or groups with colons.
    pub open spec fn text(self) -> Seq<char> {
        match self {
            IpAddress::V4(octets) => dotted_quad(octets@),
            IpAddress::V6(groups) => colon_groups(groups@),
        }
    }

    /// The address as text, as it is written in settings and shown to a
    /// reader.
    pub fn to_string(&self) -> (s: String)
        ensures
            s@ == self.text(),
    {
        match self {
            IpAddress::V4(octets) => format_v4(octets),
            IpAddress::V6(groups) => format_v6(groups),
        }
    }
}

} // verus!
