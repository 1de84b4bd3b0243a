//! The address formats of the data connection: the argument of PORT and the
//! text of the reply to PASV.

use vstd::prelude::*;
use vstd::string::StringExecFns;
use crate::text::{find_from, from_chars, slice_of, to_chars, until};

verus! {

/// The fields of `s`: the pieces between its `sep`s, in order. A text
/// without `sep` is one field.
pub open spec fn split(s: Seq<char>, sep: char) -> Seq<Seq<char>>
    decreases s.len(),
{
    let k = until(s, sep);
    if k >= s.len() {
        seq![s]
    } else {
        seq![s.take(k as int)] + split(s.skip(k as int + 1), sep)
    }
}

/// The fields of `s`, as `split` gives them.
pub fn split_fields(s: &[char], sep: char) -> (out: Vec<Vec<char>>)
    ensures
        out.len() == split(s@, sep).len(),
        forall|i: int| 0 <= i < out.len() ==> (#[trigger] out[i])@ == split(s@, sep)[i],
{
    let mut out: Vec<Vec<char>> = Vec::new();
    let ghost mut done: Seq<Seq<char>> = Seq::empty();
    let mut i: usize = 0;
    let mut more: bool = true;
    assert(s@.skip(0) == s@);
    while more
        invariant
            i <= s.len(),
            out.len() == done.len(),
            forall|k: int| 0 <= k < out.len() ==> (#[trigger] out[k])@ == done[k],
            more ==> done + split(s@.skip(i as int), sep) == split(s@, sep),
            !more ==> done == split(s@, sep),
        decreases s.len() - i + if more { 1nat } else { 0nat },
    {
        let j = find_from(s, sep, i);
        let field = slice_of(s, i, j);
        let ghost rest = s@.skip(i as int);
        assert(field@ == rest.take(j - i));
        proof {
            if j < s.len() {
                assert(rest.skip(j - i + 1) == s@.skip(j + 1));
                assert(done.push(field@) + split(s@.skip(j + 1), sep) == done + (seq![field@]
                    + split(s@.skip(j + 1), sep)));
            } else {
                assert(rest.take(j - i) == rest);
                assert(done.push(field@) == done + seq![rest]);
            }
            done = done.push(field@);
        }
        out.push(field);
        if j < s.len() {
            i = j + 1;
        } else {
            i = j;
            more = false;
        }
    }
    out
}

/// The digit that `c` is, if it is one of `0` to `9`.
pub open spec fn digit_value(c: char) -> Option<nat> {
    if c == '0' {
        Some(0)
    } else if c == '1' {
        Some(1)
    } else if c == '2' {
        Some(2)
    } else if c == '3' {
        Some(3)
    } else if c == '4' {
        Some(4)
    } else if c == '5' {
        Some(5)
    } else if c == '6' {
        Some(6)
    } else if c == '7' {
        Some(7)
    } else if c == '8' {
        Some(8)
    } else if c == '9' {
        Some(9)
    } else {
        None
    }
}

/// The number that the decimal digits `s` write, or `None` where `s` is
/// empty or holds anything but digits.
pub open spec fn digits_value(s: Seq<char>) -> Option<nat>
    decreases s.len(),
{
    if s.len() == 0 {
        None
    } else {
        match digit_value(s.last()) {
            None => None,
            Some(d) => if s.len() == 1 {
                Some(d)
            } else {
                match digits_value(s.drop_last()) {
                    None => None,
                    Some(v) => Some(v * 10 + d),
                }
            },
        }
    }
}

/// The number a field of a PORT argument stands for: its decimal value,
/// with one `+` allowed in front, and 0 where it is no such number or the
/// number is above 65535.
pub open spec fn field_value(s: Seq<char>) -> u16 {
    let digits = if s.len() > 0 && s[0] == '+' {
        s.skip(1)
    } else {
        s
    };
    match digits_value(digits) {
        Some(v) => if v <= 65535 {
            v as u16
        } else {
            0
        },
        None => 0,
    }
}

fn digit_of(c: char) -> (out: Option<u32>)
    ensures
        out is Some == digit_value(c) is Some,
        out matches Some(d) ==> digit_value(c) == Some(d as nat) && d <= 9,
{
    if c == '0' {
        Some(0)
    } else if c == '1' {
        Some(1)
    } else if c == '2' {
        Some(2)
    } else if c == '3' {
        Some(3)
    } else if c == '4' {
        Some(4)
    } else if c == '5' {
        Some(5)
    } else if c == '6' {
        Some(6)
    } else if c == '7' {
        Some(7)
    } else if c == '8' {
        Some(8)
    } else if c == '9' {
        Some(9)
    } else {
        None
    }
}

/// The number the field `s` stands for.
pub fn parse_field(s: &[char]) -> (out: u16)
    ensures
        out == field_value(s@),
{
    let start: usize = if s.len() > 0 && s[0] == '+' {
        1
    } else {
        0
    };
    let ghost digits = s@.skip(start as int);
    assert(s@.skip(0) == s@);
    if start == s.len() {
        return 0;
    }
    let mut i: usize = start;
    let mut value: u32 = 0;
    let mut over: bool = false;
    while i < s.len()
        invariant
            start <= i <= s.len(),
            start < s.len(),
            digits == s@.skip(start as int),
            start == 0 ==> digits == s@ && s@[0] != '+',
            start == 0 || (start == 1 && s@[0] == '+'),
            i == start ==> value == 0 && !over,
            i > start ==> digits_value(digits.take(i - start)) is Some,
            i > start && !over ==> digits_value(digits.take(i - start)) == Some(value as nat),
            i > start && over ==> digits_value(digits.take(i - start))->0 > 65535,
            value <= 65535,
        decreases s.len() - i,
    {
        let ghost before = digits.take(i - start);
        let ghost now = digits.take(i - start + 1);
        assert(now.len() == i - start + 1);
        assert(now.drop_last() == before);
        assert(now.last() == s@[i as int]);
        assert(before.len() == 0 ==> digits_value(before) is None);
        match digit_of(s[i]) {
            None => {
                proof {
                    assert(digits_value(now) is None);
                    lemma_digits_stay_none(digits, i - start + 1);
                    assert(digits.take(digits.len() as int) == digits);
                }
                return 0;
            },
            Some(d) => {
                if !over {
                    let next: u32 = value * 10 + d;
                    if next > 65535 {
                        over = true;
                    } else {
                        value = next;
                    }
                }
            },
        }
        i += 1;
    }
    assert(digits.take(digits.len() as int) == digits);
    if over {
        0
    } else {
        value as u16
    }
}

/// Once a front part of `s` is no number, `s` is none either.
proof fn lemma_digits_stay_none(s: Seq<char>, k: int)
    requires
        0 < k <= s.len(),
        digits_value(s.take(k)) is None,
    ensures
        digits_value(s) is None,
    decreases s.len() - k,
{
    if k < s.len() {
        assert(s.take(k + 1).drop_last() == s.take(k));
        lemma_digits_stay_none(s, k + 1);
    } else {
        assert(s.take(k) == s);
    }
}

/// The port that the last two fields of a PORT argument give: the first is
/// the high byte and the second the low byte.
pub open spec fn port_of(p1: u16, p2: u16) -> u16 {
    (p1 << 8) | p2
}

/// Where an active data connection goes.
#[derive(Debug, PartialEq, Eq)]
pub struct ActiveTarget {
    pub host: String,
    pub port: u16,
}

/// The host that the first four fields of a PORT argument give: the fields
/// with dots between them.
pub open spec fn host_of(fields: Seq<Seq<char>>) -> Seq<char> {
    fields[0] + seq!['.'] + fields[1] + seq!['.'] + fields[2] + seq!['.'] + fields[3]
}

/// Reads the argument of PORT, `h1,h2,h3,h4,p1,p2`. Anything but six
/// fields is refused.
pub fn parse_port(args: &str) -> (out: Option<ActiveTarget>)
    ensures
        out is Some <==> split(args@, ',').len() == 6,
        out matches Some(target) ==> {
            let fields = split(args@, ',');
            &&& target.host@ == host_of(fields)
            &&& target.port == port_of(field_value(fields[4]), field_value(fields[5]))
        },
{
    let chars = to_chars(args);
    let fields = split_fields(chars.as_slice(), ',');
    if fields.len() != 6 {
        return None;
    }
    let mut host: Vec<char> = Vec::new();
    host.append(&mut fields[0].clone());
    host.push('.');
    host.append(&mut fields[1].clone());
    host.push('.');
    host.append(&mut fields[2].clone());
    host.push('.');
    host.append(&mut fields[3].clone());
    let p1 = parse_field(fields[4].as_slice());
    let p2 = parse_field(fields[5].as_slice());
    let port: u16 = (p1 << 8) | p2;
    Some(ActiveTarget { host: from_chars(host.as_slice()), port })
}

/// The digit character for `d`, which is below ten.
pub open spec fn digit_char(d: nat) -> char {
    if d == 0 {
        '0'
    } else if d == 1 {
        '1'
    } else if d == 2 {
        '2'
    } else if d == 3 {
        '3'
    } else if d == 4 {
        '4'
    } else if d == 5 {
        '5'
    } else if d == 6 {
        '6'
    } else if d == 7 {
        '7'
    } else if d == 8 {
        '8'
    } else {
        '9'
    }
}

/// `n` written in decimal, without leading zeros.
pub open spec fn decimal(n: nat) -> Seq<char>
    decreases n,
{
    if n < 10 {
        seq![digit_char(n)]
    } else {
        decimal(n / 10).push(digit_char(n % 10))
    }
}

fn digit_for(d: u16) -> (out: char)
    requires
        d < 10,
    ensures
        out == digit_char(d as nat),
{
    if d == 0 {
        '0'
    } else if d == 1 {
        '1'
    } else if d == 2 {
        '2'
    } else if d == 3 {
        '3'
    } else if d == 4 {
        '4'
    } else if d == 5 {
        '5'
    } else if d == 6 {
        '6'
    } else if d == 7 {
        '7'
    } else if d == 8 {
        '8'
    } else {
        '9'
    }
}

/// Appends `n` in decimal to `out`.
fn push_decimal(out: &mut Vec<char>, n: u16)
    ensures
        final(out)@ == old(out)@ + decimal(n as nat),
    decreases n,
{
    if n < 10 {
        out.push(digit_for(n));
        assert(old(out)@.push(digit_char(n as nat)) == old(out)@ + seq![digit_char(n as nat)]);
    } else {
        push_decimal(out, n / 10);
        out.push(digit_for(n % 10));
        assert((old(out)@ + decimal(n as nat / 10)).push(digit_char(n as nat % 10)) == old(out)@
            + decimal(n as nat));
    }
}

/// The two port bytes of the reply to PASV are the port: each is below
/// 256, the first times 256 plus the second is the port, and read as the
/// last two fields of a PORT argument they give the port back.
pub proof fn lemma_port_bytes(port: u16)
    ensures
        (port >> 8) < 256,
        (port & 0xFF) < 256,
        (port >> 8) * 256 + (port & 0xFF) == port,
        port_of(port >> 8, port & 0xFF) == port,
{
    assert((port >> 8) < 256 && (port & 0xFF) < 256 && (port >> 8) * 256 + (port & 0xFF) == port
        && ((port >> 8) << 8) | (port & 0xFF) == port) by (bit_vector);
}

/// The text of the reply to PASV for a listener at the IPv4 address
/// `h1.h2.h3.h4` and `port`: the port goes as its high byte and its low
/// byte.
pub open spec fn passive_text(h1: u8, h2: u8, h3: u8, h4: u8, port: u16) -> Seq<char> {
    "Entering Passive Mode ("@ + decimal(h1 as nat) + seq![','] + decimal(h2 as nat) + seq![',']
        + decimal(h3 as nat) + seq![','] + decimal(h4 as nat) + seq![','] + decimal(
        (port >> 8) as nat,
    ) + seq![','] + decimal((port & 0xFF) as nat) + seq![')']
}

/// The text of the reply to PASV.
pub fn format_passive(h1: u8, h2: u8, h3: u8, h4: u8, port: u16) -> (out: String)
    ensures
        out@ == passive_text(h1, h2, h3, h4, port),
{
    let mut tail: Vec<char> = Vec::new();
    push_decimal(&mut tail, h1 as u16);
    tail.push(',');
    push_decimal(&mut tail, h2 as u16);
    tail.push(',');
    push_decimal(&mut tail, h3 as u16);
    tail.push(',');
    push_decimal(&mut tail, h4 as u16);
    tail.push(',');
    push_decimal(&mut tail, port >> 8);
    tail.push(',');
    push_decimal(&mut tail, port & 0xFF);
    tail.push(')');
    let out = "Entering Passive Mode (".to_owned().concat(from_chars(tail.as_slice()).as_str());
    assert(out@ =~= passive_text(h1, h2, h3, h4, port));
    out
}

} // verus!
