//! Reading a hardware address written as colon-separated hexadecimal bytes
//! ("aa:bb:cc:dd:ee:ff").
//!
//! Each colon-separated part is read the way Rust reads a `u8` in base 16:
//! an optional leading `+`, then at least one hexadecimal digit (either
//! case), with a value of at most 255. The address is read only if every
//! part is; any number of parts is accepted.

use vstd::prelude::*;

verus! {

/// Value of a hexadecimal digit.
pub open spec fn hex_digit(c: char) -> Option<nat> {
    if '0' <= c && c <= '9' {
        Some((c as nat - '0' as nat) as nat)
    } else if 'a' <= c && c <= 'f' {
        Some((c as nat - 'a' as nat + 10) as nat)
    } else if 'A' <= c && c <= 'F' {
        Some((c as nat - 'A' as nat + 10) as nat)
    } else {
        None
    }
}

/// Value of a string of hexadecimal digits (0 for the empty string).
pub open spec fn hex_value(s: Seq<char>) -> Option<nat>
    decreases s.len(),
{
    if s.len() == 0 {
        Some(0)
    } else {
        match (hex_value(s.drop_last()), hex_digit(s.last())) {
            (Some(v), Some(d)) => Some(v * 16 + d),
            _ => None,
        }
    }
}

/// The digits of a part: the part without a leading `+`.
pub open spec fn part_digits(s: Seq<char>) -> Seq<char> {
    if s.len() > 0 && s[0] == '+' {
        s.drop_first()
    } else {
        s
    }
}

/// A part read as a byte in base 16.
pub open spec fn hex_byte(s: Seq<char>) -> Option<u8> {
    let digits = part_digits(s);
    if digits.len() == 0 {
        None
    } else {
        match hex_value(digits) {
            Some(v) => if v <= 255 {
                Some(v as u8)
            } else {
                None
            },
            None => None,
        }
    }
}

/// The parts of `s` between colons (one part for a string without colons,
/// empty parts where colons are adjacent or at an end).
pub open spec fn split_colons(s: Seq<char>) -> Seq<Seq<char>>
    decreases s.len(),
{
    if s.len() == 0 {
        seq![Seq::<char>::empty()]
    } else {
        let p = split_colons(s.drop_last());
        if s.last() == ':' {
            p.push(Seq::<char>::empty())
        } else {
            p.update(p.len() - 1, p.last().push(s.last()))
        }
    }
}

/// Every part read as a byte, or nothing if some part cannot be read.
pub open spec fn hex_bytes(parts: Seq<Seq<char>>) -> Option<Seq<u8>>
    decreases parts.len(),
{
    if parts.len() == 0 {
        Some(Seq::empty())
    } else {
        match (hex_bytes(parts.drop_last()), hex_byte(parts.last())) {
            (Some(bs), Some(b)) => Some(bs.push(b)),
            _ => None,
        }
    }
}

/// The bytes of a colon-separated hexadecimal address, if it can be read.
pub open spec fn spec_parse_mac(s: Seq<char>) -> Option<Seq<u8>> {
    hex_bytes(split_colons(s))
}

proof fn lemma_split_nonempty(s: Seq<char>)
    ensures
        split_colons(s).len() >= 1,
    decreases s.len(),
{
    if s.len() > 0 {
        lemma_split_nonempty(s.drop_last());
    }
}

proof fn lemma_hex_value_grows(s: Seq<char>, c: char)
    requires
        hex_value(s) is Some,
        hex_digit(c) is Some,
    ensures
        hex_value(s.push(c)) == Some(hex_value(s).unwrap() * 16 + hex_digit(c).unwrap()),
{
    assert(s.push(c).drop_last() =~= s);
}

/// Reads one part as a byte in base 16.
fn parse_hex_byte(part: &Vec<char>) -> (r: Option<u8>)
    ensures
        r == hex_byte(part@),
{
    let n = part.len();
    let start: usize = if n > 0 && part[0] == '+' { 1 } else { 0 };
    let ghost digits = part_digits(part@);
    assert(digits =~= part@.subrange(start as int, n as int));
    if start == n {
        return None;
    }
    let mut value: u32 = 0;
    let mut i: usize = start;
    let ghost mut exact: nat = 0;
    while i < n
        invariant
            start <= i <= n,
            n == part@.len(),
            digits == part_digits(part@),
            digits =~= part@.subrange(start as int, n as int),
            hex_value(part@.subrange(start as int, i as int)) == Some(exact),
            value == if exact < 256 { exact } else { 256 },
        decreases n - i,
    {
        let c = part[i];
        let d: u32 = if '0' <= c && c <= '9' {
            (c as u32) - ('0' as u32)
        } else if 'a' <= c && c <= 'f' {
            (c as u32) - ('a' as u32) + 10
        } else if 'A' <= c && c <= 'F' {
            (c as u32) - ('A' as u32) + 10
        } else {
            proof {
                let pre = part@.subrange(start as int, i as int);
                assert(part@.subrange(start as int, i as int + 1) =~= pre.push(c));
                assert(hex_digit(part@[i as int]) is None);
                lemma_hex_none_propagates(part@, start as int, i as int);
                assert(hex_value(digits) is None);
                assert(digits.len() > 0);
                assert(part_digits(part@) == digits);
                assert(hex_byte(part@) is None);
            }
            return None;
        };
        proof {
            let pre = part@.subrange(start as int, i as int);
            assert(part@.subrange(start as int, i as int + 1) =~= pre.push(c));
            lemma_hex_value_grows(pre, c);
            exact = exact * 16 + d as nat;
        }
        value = if value >= 256 { 256 } else {
            let v = value * 16 + d;
            if v >= 256 { 256 } else { v }
        };
        i = i + 1;
    }
    if value <= 255 {
        Some(value as u8)
    } else {
        None
    }
}

/// Once a prefix of the digits holds an invalid digit at its end, the
/// whole digit string has no value.
proof fn lemma_hex_none_propagates(s: Seq<char>, start: int, i: int)
    requires
        0 <= start <= i < s.len(),
        hex_digit(s[i]) is None,
    ensures
        hex_value(s.subrange(start, s.len() as int)) is None,
{
    lemma_hex_none_extends(s.subrange(start, s.len() as int), i - start);
}

proof fn lemma_hex_none_extends(t: Seq<char>, k: int)
    requires
        0 <= k < t.len(),
        hex_digit(t[k]) is None,
    ensures
        hex_value(t) is None,
    decreases t.len(),
{
    if k == t.len() - 1 {
    } else {
        assert(t.drop_last()[k] == t[k]);
        lemma_hex_none_extends(t.drop_last(), k);
    }
}

/// Reads a colon-separated hexadecimal hardware address.
pub fn parse_mac_address(text: &str) -> (r: Option<Vec<u8>>)
    ensures
        match spec_parse_mac(text@) {
            Some(bytes) => r matches Some(v) && v@ == bytes,
            None => r.is_none(),
        },
{
    let n = text.unicode_len();
    let mut parts: Vec<Vec<char>> = Vec::new();
    let mut current: Vec<char> = Vec::new();
    let mut i: usize = 0;
    while i < n
        invariant
            n == text@.len(),
            i <= n,
            split_colons(text@.take(i as int)).len() == parts@.len() + 1,
            forall|j: int|
                0 <= j < parts@.len() ==> #[trigger] parts@[j]@ == split_colons(
                    text@.take(i as int),
                )[j],
            current@ == split_colons(text@.take(i as int)).last(),
        decreases n - i,
    {
        let c = text.get_char(i);
        proof {
            assert(text@.take(i as int + 1).drop_last() =~= text@.take(i as int));
            lemma_split_nonempty(text@.take(i as int));
        }
        if c == ':' {
            let done = current;
            parts.push(done);
            current = Vec::new();
        } else {
            current.push(c);
        }
        i = i + 1;
    }
    proof {
        assert(text@.take(n as int) =~= text@);
    }
    let ghost all = split_colons(text@);
    parts.push(current);
    assert(parts@.len() == all.len());
    let mut bytes: Vec<u8> = Vec::new();
    let mut k: usize = 0;
    while k < parts.len()
        invariant
            all == split_colons(text@),
            parts@.len() == all.len(),
            forall|j: int| 0 <= j < parts@.len() ==> #[trigger] parts@[j]@ == all[j],
            k <= parts@.len(),
            hex_bytes(all.take(k as int)) == Some(bytes@),
        decreases parts@.len() - k,
    {
        proof {
            assert(all.take(k as int + 1).drop_last() =~= all.take(k as int));
        }
        match parse_hex_byte(&parts[k]) {
            Some(b) => {
                bytes.push(b);
            },
            None => {
                proof {
                    assert(parts@[k as int]@ == all[k as int]);
                    assert(hex_byte(all[k as int]) is None);
                    lemma_hex_bytes_none_extends(all, k as int);
                    assert(spec_parse_mac(text@) is None);
                }
                return None;
            },
        }
        k = k + 1;
    }
    proof {
        assert(all.take(parts@.len() as int) =~= all);
    }
    Some(bytes)
}

proof fn lemma_hex_bytes_none_extends(parts: Seq<Seq<char>>, k: int)
    requires
        0 <= k < parts.len(),
        hex_byte(parts[k]) is None,
    ensures
        hex_bytes(parts) is None,
    decreases parts.len(),
{
    if k < parts.len() - 1 {
        assert(parts.drop_last()[k] == parts[k]);
        lemma_hex_bytes_none_extends(parts.drop_last(), k);
    }
}

} // verus!
