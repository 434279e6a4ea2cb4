//! Textual form of addresses: colon-separated hexadecimal octets such as
//! `ff:ff` or `00:11:22:33:44:55:66:77`.

use vstd::prelude::*;

use crate::parser::addressing::{Address, ExtendedAddress, ShortAddress};
use crate::Error;

verus! {

/// The parts of `s` between colons, in order (one more part than colons).
pub open spec fn split_colons(s: Seq<char>) -> Seq<Seq<char>>
    decreases s.len(),
{
    if s.len() == 0 {
        seq![Seq::empty()]
    } else {
        let p = split_colons(s.drop_last());
        if s.last() == ':' {
            p.push(Seq::empty())
        } else {
            p.update(p.len() - 1, p.last().push(s.last()))
        }
    }
}

/// The value of a hexadecimal digit.
pub open spec fn hex_digit(c: char) -> Option<u8> {
    if '0' <= c && c <= '9' {
        Some((c as u32 - '0' as u32) as u8)
    } else if 'a' <= c && c <= 'f' {
        Some((c as u32 - 'a' as u32 + 10) as u8)
    } else if 'A' <= c && c <= 'F' {
        Some((c as u32 - 'A' as u32 + 10) as u8)
    } else {
        None
    }
}

/// The value of a sequence of hexadecimal digits (non-digits count as zero).
pub open spec fn hex_value(d: Seq<char>) -> int
    decreases d.len(),
{
    if d.len() == 0 {
        0
    } else {
        16 * hex_value(d.drop_last()) + match hex_digit(d.last()) {
            Some(v) => v as int,
            None => 0,
        }
    }
}

/// The digits of a part: the part without a leading `+` sign.
pub open spec fn digits_of(p: Seq<char>) -> Seq<char> {
    if p.len() > 0 && p[0] == '+' {
        p.drop_first()
    } else {
        p
    }
}

/// A part is an octet in hexadecimal: an optional `+` sign followed by at
/// least one hexadecimal digit, with a value that fits an octet.
pub open spec fn part_ok(p: Seq<char>) -> bool {
    let d = digits_of(p);
    &&& d.len() > 0
    &&& forall|i: int| 0 <= i < d.len() ==> (#[trigger] hex_digit(d[i])) is Some
    &&& hex_value(d) <= 255
}

/// The octet that a part denotes.
pub open spec fn part_value(p: Seq<char>) -> u8 {
    hex_value(digits_of(p)) as u8
}

/// The octets that the parts denote.
pub open spec fn parts_values(parts: Seq<Seq<char>>) -> Seq<u8> {
    parts.map_values(|p: Seq<char>| part_value(p))
}

/// Inputs on which parsing succeeds or fails without a malformed octet: the
/// empty string, strings with other than two or eight parts, and strings
/// whose parts are all well-formed octets.
pub open spec fn parse_input_ok(s: Seq<char>) -> bool {
    let parts = split_colons(s);
    s.len() == 0 || (parts.len() != 2 && parts.len() != 8) || forall|i: int|
        0 <= i < parts.len() ==> part_ok(#[trigger] parts[i])
}

proof fn lemma_split_nonempty(s: Seq<char>)
    ensures
        split_colons(s).len() >= 1,
    decreases s.len(),
{
    if s.len() > 0 {
        lemma_split_nonempty(s.drop_last());
    }
}

proof fn lemma_hex_value_nonneg(d: Seq<char>)
    ensures
        hex_value(d) >= 0,
    decreases d.len(),
{
    if d.len() > 0 {
        lemma_hex_value_nonneg(d.drop_last());
    }
}

proof fn lemma_digits_push(p: Seq<char>, c: char)
    requires
        p.len() > 0 || c != '+',
    ensures
        digits_of(p.push(c)) == digits_of(p).push(c),
{
    if p.len() > 0 && p[0] == '+' {
        assert(p.push(c).drop_first() =~= p.drop_first().push(c));
    }
}

/// The value of a hexadecimal digit character.
fn hex_digit_value(c: char) -> (v: u8)
    ensures
        hex_digit(c) matches Some(d) ==> v == d,
        hex_digit(c) is None ==> v == 0,
{
    if '0' <= c && c <= '9' {
        (c as u32 - '0' as u32) as u8
    } else if 'a' <= c && c <= 'f' {
        (c as u32 - 'a' as u32 + 10) as u8
    } else if 'A' <= c && c <= 'F' {
        (c as u32 - 'A' as u32 + 10) as u8
    } else {
        0
    }
}

/// Counts the colons of `s`, which is one less than the number of parts.
fn count_colons(s: &str) -> (n: usize)
    ensures
        n + 1 == split_colons(s@).len(),
{
    let len = s.unicode_len();
    let mut i: usize = 0;
    let mut colons: usize = 0;
    while i < len
        invariant
            len == s@.len(),
            i <= len,
            colons + 1 == split_colons(s@.subrange(0, i as int)).len(),
            colons <= i,
        decreases len - i,
    {
        let c = s.get_char(i);
        proof {
            lemma_split_nonempty(s@.subrange(0, i as int));
            assert(s@.subrange(0, i + 1).drop_last() =~= s@.subrange(0, i as int));
        }
        if c == ':' {
            colons = colons + 1;
        }
        i = i + 1;
    }
    assert(s@.subrange(0, len as int) =~= s@);
    colons
}

/// Parses the parts of `s`, giving each part's value capped at 256.
fn part_values(s: &str) -> (values: Vec<u16>)
    ensures
        values@.len() == split_colons(s@).len(),
        forall|k: int|
            0 <= k < values@.len() ==> #[trigger] values@[k] as int == if hex_value(
                digits_of(split_colons(s@)[k]),
            ) < 256 {
                hex_value(digits_of(split_colons(s@)[k]))
            } else {
                256
            },
{
    let len = s.unicode_len();
    let mut values: Vec<u16> = Vec::new();
    let mut cur: u16 = 0;
    let mut empty = true;
    let mut i: usize = 0;
    while i < len
        invariant
            len == s@.len(),
            i <= len,
            empty == (split_colons(s@.subrange(0, i as int)).last().len() == 0),
            values@.len() + 1 == split_colons(s@.subrange(0, i as int)).len(),
            cur <= 256,
            forall|k: int|
                0 <= k < values@.len() ==> #[trigger] values@[k] as int == if hex_value(
                    digits_of(split_colons(s@.subrange(0, i as int))[k]),
                ) < 256 {
                    hex_value(digits_of(split_colons(s@.subrange(0, i as int))[k]))
                } else {
                    256
                },
            cur as int == if hex_value(digits_of(split_colons(s@.subrange(0, i as int)).last()))
                < 256 {
                hex_value(digits_of(split_colons(s@.subrange(0, i as int)).last()))
            } else {
                256
            },
        decreases len - i,
    {
        let c = s.get_char(i);
        let ghost prev = split_colons(s@.subrange(0, i as int));
        proof {
            lemma_split_nonempty(s@.subrange(0, i as int));
            assert(s@.subrange(0, i + 1).drop_last() =~= s@.subrange(0, i as int));
            assert(s@.subrange(0, i + 1).last() == c);
        }
        if c == ':' {
            values.push(cur);
            cur = 0;
            empty = true;
            proof {
                let next = split_colons(s@.subrange(0, i + 1));
                assert(next == prev.push(Seq::empty()));
                assert(digits_of(Seq::<char>::empty()) =~= Seq::<char>::empty());
                assert forall|k: int| 0 <= k < values@.len() implies #[trigger] values@[k] as int
                    == if hex_value(digits_of(next[k])) < 256 {
                    hex_value(digits_of(next[k]))
                } else {
                    256
                } by {
                    if k < values@.len() - 1 {
                        assert(next[k] == prev[k]);
                    } else {
                        assert(next[k] == prev.last());
                    }
                }
            }
        } else {
            let ghost last = prev.last();
            let was_empty = empty;
            empty = false;
            if was_empty && c == '+' {
                proof {
                    let next = split_colons(s@.subrange(0, i + 1));
                    assert(next == prev.update(prev.len() - 1, last.push(c)));
                    assert(last.push(c) =~= seq!['+']);
                    assert(digits_of(last.push(c)) =~= Seq::<char>::empty());
                    assert forall|k: int| 0 <= k < values@.len() implies #[trigger] values@[k] as int
                        == if hex_value(digits_of(next[k])) < 256 {
                        hex_value(digits_of(next[k]))
                    } else {
                        256
                    } by {
                        assert(next[k] == prev[k]);
                    }
                }
            } else {
                let d = hex_digit_value(c) as u16;
                proof {
                    lemma_hex_value_nonneg(digits_of(last));
                }
                if cur >= 256 || 16 * cur + d >= 256 {
                    cur = 256;
                } else {
                    cur = 16 * cur + d;
                }
                proof {
                    let next = split_colons(s@.subrange(0, i + 1));
                    assert(next == prev.update(prev.len() - 1, last.push(c)));
                    lemma_digits_push(last, c);
                    let dl = digits_of(last).push(c);
                    assert(dl.drop_last() =~= digits_of(last));
                    assert(next.last() == last.push(c));
                    assert forall|k: int| 0 <= k < values@.len() implies #[trigger] values@[k] as int
                        == if hex_value(digits_of(next[k])) < 256 {
                        hex_value(digits_of(next[k]))
                    } else {
                        256
                    } by {
                        assert(next[k] == prev[k]);
                    }
                }
            }
        }
        i = i + 1;
    }
    values.push(cur);
    proof {
        assert(s@.subrange(0, len as int) =~= s@);
        lemma_split_nonempty(s@);
    }
    values
}

impl Address {
    /// Parse an address from a string of colon-separated hexadecimal octets.
    ///
    /// The empty string is the absent address, two octets a short address
    /// and eight octets an extended address; any other number of parts is an
    /// error. Each octet must be well-formed (see [`part_ok`]).
    pub fn parse(address: &str) -> (res: Result<Address, Error>)
        requires
            parse_input_ok(address@),
        ensures
            address@.len() == 0 ==> res == Ok::<Address, Error>(Address::Absent),
            address@.len() != 0 && split_colons(address@).len() == 2 ==> (res matches Ok(a)
                && a is Short && a.spec_bytes() == parts_values(split_colons(address@))),
            address@.len() != 0 && split_colons(address@).len() == 8 ==> (res matches Ok(a)
                && a is Extended && a.spec_bytes() == parts_values(split_colons(address@))),
            address@.len() != 0 && split_colons(address@).len() != 2 && split_colons(address@).len()
                != 8 ==> res is Err,
    {
        if address.unicode_len() == 0 {
            return Ok(Address::Absent);
        }
        let colons = count_colons(address);
        if colons != 1 && colons != 7 {
            return Err(Error);
        }
        let values = part_values(address);
        let ghost parts = split_colons(address@);
        let mut bytes: Vec<u8> = Vec::new();
        let mut i: usize = 0;
        while i < values.len()
            invariant
                values@.len() == parts.len(),
                parts.len() == 2 || parts.len() == 8,
                forall|k: int| 0 <= k < parts.len() ==> part_ok(#[trigger] parts[k]),
                forall|k: int|
                    0 <= k < values@.len() ==> #[trigger] values@[k] as int == if hex_value(
                        digits_of(parts[k]),
                    ) < 256 {
                        hex_value(digits_of(parts[k]))
                    } else {
                        256
                    },
                i <= values@.len(),
                bytes@ == parts_values(parts).subrange(0, i as int),
            decreases values@.len() - i,
        {
            assert(part_ok(parts[i as int]));
            bytes.push(values[i] as u8);
            i = i + 1;
            assert(bytes@ =~= parts_values(parts).subrange(0, i as int));
        }
        assert(bytes@ =~= parts_values(parts));
        Ok(Address::from_bytes(bytes.as_slice()))
    }
}

} // verus!
