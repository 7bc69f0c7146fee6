//! Reading builds from their catalog notation, `major.minor.patch.number`,
//! and the selection made from the catalog.

use vstd::prelude::*;
use vstd::string::*;
use crate::entities::Build;

verus! {

/// Whether `c` is one of the ten ASCII digits.
pub open spec fn is_digit(c: char) -> bool {
    '0' <= c && c <= '9'
}

/// The value of the digit `c`.
pub open spec fn digit_value(c: char) -> nat {
    if is_digit(c) {
        (c as u32 - '0' as u32) as nat
    } else {
        0
    }
}

/// Whether `s` consists of digits only.
pub open spec fn all_digits(s: Seq<char>) -> bool {
    forall|i: int| 0 <= i < s.len() ==> is_digit(#[trigger] s[i])
}

/// The number that the digits of `s` write in decimal.
pub open spec fn number_of(s: Seq<char>) -> nat
    decreases s.len(),
{
    if s.len() == 0 {
        0
    } else {
        number_of(s.drop_last()) * 10 + digit_value(s.last())
    }
}

/// The number written by `s`: an optional `+`, then one digit or more, and
/// nothing else; leading zeros are allowed. Nothing if `s` is not of that
/// form or the number does not fit in 32 bits.
pub open spec fn spec_parse_u32(s: Seq<char>) -> Option<u32> {
    let digits = if s.len() > 0 && s[0] == '+' {
        s.drop_first()
    } else {
        s
    };
    if digits.len() > 0 && all_digits(digits) && number_of(digits) <= u32::MAX {
        Some(number_of(digits) as u32)
    } else {
        None
    }
}

/// Position of the first dot of `s` at or after `from`; the length of `s` if
/// there is none.
pub open spec fn next_dot(s: Seq<char>, from: int) -> int
    decreases s.len() - from,
{
    if from >= s.len() {
        s.len() as int
    } else if s[from] == '.' {
        from
    } else {
        next_dot(s, from + 1)
    }
}

/// Version and build number written by a catalog entry. The entry is cut at
/// its dots. The version is everything before the third dot. The build
/// number is what stands between the third dot and the fourth, or the end:
/// zero unless that is a number. An entry with fewer than three dots is no
/// build.
pub open spec fn spec_parse_build(s: Seq<char>) -> Option<(Seq<char>, u32)> {
    let d1 = next_dot(s, 0);
    let d2 = next_dot(s, d1 + 1);
    let d3 = next_dot(s, d2 + 1);
    if d3 >= s.len() {
        None
    } else {
        let d4 = next_dot(s, d3 + 1);
        Some(
            (
                s.subrange(0, d3),
                match spec_parse_u32(s.subrange(d3 + 1, d4)) {
                    Some(n) => n,
                    None => 0,
                },
            ),
        )
    }
}

proof fn lemma_next_dot_bounds(s: Seq<char>, from: int)
    requires
        0 <= from,
    ensures
        from <= s.len() ==> from <= next_dot(s, from) <= s.len(),
        from >= s.len() ==> next_dot(s, from) == s.len(),
    decreases s.len() - from,
{
    if from < s.len() && s[from] != '.' {
        lemma_next_dot_bounds(s, from + 1);
    }
}

proof fn lemma_number_of_prefix(s: Seq<char>, i: int)
    requires
        0 <= i <= s.len(),
    ensures
        number_of(s.take(i)) <= number_of(s),
    decreases s.len() - i,
{
    if i < s.len() {
        assert(s.drop_last().take(i) =~= s.take(i));
        lemma_number_of_prefix(s.drop_last(), i);
    } else {
        assert(s.take(i) =~= s);
    }
}

fn find_dot(text: &str, len: usize, from: usize) -> (at: usize)
    requires
        len == text@.len(),
        from <= len,
    ensures
        at == next_dot(text@, from as int),
        from <= at <= len,
{
    let mut i = from;
    while i < len
        invariant
            len == text@.len(),
            from <= i <= len,
            next_dot(text@, from as int) == next_dot(text@, i as int),
        decreases len - i,
    {
        if text.get_char(i) == '.' {
            return i;
        }
        i = i + 1;
    }
    i
}

/// Reads a number as the catalog writes it.
pub fn parse_u32(text: &str) -> (number: Option<u32>)
    ensures
        number == spec_parse_u32(text@),
{
    let len = text.unicode_len();
    if len == 0 {
        return None;
    }
    let start: usize = if text.get_char(0) == '+' {
        1
    } else {
        0
    };
    let ghost digits = if text@[0] == '+' {
        text@.drop_first()
    } else {
        text@
    };
    assert(digits =~= text@.subrange(start as int, len as int));
    if start == len {
        return None;
    }
    let mut value: u64 = 0;
    let mut i = start;
    while i < len
        invariant
            len == text@.len(),
            start <= i <= len,
            digits == text@.subrange(start as int, len as int),
            digits == if text@[0] == '+' {
                text@.drop_first()
            } else {
                text@
            },
            all_digits(digits.take(i - start)),
            value == number_of(digits.take(i - start)),
            value <= u32::MAX,
        decreases len - i,
    {
        let c = text.get_char(i);
        if !('0' <= c && c <= '9') {
            proof {
                assert(!is_digit(digits[i - start]));
            }
            return None;
        }
        let ghost seen = digits.take(i - start);
        let ghost more = digits.take(i - start + 1);
        proof {
            assert(more.drop_last() =~= seen);
            assert(more.last() == c);
            assert forall|k: int| 0 <= k < more.len() implies is_digit(#[trigger] more[k]) by {
                if k < seen.len() {
                    assert(more[k] == seen[k]);
                }
            }
        }
        value = value * 10 + (c as u32 - '0' as u32) as u64;
        if value > u32::MAX as u64 {
            proof {
                lemma_number_of_prefix(digits, i - start + 1);
                assert(number_of(more) == value);
            }
            return None;
        }
        i = i + 1;
    }
    proof {
        assert(digits.take(len - start) =~= digits);
    }
    Some(value as u32)
}

/// Reads a catalog entry.
pub fn parse_build(text: &str) -> (build: Option<Build>)
    ensures
        match spec_parse_build(text@) {
            None => build is None,
            Some((version, number)) => {
                &&& build is Some
                &&& build.unwrap().version() == version
                &&& build.unwrap().number() == number
            },
        },
{
    let len = text.unicode_len();
    proof {
        lemma_next_dot_bounds(text@, len as int + 1);
    }
    let d1 = find_dot(text, len, 0);
    if d1 >= len {
        return None;
    }
    let d2 = find_dot(text, len, d1 + 1);
    if d2 >= len {
        return None;
    }
    let d3 = find_dot(text, len, d2 + 1);
    if d3 >= len {
        return None;
    }
    let d4 = find_dot(text, len, d3 + 1);
    let version = text.substring_char(0, d3);
    let digits = text.substring_char(d3 + 1, d4);
    let number = match parse_u32(digits) {
        Some(n) => n,
        None => 0,
    };
    Some(Build::new(version, number))
}

/// Turns the positions the user chose into the builds that the catalog
/// entries at those positions write, in the order chosen. Choosing nothing
/// selects nothing.
pub fn handle_build_selection(available: &Vec<String>, chosen: &Vec<usize>) -> (selected: Vec<
    Build,
>)
    requires
        forall|i: int| 0 <= i < chosen@.len() ==> #[trigger] chosen@[i] < available@.len(),
        forall|i: int|
            0 <= i < chosen@.len() ==> spec_parse_build(
                available@[#[trigger] chosen@[i] as int]@,
            ) is Some,
    ensures
        selected@.len() == chosen@.len(),
        forall|i: int|
            0 <= i < chosen@.len() ==> {
                let entry = spec_parse_build(available@[chosen@[i] as int]@).unwrap();
                &&& (#[trigger] selected@[i]).version() == entry.0
                &&& selected@[i].number() == entry.1
            },
{
    let mut selected: Vec<Build> = Vec::new();
    let mut i: usize = 0;
    while i < chosen.len()
        invariant
            i <= chosen@.len(),
            selected@.len() == i,
            forall|k: int| 0 <= k < chosen@.len() ==> #[trigger] chosen@[k] < available@.len(),
            forall|k: int|
                0 <= k < chosen@.len() ==> spec_parse_build(
                    available@[#[trigger] chosen@[k] as int]@,
                ) is Some,
            forall|k: int|
                0 <= k < i ==> {
                    let entry = spec_parse_build(available@[chosen@[k] as int]@).unwrap();
                    &&& (#[trigger] selected@[k]).version() == entry.0
                    &&& selected@[k].number() == entry.1
                },
        decreases chosen@.len() - i,
    {
        let at = chosen[i];
        let parsed = parse_build(available[at].as_str());
        match parsed {
            Some(build) => {
                selected.push(build);
            },
            None => {
                assert(false);
            },
        }
        i = i + 1;
    }
    selected
}

} // verus!
