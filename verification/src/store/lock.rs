//! The dashboard's singleton lock: what the lock file's contents mean.

use vstd::prelude::*;

use crate::text::{is_white, trim, trim_text};

verus! {

/// Why the singleton lock could not be taken.
#[derive(Debug)]
pub enum TuiLockError {
    Io(std::io::Error),
    AlreadyHeld { pid: u32 },
}

/// The value of a non-empty run of decimal digits.
pub open spec fn digits_value(s: Seq<char>) -> nat
    decreases s.len(),
{
    if s.len() == 0 {
        0
    } else {
        digits_value(s.drop_last()) * 10 + ((s.last() as u32) - 48) as nat
    }
}

pub open spec fn is_digit(c: char) -> bool {
    48 <= (c as u32) <= 57
}

pub open spec fn all_digits(s: Seq<char>) -> bool {
    forall|i: int| 0 <= i < s.len() ==> is_digit(#[trigger] s[i])
}

/// What `str::parse::<u32>` makes of a text: an optional `+`, then one or
/// more decimal digits whose value fits in 32 bits.
pub open spec fn parsed_u32(s: Seq<char>) -> Option<u32> {
    let d = if s.len() > 0 && s[0] == '+' {
        s.drop_first()
    } else {
        s
    };
    if d.len() > 0 && all_digits(d) && digits_value(d) <= u32::MAX {
        Some(digits_value(d) as u32)
    } else {
        None
    }
}

/// The process id recorded in a lock file, as the lock reports it: the
/// trimmed contents read as a number, or 0 when they are not one.
pub open spec fn recorded_pid(contents: Seq<char>) -> u32 {
    match parsed_u32(trim(contents)) {
        Some(p) => p,
        None => 0,
    }
}

proof fn lemma_digits_value_grows(s: Seq<char>, k: int)
    requires
        0 <= k <= s.len(),
        all_digits(s),
    ensures
        digits_value(s.subrange(0, k)) <= digits_value(s),
    decreases s.len(),
{
    if k < s.len() {
        assert(s.drop_last().subrange(0, k) =~= s.subrange(0, k));
        lemma_digits_value_grows(s.drop_last(), k);
    } else {
        assert(s.subrange(0, k) =~= s);
    }
}

/// Reads a number as `str::parse::<u32>` does.
pub fn parse_u32(s: &str) -> (r: Option<u32>)
    ensures
        r == parsed_u32(s@),
{
    let n = s.unicode_len();
    let mut i: usize = 0;
    if n > 0 && s.get_char(0) == '+' {
        i = 1;
    }
    let ghost d = if s@.len() > 0 && s@[0] == '+' {
        s@.drop_first()
    } else {
        s@
    };
    assert(d =~= s@.subrange(i as int, n as int));
    if i >= n {
        return None;
    }
    let start = i;
    let mut value: u64 = 0;
    while i < n
        invariant
            n == s@.len(),
            start <= i <= n,
            d =~= s@.subrange(start as int, n as int),
            d == (if s@.len() > 0 && s@[0] == '+' {
                s@.drop_first()
            } else {
                s@
            }),
            all_digits(s@.subrange(start as int, i as int)),
            value == digits_value(s@.subrange(start as int, i as int)),
            value <= u32::MAX,
        decreases n - i,
    {
        let c = s.get_char(i);
        let v = c as u32;
        if v < 48 || v > 57 {
            assert(d[i - start] == c);
            assert(!is_digit(d[(i - start) as int]));
            assert(!all_digits(d));
            return None;
        }
        let next = value * 10 + (v - 48) as u64;
        assert(s@.subrange(start as int, i + 1).drop_last() =~= s@.subrange(start as int, i as int));
        proof {
            let sub = s@.subrange(start as int, i + 1);
            assert(sub.last() == c);
            assert(digits_value(sub) == next);
        }
        if next > 4294967295 {
            proof {
                assert(all_digits(s@.subrange(start as int, i + 1)));
                let rest = s@.subrange(start as int, n as int);
                if all_digits(rest) {
                    assert(rest.subrange(0, i + 1 - start) =~= s@.subrange(start as int, i + 1));
                    lemma_digits_value_grows(rest, i + 1 - start);
                    assert(digits_value(d) > u32::MAX);
                }
            }
            return None;
        }
        value = next;
        i = i + 1;
    }
    Some(value as u32)
}

/// The process id recorded in a lock file's contents, or 0.
pub fn lock_holder_pid(contents: &str) -> (r: u32)
    ensures
        r == recorded_pid(contents@),
{
    match parse_u32(trim_text(contents)) {
        Some(p) => p,
        None => 0,
    }
}

} // verus!
