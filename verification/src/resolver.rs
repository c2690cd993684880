//! Destination resolution: a recipient address like `42@telegram-bot.com`
//! names destination 42. The pattern is fixed: at the first occurrence of
//! the domain suffix, the maximal run of decimal digits directly before it
//! is the destination id; anything else falls back to the configured
//! default, if one exists.

use vstd::prelude::*;
use vstd::arithmetic::div_mod::lemma_fundamental_div_mod;
use vstd::arithmetic::mul::lemma_mul_inequality;

verus! {

/// The domain suffix that carries a destination id: `@telegram-bot.com`.
pub open spec fn domain_suffix() -> Seq<char> {
    seq!['@', 't', 'e', 'l', 'e', 'g', 'r', 'a', 'm', '-', 'b', 'o', 't', '.', 'c', 'o', 'm']
}

pub open spec fn is_ascii_digit(c: char) -> bool {
    48 <= c as u32 && c as u32 <= 57
}

pub open spec fn digit_val(c: char) -> nat
    recommends
        is_ascii_digit(c),
{
    (c as u32 - 48) as nat
}

/// The suffix occurs in `s` at position `i`.
pub open spec fn domain_at(s: Seq<char>, i: int) -> bool {
    &&& 0 <= i
    &&& i + 17 <= s.len()
    &&& s.subrange(i, i + 17) == domain_suffix()
}

/// The first position at or after `from` where the suffix occurs.
pub open spec fn first_domain_from(s: Seq<char>, from: int) -> Option<int>
    recommends
        0 <= from,
    decreases s.len() - from,
{
    if from + 17 > s.len() {
        None
    } else if domain_at(s, from) {
        Some(from)
    } else {
        first_domain_from(s, from + 1)
    }
}

/// Length of the run of decimal digits ending just before position `p`.
pub open spec fn digit_run_len(s: Seq<char>, p: int) -> nat
    decreases p,
{
    if p <= 0 || p > s.len() {
        0
    } else if !is_ascii_digit(s[p - 1]) {
        0
    } else {
        1 + digit_run_len(s, p - 1)
    }
}

/// The number a run of decimal digits spells, most significant first.
pub open spec fn digits_value(ds: Seq<char>) -> nat
    decreases ds.len(),
{
    if ds.len() == 0 {
        0
    } else {
        digits_value(ds.drop_last()) * 10 + digit_val(ds.last())
    }
}

/// What resolution returns: at the first occurrence of the suffix, the
/// maximal digit run directly before it, read as a number; the fallback when
/// there is no occurrence, when the run is empty, or when the number does
/// not fit in a `u64`.
pub open spec fn resolve_spec(s: Seq<char>, fallback: Option<u64>) -> Option<u64> {
    match first_domain_from(s, 0) {
        None => fallback,
        Some(p) => {
            let k = digit_run_len(s, p) as int;
            if k == 0 {
                fallback
            } else {
                let v = digits_value(s.subrange(p - k, p));
                if v <= u64::MAX {
                    Some(v as u64)
                } else {
                    fallback
                }
            }
        },
    }
}

/// The fallback never overrides an address that names a destination, and is
/// the whole answer when nothing resolves: an address that resolves on its
/// own resolves the same way under any fallback, and one that does not
/// resolves to exactly the fallback.
pub proof fn lemma_fallback(s: Seq<char>, fallback: Option<u64>)
    ensures
        resolve_spec(s, None) is Some ==> resolve_spec(s, fallback) == resolve_spec(s, None),
        resolve_spec(s, None) is None ==> resolve_spec(s, fallback) == fallback,
{
}

/// The character of the domain suffix at position `j`.
fn suffix_char(j: usize) -> (c: char)
    requires
        j < 17,
    ensures
        c == domain_suffix()[j as int],
{
    match j {
        0 => '@',
        1 => 't',
        2 => 'e',
        3 => 'l',
        4 => 'e',
        5 => 'g',
        6 => 'r',
        7 => 'a',
        8 => 'm',
        9 => '-',
        10 => 'b',
        11 => 'o',
        12 => 't',
        13 => '.',
        14 => 'c',
        15 => 'o',
        16 => 'm',
        _ => '@',
    }
}

/// Does the domain suffix stand in `email` at position `p`?
fn domain_match_at(email: &str, p: usize) -> (b: bool)
    requires
        p + 17 <= email@.len(),
        p + 17 <= usize::MAX,
    ensures
        b == domain_at(email@, p as int),
{
    let mut j: usize = 0;
    while j < 17
        invariant
            p + 17 <= email@.len(),
            p + 17 <= usize::MAX,
            j <= 17,
            forall|k: int| 0 <= k < j ==> email@[p + k] == domain_suffix()[k],
        decreases 17 - j,
    {
        let c = email.get_char(p + j);
        if c != suffix_char(j) {
            proof {
                assert(email@.subrange(p as int, p as int + 17)[j as int] == email@[p + j]);
            }
            return false;
        }
        j += 1;
    }
    proof {
        assert(email@.subrange(p as int, p as int + 17) =~= domain_suffix());
    }
    true
}

/// The id resolved when the first suffix occurrence is at `p`.
fn resolve_at(email: &str, p: usize, fallback: Option<u64>) -> (r: Option<u64>)
    requires
        p + 17 <= email@.len(),
        first_domain_from(email@, 0) == Some(p as int),
    ensures
        r == resolve_spec(email@, fallback),
{
    let ghost s = email@;
    // walk back over the maximal digit run ending at p
    let mut d: usize = p;
    loop
        invariant_except_break
            d <= p,
            p + 17 <= s.len(),
            s == email@,
            digit_run_len(s, p as int) == (p - d) + digit_run_len(s, d as int),
            forall|k: int| d <= k < p ==> is_ascii_digit(s[k]),
        ensures
            d <= p,
            s == email@,
            digit_run_len(s, p as int) == p - d,
            forall|k: int| d <= k < p ==> is_ascii_digit(s[k]),
        decreases d,
    {
        if d == 0 {
            break;
        }
        let c = email.get_char(d - 1);
        let u = c as u32;
        if !(48 <= u && u <= 57) {
            proof {
                assert(digit_run_len(s, d as int) == 0);
            }
            break;
        }
        proof {
            assert(digit_run_len(s, d as int) == 1 + digit_run_len(s, d as int - 1));
        }
        d -= 1;
    }
    if d == p {
        // empty digit run: nothing to parse
        return fallback;
    }
    // read the digits, most significant first, watching for overflow
    let mut val: u64 = 0;
    let mut overflow = false;
    let mut i: usize = d;
    while i < p
        invariant
            d <= i <= p,
            p + 17 <= s.len(),
            s == email@,
            forall|k: int| d <= k < p ==> is_ascii_digit(s[k]),
            !overflow ==> val == digits_value(s.subrange(d as int, i as int)),
            overflow ==> digits_value(s.subrange(d as int, i as int)) > u64::MAX,
        decreases p - i,
    {
        let c = email.get_char(i);
        let dv: u32 = c as u32 - 48;
        proof {
            assert(s.subrange(d as int, i as int + 1).drop_last() =~= s.subrange(
                d as int,
                i as int,
            ));
            assert(s.subrange(d as int, i as int + 1).last() == s[i as int]);
        }
        let ghost prev = digits_value(s.subrange(d as int, i as int));
        let ghost next = digits_value(s.subrange(d as int, i as int + 1));
        proof {
            assert(next == prev * 10 + digit_val(s[i as int]));
            assert(digit_val(s[i as int]) == dv as nat);
        }
        if overflow {
            proof {
                lemma_mul_inequality(1, 10, prev as int);
                assert(next > u64::MAX);
            }
        } else if val > (u64::MAX - dv as u64) / 10 {
            proof {
                let q = (u64::MAX - dv as u64) / 10;
                lemma_fundamental_div_mod((u64::MAX - dv as u64) as int, 10);
                lemma_mul_inequality(q as int + 1, val as int, 10);
                assert(next > u64::MAX);
            }
            overflow = true;
        } else {
            proof {
                let q = (u64::MAX - dv as u64) / 10;
                lemma_fundamental_div_mod((u64::MAX - dv as u64) as int, 10);
                lemma_mul_inequality(val as int, q as int, 10);
                assert(val * 10 + dv as u64 <= u64::MAX);
            }
            val = val * 10 + dv as u64;
        }
        i += 1;
    }
    proof {
        assert(s.subrange(p as int - (p - d), p as int) =~= s.subrange(d as int, p as int));
    }
    if overflow {
        fallback
    } else {
        Some(val)
    }
}

/// Resolve a recipient address to a destination id. Exactly the fixed
/// pattern of [`resolve_spec`]: digits directly before the first
/// `@telegram-bot.com`, or the fallback.
pub fn parse_chat_id(email: &str, standard_chat_id: Option<u64>) -> (r: Option<u64>)
    ensures
        r == resolve_spec(email@, standard_chat_id),
{
    let ghost s = email@;
    let n = email.unicode_len();
    let mut p: usize = 0;
    while 17 <= n && p <= n - 17
        invariant
            n == s.len(),
            s == email@,
            p <= n,
            first_domain_from(s, 0) == first_domain_from(s, p as int),
        decreases n - p,
    {
        if domain_match_at(email, p) {
            proof {
                assert(first_domain_from(s, p as int) == Some(p as int));
            }
            return resolve_at(email, p, standard_chat_id);
        }
        proof {
            assert(first_domain_from(s, p as int) == first_domain_from(s, p as int + 1));
        }
        p += 1;
    }
    proof {
        assert(first_domain_from(s, p as int) is None);
    }
    standard_chat_id
}

} // verus!
