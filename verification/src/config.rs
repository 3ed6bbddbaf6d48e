//! Startup configuration: the optional box-count argument, parsed as a
//! decimal integer exactly the way the demo expects it.

use vstd::prelude::*;

verus! {

/// The demo's startup options: how many boxes per axis to spawn.
#[derive(Clone, Copy, PartialEq, Eq, Structural, Debug)]
pub struct StartupOptions {
    pub box_count: i32,
}

/// Why the startup options could not be read.
#[derive(Clone, Copy, PartialEq, Eq, Structural, Debug)]
pub enum OptionsError {
    /// The box-count argument is not a decimal integer in `i32` range.
    InvalidBoxCount,
}

/// Whether `c` is a decimal digit.
pub open spec fn is_digit_char(c: char) -> bool {
    48 <= c as u32 <= 57
}

/// The numeric value of a string of decimal digits, most significant first.
pub open spec fn digits_value(s: Seq<char>) -> int
    decreases s.len(),
{
    if s.len() == 0 {
        0
    } else {
        10 * digits_value(s.drop_last()) + (s.last() as u32 - 48)
    }
}

/// Whether every character of `s` is a decimal digit.
pub open spec fn all_digits(s: Seq<char>) -> bool {
    forall|i: int| 0 <= i < s.len() ==> is_digit_char(s[i])
}

/// The digits of a numeral: everything after an optional leading sign.
pub open spec fn int_body(s: Seq<char>) -> Seq<char> {
    if s.len() > 0 && (s[0] == '+' || s[0] == '-') {
        s.subrange(1, s.len() as int)
    } else {
        s
    }
}

/// The sign a numeral's value carries.
pub open spec fn int_sign(s: Seq<char>) -> int {
    if s.len() > 0 && s[0] == '-' {
        -1
    } else {
        1
    }
}

/// Whether `s` is a decimal numeral whose value fits an `i32`: an optional
/// sign, then at least one digit, with the signed value in range.
pub open spec fn is_i32_numeral(s: Seq<char>) -> bool {
    &&& int_body(s).len() > 0
    &&& all_digits(int_body(s))
    &&& -2147483648 <= int_sign(s) * digits_value(int_body(s)) <= 2147483647
}

/// The value of an `i32` numeral.
pub open spec fn i32_numeral_value(s: Seq<char>) -> int {
    int_sign(s) * digits_value(int_body(s))
}

/// A digit string's value is non-negative.
proof fn lemma_digits_value_nonneg(s: Seq<char>)
    requires
        all_digits(s),
    ensures
        digits_value(s) >= 0,
    decreases s.len(),
{
    if s.len() > 0 {
        assert(all_digits(s.drop_last())) by {
            assert(forall|i: int|
                0 <= i < s.drop_last().len() ==> s.drop_last()[i] == s[i]);
        }
        lemma_digits_value_nonneg(s.drop_last());
    }
}

/// A digit string is worth at least any of its prefixes.
proof fn lemma_digits_value_prefix_le(s: Seq<char>, k: int)
    requires
        all_digits(s),
        0 <= k <= s.len(),
    ensures
        digits_value(s.take(k)) <= digits_value(s),
    decreases s.len() - k,
{
    if k < s.len() {
        let t = s.take(k + 1);
        assert(t.drop_last() =~= s.take(k));
        assert(all_digits(t)) by {
            assert(forall|i: int| 0 <= i < t.len() ==> t[i] == s[i]);
        }
        assert(all_digits(s.take(k))) by {
            assert(forall|i: int| 0 <= i < k ==> s.take(k)[i] == s[i]);
        }
        lemma_digits_value_nonneg(s.take(k));
        assert(digits_value(t) == 10 * digits_value(s.take(k)) + (t.last() as u32 - 48));
        assert(is_digit_char(t.last()));
        assert(digits_value(s.take(k)) <= digits_value(t));
        lemma_digits_value_prefix_le(s, k + 1);
    } else {
        assert(s.take(k) =~= s);
    }
}

/// Parses a decimal `i32` from a string: an optional `+` or `-`, then one or
/// more digits. Returns the value exactly when the string is such a numeral
/// with its value in `i32` range, and an error on every other string.
pub fn parse_i32_str(s: &str) -> (r: Result<i32, OptionsError>)
    ensures
        is_i32_numeral(s@) ==> r == Ok::<i32, OptionsError>(i32_numeral_value(s@) as i32),
        !is_i32_numeral(s@) ==> r == Err::<i32, OptionsError>(OptionsError::InvalidBoxCount),
{
    let len = s.unicode_len();
    if len == 0 {
        return Err(OptionsError::InvalidBoxCount);
    }
    let first = s.get_char(0);
    let (start, neg): (usize, bool) = if first == '-' {
        (1, true)
    } else if first == '+' {
        (1, false)
    } else {
        (0, false)
    };
    let ghost body = int_body(s@);
    proof {
        assert(body =~= s@.subrange(start as int, len as int));
    }
    if start == len {
        proof {
            assert(body.len() == 0);
        }
        return Err(OptionsError::InvalidBoxCount);
    }
    let mut acc: u64 = 0;
    let mut i: usize = start;
    while i < len
        invariant
            start <= i <= len,
            len == s@.len(),
            start <= 1,
            body == int_body(s@),
            neg == (int_sign(s@) == -1),
            body =~= s@.subrange(start as int, len as int),
            body.len() == len - start,
            all_digits(body.take(i - start)),
            acc == digits_value(body.take(i - start)),
            acc <= 2_147_483_648,
        decreases len - i,
    {
        let c = s.get_char(i);
        let cv = c as u32;
        proof {
            assert(body.take(i + 1 - start).drop_last() =~= body.take(i - start));
            assert(body.take(i + 1 - start).last() == s@[i as int]);
        }
        if cv < 48 || cv > 57 {
            proof {
                assert(!is_digit_char(body[i - start]));
            }
            return Err(OptionsError::InvalidBoxCount);
        }
        let d: u64 = (cv - 48) as u64;
        let next: u64 = acc * 10 + d;
        if next > 2_147_483_648 {
            proof {
                if is_i32_numeral(s@) {
                    lemma_digits_value_prefix_le(body, i + 1 - start);
                    lemma_digits_value_nonneg(body);
                    assert(digits_value(body) >= next > 2_147_483_648);
                    assert(int_sign(s@) * digits_value(body) > 2147483647 || int_sign(s@)
                        * digits_value(body) < -2147483648) by (nonlinear_arith)
                        requires
                            digits_value(body) > 2_147_483_648,
                            int_sign(s@) == 1 || int_sign(s@) == -1,
                    ;
                    assert(false);
                }
            }
            return Err(OptionsError::InvalidBoxCount);
        }
        acc = next;
        i = i + 1;
    }
    proof {
        assert(body.take(len - start) =~= body);
        lemma_digits_value_nonneg(body);
    }
    if neg {
        proof {
            assert(int_sign(s@) == -1);
            assert(i32_numeral_value(s@) == -1 * digits_value(body));
            assert(-1 * digits_value(body) == -digits_value(body)) by (nonlinear_arith);
        }
        Ok((-(acc as i64)) as i32)
    } else {
        if acc > 2_147_483_647 {
            proof {
                assert(int_sign(s@) == 1);
                assert(i32_numeral_value(s@) == 1 * digits_value(body));
                assert(1 * digits_value(body) == digits_value(body)) by (nonlinear_arith);
            }
            return Err(OptionsError::InvalidBoxCount);
        }
        proof {
            assert(int_sign(s@) == 1);
            assert(1 * digits_value(body) == digits_value(body)) by (nonlinear_arith);
        }
        Ok(acc as i32)
    }
}

/// Reads the startup options from the command line: with no argument the box
/// count defaults to six; otherwise the first argument must be a decimal
/// integer.
pub fn parse_command_line_options(args: &Vec<String>) -> (r: Result<
    StartupOptions,
    OptionsError,
>)
    ensures
        args@.len() <= 1 ==> r == Ok::<StartupOptions, OptionsError>(StartupOptions {
            box_count: 6,
        }),
        args@.len() > 1 && is_i32_numeral(args@[1]@) ==> r == Ok::<
            StartupOptions,
            OptionsError,
        >(StartupOptions { box_count: i32_numeral_value(args@[1]@) as i32 }),
        args@.len() > 1 && !is_i32_numeral(args@[1]@) ==> r == Err::<
            StartupOptions,
            OptionsError,
        >(OptionsError::InvalidBoxCount),
{
    if args.len() > 1 {
        match parse_i32_str(args[1].as_str()) {
            Ok(v) => Ok(StartupOptions { box_count: v }),
            Err(e) => Err(e),
        }
    } else {
        Ok(StartupOptions { box_count: 6 })
    }
}

} // verus!
