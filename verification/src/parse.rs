//! A reusable numeric-token parser and the glue that runs a grammar
//! function under the standard "parse this value from a whole string"
//! protocol.

use vstd::prelude::*;

verus! {

/// Why a parse failed.
#[derive(PartialEq, Eq, Structural, Clone, Copy, Hash, Debug)]
pub enum ParseError {
    /// The input does not start with a decimal digit.
    NoDigit,
    /// The digit run's value does not fit the target type.
    Overflow,
    /// The whole-string protocol found leftover input after the grammar ran.
    ResidualInput,
}

/// Whether `c` is a decimal digit.
pub open spec fn is_digit(c: char) -> bool {
    '0' as int <= c as int <= '9' as int
}

/// Length of the longest run of decimal digits at the start of `s`.
pub open spec fn digit_run_len(s: Seq<char>) -> int
    decreases s.len(),
{
    if s.len() == 0 {
        0
    } else if !is_digit(s[0]) {
        0
    } else {
        1 + digit_run_len(s.skip(1))
    }
}

/// The decimal value of a run of digits.
pub open spec fn digits_value(s: Seq<char>) -> int
    decreases s.len(),
{
    if s.len() == 0 {
        0
    } else {
        digits_value(s.drop_last()) * 10 + (s.last() as int - '0' as int)
    }
}

proof fn lemma_digit_run_len_characterizes(s: Seq<char>, k: int)
    requires
        0 <= k <= s.len(),
        forall|j: int| 0 <= j < k ==> is_digit(#[trigger] s[j]),
        k < s.len() ==> !is_digit(s[k]),
    ensures
        digit_run_len(s) == k,
    decreases k,
{
    if k == 0 {
    } else {
        assert(is_digit(s[0]));
        assert forall|j: int| 0 <= j < k - 1 implies is_digit(#[trigger] s.skip(1)[j]) by {
            assert(s.skip(1)[j] == s[j + 1]);
        }
        if k - 1 < s.skip(1).len() {
            assert(s.skip(1)[k - 1] == s[k]);
        }
        lemma_digit_run_len_characterizes(s.skip(1), k - 1);
    }
}

proof fn lemma_digits_value_nonneg(s: Seq<char>)
    requires
        forall|j: int| 0 <= j < s.len() ==> is_digit(#[trigger] s[j]),
    ensures
        digits_value(s) >= 0,
    decreases s.len(),
{
    if s.len() > 0 {
        assert forall|j: int| 0 <= j < s.drop_last().len() implies is_digit(
            #[trigger] s.drop_last()[j],
        ) by {
            assert(s.drop_last()[j] == s[j]);
        }
        lemma_digits_value_nonneg(s.drop_last());
        assert(is_digit(s.last()));
    }
}

proof fn lemma_digits_value_prefix_le(s: Seq<char>, i: int, m: int)
    requires
        0 <= i <= m <= s.len(),
        forall|j: int| 0 <= j < s.len() ==> is_digit(#[trigger] s[j]),
    ensures
        digits_value(s.take(i)) <= digits_value(s.take(m)),
    decreases m - i,
{
    if i < m {
        lemma_digits_value_prefix_le(s, i, m - 1);
        let p = s.take(m);
        assert(p.drop_last() =~= s.take(m - 1));
        assert(p.last() == s[m - 1]);
        assert forall|j: int| 0 <= j < s.take(m - 1).len() implies is_digit(
            #[trigger] s.take(m - 1)[j],
        ) by {
            assert(s.take(m - 1)[j] == s[j]);
        }
        lemma_digits_value_nonneg(s.take(m - 1));
        assert(is_digit(s[m - 1]));
        assert(digits_value(s.take(m - 1)) * 10 >= digits_value(s.take(m - 1))) by (
        nonlinear_arith)
            requires
                digits_value(s.take(m - 1)) >= 0,
        ;
    }
}

/// Consume the longest leading run of decimal digits of `input` and return
/// its value together with the rest of the input. Fails with `NoDigit` when
/// `input` does not start with a digit, and with `Overflow` when the run's
/// value does not fit the target type; succeeds otherwise.
pub fn parse_unsigned_integer(input: &str) -> (r: Result<(&str, u64), ParseError>)
    ensures
        ({
            let k = digit_run_len(input@);
            match r {
                Ok((rest, v)) => {
                    &&& k > 0
                    &&& v == digits_value(input@.take(k))
                    &&& digits_value(input@.take(k)) <= u64::MAX
                    &&& rest@ == input@.skip(k)
                },
                Err(e) => {
                    &&& (e == ParseError::NoDigit <==> k == 0)
                    &&& (e == ParseError::Overflow <==> k > 0 && digits_value(input@.take(k))
                        > u64::MAX)
                    &&& e != ParseError::ResidualInput
                },
            }
        }),
{
    let n = input.unicode_len();
    let mut k: usize = 0;
    let mut scanning = true;
    while scanning && k < n
        invariant
            n == input@.len(),
            k <= n,
            forall|j: int| 0 <= j < k ==> is_digit(#[trigger] input@[j]),
            !scanning ==> k < n && !is_digit(input@[k as int]),
        decreases n - k, (if scanning {
            1int
        } else {
            0int
        }),
    {
        let c = input.get_char(k);
        let u = c as u32;
        if 48 <= u && u <= 57 {
            k += 1;
        } else {
            scanning = false;
        }
    }
    proof {
        lemma_digit_run_len_characterizes(input@, k as int);
    }
    if k == 0 {
        return Err(ParseError::NoDigit);
    }
    let mut v: u64 = 0;
    let mut i: usize = 0;
    while i < k
        invariant
            n == input@.len(),
            k <= n,
            i <= k,
            forall|j: int| 0 <= j < k ==> is_digit(#[trigger] input@[j]),
            digit_run_len(input@) == k,
            v == digits_value(input@.take(i as int)),
        decreases k - i,
    {
        let c = input.get_char(i);
        let d = (c as u32 - 48) as u64;
        proof {
            assert(is_digit(input@[i as int]));
        }
        if v > (u64::MAX - d) / 10 {
            proof {
                let taken = input@.take(i as int + 1);
                assert(taken.drop_last() =~= input@.take(i as int));
                assert(taken.last() == input@[i as int]);
                assert(v * 10 + d > u64::MAX) by (nonlinear_arith)
                    requires
                        v > (u64::MAX - d) / 10,
                        0 <= d <= 9,
                        v >= 0,
                ;
                assert(input@.take(k as int) =~= input@.take(k as int).take(k as int));
                assert forall|j: int| 0 <= j < input@.take(k as int).len() implies is_digit(
                    #[trigger] input@.take(k as int)[j],
                ) by {
                    assert(input@.take(k as int)[j] == input@[j]);
                }
                lemma_digits_value_prefix_le(input@.take(k as int), i as int + 1, k as int);
                assert(input@.take(k as int).take(i as int + 1) =~= input@.take(i as int + 1));
                assert(digits_value(input@.take(k as int)) > u64::MAX);
            }
            return Err(ParseError::Overflow);
        }
        proof {
            assert(v * 10 + d <= u64::MAX) by (nonlinear_arith)
                requires
                    v <= (u64::MAX - d) / 10,
                    0 <= d <= 9,
                    v >= 0,
            ;
            let taken = input@.take(i as int + 1);
            assert(taken.drop_last() =~= input@.take(i as int));
            assert(taken.last() == input@[i as int]);
        }
        v = v * 10 + d;
        i += 1;
    }
    let rest = input.substring_char(k, n);
    proof {
        assert(rest@ =~= input@.skip(k as int));
    }
    Ok((rest, v))
}

/// Run `parser` under the whole-string protocol: the grammar must consume
/// the entire input, or all of it but one trailing newline; any other
/// leftover is a `ResidualInput` failure, and a grammar failure is handed
/// back unchanged.
pub fn parse_whole_str<'a, T, F: Fn(&'a str) -> Result<(&'a str, T), ParseError>>(
    input: &'a str,
    parser: F,
) -> (r: Result<T, ParseError>)
    requires
        call_requires(parser, (input,)),
    ensures
        (r is Ok ==> exists|rest: &'a str, v: T|
            r == Ok::<T, ParseError>(v) && #[trigger] call_ensures(parser, (input,), Ok((rest, v)))
                && (rest@.len() == 0 || rest@ == seq!['\n'])),
        (r is Err ==> (exists|rest: &'a str, v: T|
            #[trigger] call_ensures(parser, (input,), Ok((rest, v))) && !(rest@.len() == 0
                || rest@ == seq!['\n']) && r == Err::<T, ParseError>(ParseError::ResidualInput))
            || (exists|e: ParseError|
            r == Err::<T, ParseError>(e) && #[trigger] call_ensures(parser, (input,), Err(e)))),
{
    match parser(input) {
        Ok((rest, v)) => {
            let m = rest.unicode_len();
            proof {
                assert(call_ensures(parser, (input,), Ok((rest, v))));
            }
            if m == 0 {
                Ok(v)
            } else if m == 1 && rest.get_char(0) == '\n' {
                proof {
                    assert(rest@ =~= seq!['\n']);
                }
                Ok(v)
            } else {
                proof {
                    if rest@.len() == 1 {
                        assert(rest@[0] != '\n');
                        assert(rest@ != seq!['\n']) by {
                            assert(seq!['\n'][0] == '\n');
                        }
                    }
                }
                Err(ParseError::ResidualInput)
            }
        },
        Err(e) => Err(e),
    }
}

} // verus!
