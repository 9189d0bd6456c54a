//! Validation of operator-typed numbers: whether a string is a decimal
//! numeral for a positive machine-sized integer.
use vstd::prelude::*;
use vstd::string::StrSliceExecFns;

verus! {

/// Whether `c` is a decimal digit.
pub open spec fn is_digit_char(c: char) -> bool {
    48 <= c as u32 <= 57
}

/// The digit value of `c`.
pub open spec fn digit_of(c: char) -> int {
    c as u32 - 48
}

/// The digits of a numeral: the whole string, or what follows one leading
/// plus sign.
pub open spec fn numeral_digits(s: Seq<char>) -> Seq<char> {
    if s.len() > 0 && s[0] == '+' {
        s.drop_first()
    } else {
        s
    }
}

/// The value of a digit string read as a decimal number.
pub open spec fn digits_value(d: Seq<char>) -> int
    decreases d.len(),
{
    if d.len() == 0 {
        0
    } else {
        digits_value(d.drop_last()) * 10 + digit_of(d.last())
    }
}

/// The value of a numeral, leading plus sign allowed.
pub open spec fn numeral_value(s: Seq<char>) -> int {
    digits_value(numeral_digits(s))
}

/// Whether `s` is a decimal numeral (optionally signed with a plus) whose
/// value fits a machine-sized unsigned integer.
pub open spec fn is_valid_usize_numeral(s: Seq<char>) -> bool {
    let d = numeral_digits(s);
    &&& d.len() > 0
    &&& forall|i: int| 0 <= i < d.len() ==> is_digit_char(#[trigger] d[i])
    &&& digits_value(d) <= usize::MAX as int
}

/// A digit string's value is not negative.
proof fn lemma_digits_value_nonneg(d: Seq<char>)
    requires
        forall|i: int| 0 <= i < d.len() ==> is_digit_char(#[trigger] d[i]),
    ensures
        digits_value(d) >= 0,
    decreases d.len(),
{
    if d.len() > 0 {
        lemma_digits_value_nonneg(d.drop_last());
    }
}

/// A digit string's value bounds the value of each of its prefixes.
proof fn lemma_digits_value_prefix_le(d: Seq<char>, i: int)
    requires
        forall|j: int| 0 <= j < d.len() ==> is_digit_char(#[trigger] d[j]),
        0 <= i <= d.len(),
    ensures
        digits_value(d.subrange(0, i)) <= digits_value(d),
    decreases d.len() - i,
{
    if i == d.len() {
        assert(d.subrange(0, i) =~= d);
    } else {
        lemma_digits_value_prefix_le(d, i + 1);
        let p = d.subrange(0, i + 1);
        assert(p.drop_last() =~= d.subrange(0, i));
        lemma_digits_value_nonneg(p.drop_last());
    }
}

/// Accepts exactly the strings that read as a positive machine-sized decimal
/// number: one optional plus sign, then digits whose value is at least 1 and
/// fits a machine-sized unsigned integer.
#[verifier::loop_isolation(false)]
pub fn validate_usize(input: &String) -> (r: Result<(), String>)
    ensures
        r is Ok <==> is_valid_usize_numeral(input@) && numeral_value(input@) > 0,
{
    let s = input.as_str();
    let n = s.unicode_len();
    let start: usize = if n > 0 && s.get_char(0) == '+' {
        1
    } else {
        0
    };
    let ghost d = numeral_digits(input@);
    proof {
        assert(d =~= input@.subrange(start as int, n as int));
    }
    if n == start {
        return Err("Please enter a valid positive number.".to_owned());
    }
    let mut acc: usize = 0;
    let mut i: usize = start;
    while i < n
        invariant
            start <= i <= n,
            n == input@.len(),
            start == 1 ==> input@[0] == '+',
            start == 0 || start == 1,
            d == numeral_digits(input@),
            d =~= input@.subrange(start as int, n as int),
            forall|j: int| 0 <= j < i - start ==> is_digit_char(#[trigger] d[j]),
            acc == digits_value(d.subrange(0, i - start)),
        decreases n - i,
    {
        let c = s.get_char(i);
        let v = c as u32;
        proof {
            assert(d[i - start] == input@[i as int]);
        }
        if v < 48 || v > 57 {
            proof {
                assert(!is_digit_char(d[i - start]));
            }
            return Err("Please enter a valid positive number.".to_owned());
        }
        let digit = (v - 48) as usize;
        let ghost p = d.subrange(0, i - start + 1);
        proof {
            assert(p.drop_last() =~= d.subrange(0, i - start));
            assert(p.last() == d[i - start]);
            lemma_digits_value_nonneg(p.drop_last());
        }
        let shifted = match acc.checked_mul(10) {
            Some(x) => x,
            None => {
                proof {
                    if is_valid_usize_numeral(input@) {
                        lemma_digits_value_prefix_le(d, i - start + 1);
                    }
                }
                return Err("Please enter a valid positive number.".to_owned());
            },
        };
        acc = match shifted.checked_add(digit) {
            Some(x) => x,
            None => {
                proof {
                    if is_valid_usize_numeral(input@) {
                        lemma_digits_value_prefix_le(d, i - start + 1);
                    }
                }
                return Err("Please enter a valid positive number.".to_owned());
            },
        };
        i += 1;
    }
    proof {
        assert(d.subrange(0, n - start as int) =~= d);
    }
    if acc == 0 {
        Err("Please enter a valid positive number.".to_owned())
    } else {
        Ok(())
    }
}

} // verus!
