//! The human-readable size parser for the configured request-body limit:
//! a decimal count with an optional, case-insensitive `KB`/`MB`/`GB`
//! suffix, base 1024.

use vstd::prelude::*;
use vstd::string::StringSliceAdditionalSpecFns;
use crate::text::{to_upper, upper_bytes};

verus! {

/// Why a size string was rejected.
#[derive(Debug, PartialEq, Eq)]
pub enum SizeError {
    /// The numeric part is empty or holds a character that is no digit.
    InvalidNumber,
    /// The byte count does not fit in `usize`.
    Overflow,
}

pub open spec fn is_digit(b: u8) -> bool {
    '0' as u8 <= b && b <= '9' as u8
}

pub open spec fn all_digits(s: Seq<u8>) -> bool {
    forall|i: int| 0 <= i < s.len() ==> is_digit(#[trigger] s[i])
}

/// The value of a string of decimal digits.
pub open spec fn digits_val(s: Seq<u8>) -> nat
    decreases s.len(),
{
    if s.len() == 0 {
        0
    } else {
        digits_val(s.drop_last()) * 10 + (s.last() - '0' as u8) as nat
    }
}

pub open spec fn ends_with2(s: Seq<u8>, a: u8, b: u8) -> bool {
    s.len() >= 2 && s[s.len() - 2] == a && s[s.len() - 1] == b
}

/// The multiplier named by the suffix of the upper-cased size string.
pub open spec fn size_multiplier(u: Seq<u8>) -> nat {
    if ends_with2(u, 'K' as u8, 'B' as u8) {
        1024
    } else if ends_with2(u, 'M' as u8, 'B' as u8) {
        1048576
    } else if ends_with2(u, 'G' as u8, 'B' as u8) {
        1073741824
    } else {
        1
    }
}

/// The upper-cased size string with any recognized suffix removed.
pub open spec fn size_number_part(u: Seq<u8>) -> Seq<u8> {
    if size_multiplier(u) != 1 {
        u.take(u.len() - 2)
    } else {
        u
    }
}

/// An optional leading plus sign is accepted, as the decimal parser of the
/// standard library accepts one.
pub open spec fn strip_plus(s: Seq<u8>) -> Seq<u8> {
    if s.len() > 0 && s[0] == '+' as u8 {
        s.drop_first()
    } else {
        s
    }
}

/// What `parse_size` returns on a string with the given bytes.
pub open spec fn parse_size_spec(s: Seq<u8>) -> Result<nat, SizeError> {
    let u = upper_bytes(s);
    let num = strip_plus(size_number_part(u));
    if num.len() == 0 || !all_digits(num) {
        Err(SizeError::InvalidNumber)
    } else if digits_val(num) * size_multiplier(u) > usize::MAX {
        Err(SizeError::Overflow)
    } else {
        Ok(digits_val(num) * size_multiplier(u))
    }
}

/// Converts a size such as `10MB`, `512kb` or `42` into a byte count.
#[verifier::rlimit(50)]
pub fn parse_size(size_str: &str) -> (r: Result<usize, SizeError>)
    ensures
        ({
            let m = parse_size_spec(size_str.spec_bytes());
            &&& r is Ok <==> m is Ok
            &&& r is Ok ==> r->Ok_0 == m->Ok_0
            &&& r is Err ==> r->Err_0 == m->Err_0
        }),
{
    let bytes: &[u8] = size_str.as_bytes();
    let u: Vec<u8> = to_upper(bytes);
    let ghost us: Seq<u8> = upper_bytes(size_str.spec_bytes());
    let n: usize = u.len();

    let (num_len, mult): (usize, usize) = if n >= 2 && u[n - 2] == 'K' as u8 && u[n - 1]
        == 'B' as u8 {
        (n - 2, 1024)
    } else if n >= 2 && u[n - 2] == 'M' as u8 && u[n - 1] == 'B' as u8 {
        (n - 2, 1048576)
    } else if n >= 2 && u[n - 2] == 'G' as u8 && u[n - 1] == 'B' as u8 {
        (n - 2, 1073741824)
    } else {
        (n, 1)
    };
    proof {
        assert(mult == size_multiplier(us));
        assert(us.take(num_len as int) =~= size_number_part(us));
    }

    let start: usize = if num_len > 0 && u[0] == '+' as u8 {
        1
    } else {
        0
    };
    let ghost num: Seq<u8> = strip_plus(size_number_part(us));
    proof {
        assert(num =~= us.subrange(start as int, num_len as int));
    }

    if start >= num_len {
        proof {
            assert(num.len() == 0);
        }
        return Err(SizeError::InvalidNumber);
    }

    let mut val: usize = 0;
    let mut over: bool = false;
    let mut i: usize = start;
    while i < num_len
        invariant
            start <= i <= num_len <= us.len(),
            u@ == us,
            u@.len() == n == us.len(),
            us == upper_bytes(size_str.spec_bytes()),
            num == strip_plus(size_number_part(us)),
            mult == size_multiplier(us),
            num == us.subrange(start as int, num_len as int),
            all_digits(us.subrange(start as int, i as int)),
            !over ==> val == digits_val(us.subrange(start as int, i as int)),
            over ==> digits_val(us.subrange(start as int, i as int)) > usize::MAX,
        decreases num_len - i,
    {
        let b = u[i];
        if !('0' as u8 <= b && b <= '9' as u8) {
            proof {
                assert(num[i - start] == b);
                assert(!is_digit(num[i - start]));
                assert(!all_digits(num));
            }
            return Err(SizeError::InvalidNumber);
        }
        let d: usize = (b - '0' as u8) as usize;
        proof {
            let pre = us.subrange(start as int, i as int);
            let post = us.subrange(start as int, i + 1 as int);
            assert(post.drop_last() =~= pre);
            assert(digits_val(post) == digits_val(pre) * 10 + d);
        }
        if over {
            proof {
                let pre = us.subrange(start as int, i as int);
                assert(digits_val(pre) * 10 + d > usize::MAX) by (nonlinear_arith)
                    requires
                        digits_val(pre) > usize::MAX,
                        d >= 0,
                ;
            }
        } else if val > (usize::MAX - d) / 10 {
            proof {
                assert(val * 10 + d > usize::MAX) by (nonlinear_arith)
                    requires
                        val > (usize::MAX - d) / 10,
                        0 <= d <= 9,
                ;
            }
            over = true;
        } else {
            proof {
                assert(val * 10 + d <= usize::MAX) by (nonlinear_arith)
                    requires
                        val <= (usize::MAX - d) / 10,
                        0 <= d <= 9,
                ;
            }
            val = val * 10 + d;
        }
        i += 1;
    }
    proof {
        assert(us.subrange(start as int, num_len as int) == num);
        assert(all_digits(num));
    }

    if over {
        proof {
            assert(digits_val(num) * mult > usize::MAX) by (nonlinear_arith)
                requires
                    digits_val(num) > usize::MAX,
                    mult >= 1,
            ;
        }
        return Err(SizeError::Overflow);
    }
    if val > usize::MAX / mult {
        proof {
            assert(val * mult > usize::MAX) by (nonlinear_arith)
                requires
                    val > usize::MAX / mult,
                    mult >= 1,
            ;
        }
        return Err(SizeError::Overflow);
    }
    proof {
        assert(val * mult <= usize::MAX) by (nonlinear_arith)
            requires
                val <= usize::MAX / mult,
                mult >= 1,
        ;
    }
    Ok(val * mult)
}

} // verus!
