//! Verified decimal numbers as text: parsing process IDs out of process
//! listings and PID files, and rendering ports and intervals into SSH
//! command arguments.

use vstd::prelude::*;

verus! {

/// Why a piece of text is not an acceptable decimal number.
#[derive(Debug, PartialEq, Eq, Structural, Clone, Copy)]
pub enum NumError {
    /// Empty, or holds a character besides the digits `0`..`9`.
    NotDecimal,
    /// A well-formed digit string whose value exceeds the requested
    /// integer type.
    TooLarge,
}

/// `c` is a decimal digit.
pub open spec fn is_digit(c: char) -> bool {
    48 <= c as u32 <= 57
}

/// Numeric value of a digit character.
pub open spec fn digit_val(c: char) -> int {
    c as u32 - 48
}

/// `s` is a non-empty string of decimal digits.
pub open spec fn all_digits(s: Seq<char>) -> bool {
    s.len() > 0 && forall|i: int| 0 <= i < s.len() ==> is_digit(#[trigger] s[i])
}

/// Value of a digit string, most significant digit first.
pub open spec fn digits_val(s: Seq<char>) -> int
    decreases s.len(),
{
    if s.len() == 0 {
        0
    } else {
        digits_val(s.take(s.len() - 1)) * 10 + digit_val(s[s.len() - 1])
    }
}

pub proof fn lemma_digits_val_bounds(s: Seq<char>)
    requires
        forall|i: int| 0 <= i < s.len() ==> is_digit(#[trigger] s[i]),
    ensures
        digits_val(s) >= 0,
    decreases s.len(),
{
    if s.len() > 0 {
        lemma_digits_val_bounds(s.take(s.len() - 1));
    }
}

/// A prefix of a digit string never has a larger value than the whole.
pub proof fn lemma_digits_val_prefix_le(s: Seq<char>, i: int)
    requires
        forall|k: int| 0 <= k < s.len() ==> is_digit(#[trigger] s[k]),
        0 <= i <= s.len(),
    ensures
        digits_val(s.take(i)) <= digits_val(s),
    decreases s.len(),
{
    if i < s.len() {
        let head = s.take(s.len() - 1);
        assert forall|k: int| 0 <= k < head.len() implies is_digit(#[trigger] head[k]) by {
            assert(head[k] == s[k]);
        }
        assert(head.take(i) =~= s.take(i));
        lemma_digits_val_prefix_le(head, i);
        lemma_digits_val_bounds(head);
        assert(is_digit(s[s.len() - 1]));
        assert(digits_val(head) * 10 >= digits_val(head)) by (nonlinear_arith)
            requires
                digits_val(head) >= 0,
        ;
    } else {
        assert(s.take(i) =~= s);
    }
}

/// Parse a non-empty string of decimal digits into a `usize`, exactly as
/// the standard decimal parse accepts it for this library's inputs: the
/// result is `Ok` if and only if `s` is all digits and its value fits.
pub fn parse_usize(s: &str) -> (r: Result<usize, NumError>)
    ensures
        match r {
            Ok(v) => all_digits(s@) && digits_val(s@) == v,
            Err(NumError::NotDecimal) => !all_digits(s@),
            Err(NumError::TooLarge) => all_digits(s@) && digits_val(s@) > usize::MAX,
        },
{
    let n = s.unicode_len();
    if n == 0 {
        return Err(NumError::NotDecimal);
    }
    let mut i: usize = 0;
    while i < n
        invariant
            i <= n,
            n == s@.len(),
            forall|k: int| 0 <= k < i ==> is_digit(#[trigger] s@[k]),
        decreases n - i,
    {
        let u = s.get_char(i) as u32;
        if u < 48 || u > 57 {
            return Err(NumError::NotDecimal);
        }
        i += 1;
    }
    let mut acc: usize = 0;
    let mut i: usize = 0;
    while i < n
        invariant
            i <= n,
            n == s@.len(),
            all_digits(s@),
            acc == digits_val(s@.take(i as int)),
        decreases n - i,
    {
        let d = (s.get_char(i) as u32 - 48) as usize;
        proof {
            assert(s@.take(i + 1).take(i as int) =~= s@.take(i as int));
            assert(s@.take(i + 1)[i as int] == s@[i as int]);
        }
        if acc > (usize::MAX - d) / 10 {
            proof {
                lemma_digits_val_bounds(s@.take(i as int));
                assert(acc * 10 + d > usize::MAX) by (nonlinear_arith)
                    requires
                        acc > (usize::MAX - d) / 10,
                        acc >= 0,
                        0 <= d <= 9,
                ;
                lemma_digits_val_prefix_le(s@, i + 1);
            }
            return Err(NumError::TooLarge);
        }
        proof {
            assert(acc * 10 + d <= usize::MAX) by (nonlinear_arith)
                requires
                    acc <= (usize::MAX - d) / 10,
                    acc >= 0,
                    0 <= d <= 9,
            ;
        }
        acc = acc * 10 + d;
        i += 1;
    }
    proof {
        assert(s@.take(n as int) =~= s@);
    }
    Ok(acc)
}

/// Parse the content of a PID file into a process ID.  `i32` is the type
/// the operating system hands out; the file holds a plain decimal number.
pub fn parse_i32(s: &str) -> (r: Result<i32, NumError>)
    ensures
        match r {
            Ok(v) => all_digits(s@) && digits_val(s@) == v,
            Err(NumError::NotDecimal) => !all_digits(s@),
            Err(NumError::TooLarge) => all_digits(s@) && digits_val(s@) > i32::MAX,
        },
{
    match parse_usize(s) {
        Ok(v) => {
            if v <= i32::MAX as usize {
                Ok(v as i32)
            } else {
                Err(NumError::TooLarge)
            }
        },
        Err(e) => Err(e),
    }
}

/// The digit character of a value below ten.
pub open spec fn digit_char(d: int) -> char {
    if d == 0 {
        '0'
    } else if d == 1 {
        '1'
    } else if d == 2 {
        '2'
    } else if d == 3 {
        '3'
    } else if d == 4 {
        '4'
    } else if d == 5 {
        '5'
    } else if d == 6 {
        '6'
    } else if d == 7 {
        '7'
    } else if d == 8 {
        '8'
    } else {
        '9'
    }
}

/// Decimal digit sequence of `n`, most significant digit first, without
/// leading zeros (`0` is rendered as one digit).
pub open spec fn dec_digits(n: int) -> Seq<char>
    decreases n,
{
    if n < 10 {
        seq![digit_char(n)]
    } else {
        dec_digits(n / 10).push(digit_char(n % 10))
    }
}

fn digit_str(d: usize) -> (r: &'static str)
    requires
        d < 10,
    ensures
        r@ == seq![digit_char(d as int)],
{
    let r: &'static str = match d {
        0 => "0",
        1 => "1",
        2 => "2",
        3 => "3",
        4 => "4",
        5 => "5",
        6 => "6",
        7 => "7",
        8 => "8",
        _ => "9",
    };
    proof {
        reveal_strlit("0");
        reveal_strlit("1");
        reveal_strlit("2");
        reveal_strlit("3");
        reveal_strlit("4");
        reveal_strlit("5");
        reveal_strlit("6");
        reveal_strlit("7");
        reveal_strlit("8");
        reveal_strlit("9");
        assert(r@ =~= seq![digit_char(d as int)]);
    }
    r
}

/// Render `n` in decimal, as the SSH command line needs ports and
/// keep-alive intervals.
pub fn dec_render(n: usize) -> (r: String)
    ensures
        r@ == dec_digits(n as int),
    decreases n,
{
    if n < 10 {
        String::from_str(digit_str(n))
    } else {
        let mut r = dec_render(n / 10);
        r.append(digit_str(n % 10));
        proof {
            assert(r@ =~= dec_digits(n as int / 10).push(digit_char(n as int % 10)));
        }
        r
    }
}

/// Rendering then parsing gives the number back: the digit string of `n`
/// is well formed and its value is `n`.
pub proof fn lemma_dec_digits_val(n: int)
    requires
        n >= 0,
    ensures
        all_digits(dec_digits(n)),
        digits_val(dec_digits(n)) == n,
    decreases n,
{
    if n < 10 {
        let s = dec_digits(n);
        assert(s.take(s.len() - 1) =~= Seq::<char>::empty());
        assert(digits_val(Seq::<char>::empty()) == 0);
        assert(s[0] == digit_char(n));
        assert(digits_val(s) == digit_val(digit_char(n)));
    } else {
        lemma_dec_digits_val(n / 10);
        let head = dec_digits(n / 10);
        let s = dec_digits(n);
        assert(s.take(s.len() - 1) =~= head);
        assert(digits_val(s) == digits_val(head) * 10 + digit_val(digit_char(n % 10)));
        assert(digit_val(digit_char(n % 10)) == n % 10);
        assert((n / 10) * 10 + n % 10 == n) by (nonlinear_arith)
            requires
                n >= 0,
        ;
        assert forall|i: int| 0 <= i < s.len() implies is_digit(#[trigger] s[i]) by {
            if i < head.len() {
                assert(s[i] == head[i]);
            }
        }
    }
}

} // verus!
