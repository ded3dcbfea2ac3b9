//! Decimal rendering of numeric identifiers, with an exact
//! character-level specification.

use vstd::prelude::*;

verus! {

/// The character for one decimal digit value.
pub open spec fn decimal_digit(d: int) -> char {
    if d == 0 {
        '0'
    } else if d == 1 {
        '1'
    } else if d == 2 {
        '2'
    } else if d == 3 {
        '3'
    } else if d == 4 {
        '4'
    } else if d == 5 {
        '5'
    } else if d == 6 {
        '6'
    } else if d == 7 {
        '7'
    } else if d == 8 {
        '8'
    } else {
        '9'
    }
}

/// The usual decimal rendering of a non-negative integer: no leading
/// zeroes, except that zero itself is the single character `0`.
pub open spec fn decimal_digits(n: int) -> Seq<char>
    decreases n,
{
    if n < 10 {
        seq![decimal_digit(n)]
    } else {
        decimal_digits(n / 10).push(decimal_digit(n % 10))
    }
}

/// The digit characters for a reversed sequence of digit values.
spec fn digit_chars(rev: Seq<u8>) -> Seq<char> {
    rev.map_values(|d: u8| decimal_digit(d as int))
}

/// Renders `n` in decimal.
pub fn u64_to_decimal(n: u64) -> (r: String)
    ensures
        r@ == decimal_digits(n as int),
{
    let digits = "0123456789";
    proof {
        reveal_strlit("0123456789");
        assert(digits@.len() == 10);
        assert(forall|d: int| 0 <= d < 10 ==> digits@[d] == decimal_digit(d));
        assert(vstd::string::is_ascii(digits));
    }
    let mut rev: Vec<u8> = Vec::new();
    let mut m = n;
    loop
        invariant_except_break
            vstd::string::is_ascii(digits),
            digits@.len() == 10,
            forall|d: int| 0 <= d < 10 ==> digits@[d] == decimal_digit(d),
            forall|k: int| 0 <= k < rev@.len() ==> (#[trigger] rev@[k]) < 10,
            decimal_digits(n as int) == decimal_digits(m as int) + digit_chars(rev@).reverse(),
        ensures
            vstd::string::is_ascii(digits),
            digits@.len() == 10,
            forall|d: int| 0 <= d < 10 ==> digits@[d] == decimal_digit(d),
            forall|k: int| 0 <= k < rev@.len() ==> (#[trigger] rev@[k]) < 10,
            decimal_digits(n as int) == digit_chars(rev@).reverse(),
        decreases m,
    {
        let d = (m % 10) as u8;
        let ghost prev = rev@;
        let ghost m_old = m as int;
        rev.push(d);
        m = m / 10;
        proof {
            assert(digit_chars(prev.push(d)).reverse() =~= seq![decimal_digit(d as int)]
                + digit_chars(prev).reverse());
            assert(m_old % 10 == d as int);
            assert(m_old / 10 == m as int);
        }
        if m == 0 {
            proof {
                assert(decimal_digits(m_old) == seq![decimal_digit(d as int)]);
                assert(decimal_digits(n as int) =~= digit_chars(rev@).reverse());
            }
            break ;
        }
        proof {
            assert(decimal_digits(m_old) == decimal_digits(m as int).push(
                decimal_digit(d as int),
            ));
            assert(decimal_digits(m as int) + digit_chars(rev@).reverse() =~= (decimal_digits(
                m as int,
            ).push(decimal_digit(d as int))) + digit_chars(prev).reverse());
        }
    }
    let mut out = String::new();
    let mut j = rev.len();
    proof {
        assert(digit_chars(rev@.skip(j as int)).reverse() =~= Seq::<char>::empty());
    }
    while j > 0
        invariant
            j <= rev@.len(),
            vstd::string::is_ascii(digits),
            digits@.len() == 10,
            forall|d: int| 0 <= d < 10 ==> digits@[d] == decimal_digit(d),
            forall|k: int| 0 <= k < rev@.len() ==> (#[trigger] rev@[k]) < 10,
            decimal_digits(n as int) == digit_chars(rev@).reverse(),
            out@ == digit_chars(rev@.skip(j as int)).reverse(),
        decreases j,
    {
        let d = rev[j - 1];
        let c = digits.substring_ascii(d as usize, d as usize + 1);
        let ghost prev_out = out@;
        out.append(c);
        proof {
            assert(digit_chars(rev@.skip(j - 1)).reverse() =~= prev_out.push(
                decimal_digit(d as int),
            ));
        }
        j = j - 1;
    }
    proof {
        assert(rev@.skip(0) =~= rev@);
    }
    out
}

} // verus!
