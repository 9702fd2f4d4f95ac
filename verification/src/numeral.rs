use vstd::prelude::*;

verus! {

/// The character for one decimal digit.
pub open spec fn digit_char(d: int) -> char {
    if d == 0 {
        '0'
    } else if d == 1 {
        '1'
    } else if d == 2 {
        '2'
    } else if d == 3 {
        '3'
    } else if d == 4 {
        '4'
    } else if d == 5 {
        '5'
    } else if d == 6 {
        '6'
    } else if d == 7 {
        '7'
    } else if d == 8 {
        '8'
    } else {
        '9'
    }
}

/// The decimal digits of a non-negative number, most significant first,
/// with no leading zero except for the number zero itself.
pub open spec fn decimal_of_nat(n: int) -> Seq<char>
    decreases n,
{
    if n < 10 {
        seq![digit_char(n)]
    } else {
        decimal_of_nat(n / 10) + seq![digit_char(n % 10)]
    }
}

/// The decimal rendering of an integer: a minus sign before the digits of
/// its magnitude when it is negative, the plain digits otherwise.
pub open spec fn decimal_of(n: int) -> Seq<char> {
    if n < 0 {
        seq!['-'] + decimal_of_nat(-n)
    } else {
        decimal_of_nat(n)
    }
}

/// The digits of a non-negative number, as `decimal_of_nat` lists them.
fn digits_string(n: u16) -> (r: String)
    ensures
        r@ == decimal_of_nat(n as int),
    decreases n,
{
    let ds = "0123456789";
    proof {
        reveal_strlit("0123456789");
    }
    let d = (n % 10) as usize;
    let digit = ds.substring_char(d, d + 1);
    proof {
        assert(digit@ =~= seq![digit_char(n as int % 10)]);
    }
    if n < 10 {
        String::from_str(digit)
    } else {
        let rest = digits_string(n / 10);
        rest.concat(digit)
    }
}

/// The decimal rendering of a signed number, exactly as `decimal_of`
/// describes it.
pub fn decimal_string(n: i16) -> (r: String)
    ensures
        r@ == decimal_of(n as int),
{
    if n < 0 {
        let mag = (-(n as i32)) as u16;
        proof {
            assert(mag as int == -(n as int));
        }
        let digits = digits_string(mag);
        let signed = String::from_str("-").concat(digits.as_str());
        proof {
            reveal_strlit("-");
            assert(signed@ =~= decimal_of(n as int));
        }
        signed
    } else {
        digits_string(n as u16)
    }
}

} // verus!
