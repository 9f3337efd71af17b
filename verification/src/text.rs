//! Small text helpers shared by the rest of the library.

use vstd::prelude::*;
use vstd::string::*;

verus! {

/// The decimal digit character for `d` (`0 <= d < 10`).
pub open spec fn digit_char(d: int) -> char {
    seq!['0', '1', '2', '3', '4', '5', '6', '7', '8', '9'][d]
}

/// The decimal notation of a natural number, without leading zeros.
pub open spec fn digits(n: nat) -> Seq<char>
    decreases n,
{
    if n < 10 {
        seq![digit_char(n as int)]
    } else {
        digits(n / 10).push(digit_char((n % 10) as int))
    }
}

/// The decimal notation of an integer, with a leading `-` for negative values.
pub open spec fn decimal_text(n: int) -> Seq<char> {
    if n < 0 {
        seq!['-'] + digits((-n) as nat)
    } else {
        digits(n as nat)
    }
}

fn append_digits(n: u128, out: &mut String)
    ensures
        final(out)@ == old(out)@ + digits(n as nat),
    decreases n,
{
    if n >= 10 {
        append_digits(n / 10, out);
    }
    let d: usize = (n % 10) as usize;
    let table = "0123456789";
    proof {
        reveal_strlit("0123456789");
    }
    let one = table.substring_ascii(d, d + 1);
    assert(one@ =~= seq![digit_char(d as int)]);
    out.append(one);
}

/// Renders `n` in decimal, as `Display` does for Rust's integers.
pub fn decimal(n: i128) -> (s: String)
    requires
        n > i128::MIN,
    ensures
        s@ == decimal_text(n as int),
{
    let mut s = String::new();
    if n < 0 {
        proof {
            reveal_strlit("-");
        }
        s.append("-");
        let m: u128 = (-n) as u128;
        append_digits(m, &mut s);
    } else {
        append_digits(n as u128, &mut s);
    }
    s
}

} // verus!
