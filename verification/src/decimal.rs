//! Numbers written in decimal ASCII digits.

use vstd::prelude::*;

verus! {

/// The ASCII digit for `d`.
pub open spec fn digit(d: nat) -> u8
    recommends
        d < 10,
{
    (48 + d) as u8
}

/// `n` in decimal: no sign, no leading zeros, `0` as one digit.
pub open spec fn decimal(n: nat) -> Seq<u8>
    decreases n,
{
    if n < 10 {
        seq![digit(n)]
    } else {
        decimal(n / 10).push(digit(n % 10))
    }
}

/// Appends `n` in decimal to `out`.
pub fn push_decimal(out: &mut Vec<u8>, n: u32)
    ensures
        final(out)@ == old(out)@ + decimal(n as nat),
{
    // The digits, least significant first.
    let mut digits: Vec<u8> = Vec::new();
    let mut rest: u32 = n;
    while rest >= 10
        invariant
            decimal(n as nat) == decimal(rest as nat) + digits@.reverse(),
        decreases rest,
    {
        let d: u8 = (rest % 10) as u8 + 48;
        proof {
            let before = digits@;
            let after = before.push(d);
            assert(after.reverse() =~= seq![d] + before.reverse());
            assert(decimal(rest as nat) == decimal((rest / 10) as nat).push(d));
            assert(decimal((rest / 10) as nat).push(d) + before.reverse() =~= decimal(
                (rest / 10) as nat,
            ) + after.reverse());
        }
        digits.push(d);
        rest = rest / 10;
    }
    out.push(rest as u8 + 48);
    let mut i: usize = digits.len();
    while i > 0
        invariant
            i <= digits.len(),
            out@ == old(out)@ + seq![digit(rest as nat)] + digits@.reverse().take(
                digits.len() - i,
            ),
        decreases i,
    {
        i = i - 1;
        out.push(digits[i]);
        assert(out@ =~= old(out)@ + seq![digit(rest as nat)] + digits@.reverse().take(
            digits.len() - i,
        ));
    }
    assert(digits@.reverse().take(digits.len() as int) =~= digits@.reverse());
    assert(out@ =~= old(out)@ + decimal(n as nat));
}

} // verus!
