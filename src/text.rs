//! Decimal rendering of unsigned numbers.

use vstd::prelude::*;

verus! {

/// The character of a decimal digit.
pub open spec fn digit_char(d: nat) -> char {
    if d == 0 {
        '0'
    } else if d == 1 {
        '1'
    } else if d == 2 {
        '2'
    } else if d == 3 {
        '3'
    } else if d == 4 {
        '4'
    } else if d == 5 {
        '5'
    } else if d == 6 {
        '6'
    } else if d == 7 {
        '7'
    } else if d == 8 {
        '8'
    } else {
        '9'
    }
}

/// The decimal notation of `n`, most significant digit first, without
/// leading zeros.
pub open spec fn decimal(n: nat) -> Seq<char>
    decreases n,
{
    if n < 10 {
        seq![digit_char(n)]
    } else {
        decimal(n / 10).push(digit_char(n % 10))
    }
}

/// The view of an optional text.
pub open spec fn opt_text(o: Option<String>) -> Option<Seq<char>> {
    match o {
        Some(s) => Some(s@),
        None => None,
    }
}

fn digit_str(d: u32) -> (r: &'static str)
    requires
        d < 10,
    ensures
        r@ == seq![digit_char(d as nat)],
{
    proof {
        reveal_strlit("0");
        reveal_strlit("1");
        reveal_strlit("2");
        reveal_strlit("3");
        reveal_strlit("4");
        reveal_strlit("5");
        reveal_strlit("6");
        reveal_strlit("7");
        reveal_strlit("8");
        reveal_strlit("9");
    }
    let r = if d == 0 {
        "0"
    } else if d == 1 {
        "1"
    } else if d == 2 {
        "2"
    } else if d == 3 {
        "3"
    } else if d == 4 {
        "4"
    } else if d == 5 {
        "5"
    } else if d == 6 {
        "6"
    } else if d == 7 {
        "7"
    } else if d == 8 {
        "8"
    } else {
        "9"
    };
    assert(r@ =~= seq![digit_char(d as nat)]);
    r
}

/// Writes `n` in decimal.
pub fn decimal_string(n: u32) -> (r: String)
    ensures
        r@ == decimal(n as nat),
{
    let mut acc = String::from_str(digit_str(n % 10));
    let mut m: u32 = n / 10;
    assert(acc@ =~= seq![digit_char((n % 10) as nat)]);
    assert(decimal(n as nat) =~= (if m == 0 {
        Seq::<char>::empty()
    } else {
        decimal(m as nat)
    }) + acc@);
    while m > 0
        invariant
            decimal(n as nat) == (if m == 0 {
                Seq::<char>::empty()
            } else {
                decimal(m as nat)
            }) + acc@,
        decreases m,
    {
        let head = String::from_str(digit_str(m % 10));
        let next = head.concat(acc.as_str());
        proof {
            let d = digit_char((m % 10) as nat);
            if m / 10 == 0 {
                assert(decimal(m as nat) == seq![d]);
                assert(decimal(m as nat) + acc@ =~= Seq::<char>::empty() + next@);
            } else {
                assert(decimal(m as nat) == decimal((m / 10) as nat).push(d));
                assert(decimal(m as nat) + acc@ =~= decimal((m / 10) as nat) + next@);
            }
        }
        acc = next;
        m = m / 10;
    }
    assert(decimal(n as nat) =~= acc@);
    acc
}

} // verus!
