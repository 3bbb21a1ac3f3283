use vstd::prelude::*;
use vstd::string::StringExecFns;

verus! {

/// The character of a decimal digit.
pub open spec fn digit_char(d: int) -> char {
    if d == 0 {
        '0'
    } else if d == 1 {
        '1'
    } else if d == 2 {
        '2'
    } else if d == 3 {
        '3'
    } else if d == 4 {
        '4'
    } else if d == 5 {
        '5'
    } else if d == 6 {
        '6'
    } else if d == 7 {
        '7'
    } else if d == 8 {
        '8'
    } else {
        '9'
    }
}

/// A number in decimal digits, without leading zeros.
pub open spec fn decimal_text(n: nat) -> Seq<char>
    decreases n,
{
    if n < 10 {
        seq![digit_char(n as int)]
    } else {
        decimal_text(n / 10).push(digit_char((n % 10) as int))
    }
}

/// A decimal digit as a text of one character.
fn digit_str(d: u64) -> (s: &'static str)
    requires
        d < 10,
    ensures
        s@ == seq![digit_char(d as int)],
{
    proof {
        reveal_strlit("0");
        reveal_strlit("1");
        reveal_strlit("2");
        reveal_strlit("3");
        reveal_strlit("4");
        reveal_strlit("5");
        reveal_strlit("6");
        reveal_strlit("7");
        reveal_strlit("8");
        reveal_strlit("9");
    }
    let s = if d == 0 {
        "0"
    } else if d == 1 {
        "1"
    } else if d == 2 {
        "2"
    } else if d == 3 {
        "3"
    } else if d == 4 {
        "4"
    } else if d == 5 {
        "5"
    } else if d == 6 {
        "6"
    } else if d == 7 {
        "7"
    } else if d == 8 {
        "8"
    } else {
        "9"
    };
    assert(s@ =~= seq![digit_char(d as int)]);
    s
}

/// Writes a number in decimal digits.
pub fn u64_to_text(n: u64) -> (text: String)
    ensures
        text@ == decimal_text(n as nat),
{
    let mut digits: Vec<u64> = Vec::new();
    let mut rest = n;
    digits.push(rest % 10);
    rest = rest / 10;
    // `tail` is the text of the digits taken off so far
    let ghost mut tail: Seq<char> = seq![digit_char((n % 10) as int)];
    while rest > 0
        invariant
            digits@.len() > 0,
            forall|i: int| 0 <= i < digits@.len() ==> digits@[i] < 10,
            tail.len() == digits@.len(),
            forall|i: int|
                0 <= i < digits@.len() ==> tail[i] == digit_char(
                    digits@[digits@.len() - 1 - i] as int,
                ),
            decimal_text(n as nat) == if rest == 0 {
                tail
            } else {
                decimal_text(rest as nat) + tail
            },
        decreases rest,
    {
        let d = rest % 10;
        let ghost old_tail = tail;
        let ghost old_rest = rest;
        digits.push(d);
        rest = rest / 10;
        proof {
            tail = seq![digit_char(d as int)] + old_tail;
            if old_rest < 10 {
                assert(decimal_text(old_rest as nat) =~= seq![digit_char(d as int)]);
            } else {
                assert(decimal_text(old_rest as nat) + old_tail =~= decimal_text(rest as nat)
                    + tail);
            }
        }
    }
    let mut text = String::new();
    let mut k: usize = digits.len();
    while k > 0
        invariant
            k <= digits@.len(),
            tail.len() == digits@.len(),
            forall|i: int| 0 <= i < digits@.len() ==> digits@[i] < 10,
            forall|i: int|
                0 <= i < digits@.len() ==> tail[i] == digit_char(
                    digits@[digits@.len() - 1 - i] as int,
                ),
            text@ == tail.take(digits@.len() - k),
        decreases k,
    {
        k -= 1;
        text.append(digit_str(digits[k]));
        assert(text@ =~= tail.take(digits@.len() - k));
    }
    assert(tail.take(digits@.len() as int) =~= tail);
    text
}

} // verus!
