use vstd::prelude::*;

verus! {

/// The ASCII digit for `d` (taken modulo ten).
pub open spec fn digit_char(d: nat) -> char {
    let k = d % 10;
    if k == 0 { '0' }
    else if k == 1 { '1' }
    else if k == 2 { '2' }
    else if k == 3 { '3' }
    else if k == 4 { '4' }
    else if k == 5 { '5' }
    else if k == 6 { '6' }
    else if k == 7 { '7' }
    else if k == 8 { '8' }
    else { '9' }
}

/// The decimal digits of `n`, most significant first, with no leading zero.
pub open spec fn dec(n: nat) -> Seq<char>
    decreases n,
{
    if n < 10 {
        seq![digit_char(n)]
    } else {
        dec(n / 10).push(digit_char(n % 10))
    }
}

/// `count` zero digits.
pub open spec fn zeros(count: nat) -> Seq<char> {
    Seq::new(count, |i: int| '0')
}

/// The decimal digits of `n`, left-padded with zeros to at least `width` characters.
pub open spec fn pad(n: nat, width: nat) -> Seq<char> {
    if dec(n).len() >= width {
        dec(n)
    } else {
        zeros((width - dec(n).len()) as nat) + dec(n)
    }
}

/// Whether `needle` occurs somewhere in `hay` as a contiguous run.
pub open spec fn holds(hay: Seq<char>, needle: Seq<char>) -> bool {
    exists|i: int|
        0 <= i && i + needle.len() <= hay.len() && #[trigger] hay.subrange(i, i + needle.len())
            == needle
}

pub proof fn lemma_dec_nonempty(n: nat)
    ensures
        dec(n).len() >= 1,
    decreases n,
{
    if n >= 10 {
        lemma_dec_nonempty(n / 10);
    }
}

fn digit_str(d: u64) -> (r: &'static str)
    requires
        d < 10,
    ensures
        r@ == seq![digit_char(d as nat)],
{
    if d == 0 {
        proof { reveal_strlit("0"); }
        "0"
    } else if d == 1 {
        proof { reveal_strlit("1"); }
        "1"
    } else if d == 2 {
        proof { reveal_strlit("2"); }
        "2"
    } else if d == 3 {
        proof { reveal_strlit("3"); }
        "3"
    } else if d == 4 {
        proof { reveal_strlit("4"); }
        "4"
    } else if d == 5 {
        proof { reveal_strlit("5"); }
        "5"
    } else if d == 6 {
        proof { reveal_strlit("6"); }
        "6"
    } else if d == 7 {
        proof { reveal_strlit("7"); }
        "7"
    } else if d == 8 {
        proof { reveal_strlit("8"); }
        "8"
    } else {
        proof { reveal_strlit("9"); }
        "9"
    }
}

/// `n` written in decimal.
pub fn decimal(n: u64) -> (r: String)
    ensures
        r@ == dec(n as nat),
    decreases n,
{
    if n < 10 {
        String::from_str(digit_str(n))
    } else {
        let mut s = decimal(n / 10);
        s.append(digit_str(n % 10));
        s
    }
}

/// `n` written in decimal and left-padded with zeros to at least `width` characters.
pub fn padded(n: u64, width: usize) -> (r: String)
    ensures
        r@ == pad(n as nat, width as nat),
{
    let digits = decimal(n);
    let count = digit_count(n);
    if count >= width {
        return digits;
    }
    let mut s = String::new();
    let mut i: usize = 0;
    while i < width - count
        invariant
            count < width,
            count == dec(n as nat).len(),
            i <= width - count,
            s@ == zeros(i as nat),
        decreases width - count - i,
    {
        proof { reveal_strlit("0"); }
        s.append("0");
        i = i + 1;
        assert(s@ =~= zeros(i as nat));
    }
    s.append(digits.as_str());
    s
}

/// How many decimal digits `n` has.
fn digit_count(n: u64) -> (r: usize)
    ensures
        r == dec(n as nat).len(),
    decreases n,
{
    if n < 10 {
        1
    } else {
        proof { lemma_dec_len_bound(n as nat, 20); }
        digit_count(n / 10) + 1
    }
}

spec fn pow10(k: nat) -> nat
    decreases k,
{
    if k == 0 { 1 } else { 10 * pow10((k - 1) as nat) }
}

proof fn lemma_dec_len_bound(n: nat, k: nat)
    requires
        k >= 1,
        n < pow10(k) || (k == 20 && n <= u64::MAX),
    ensures
        dec(n).len() <= k,
    decreases k,
{
    if k == 20 {
        reveal_with_fuel(pow10, 21);
        assert(u64::MAX < pow10(20));
    }
    if n >= 10 {
        assert(k >= 2) by {
            if k == 1 {
                reveal_with_fuel(pow10, 2);
            }
        }
        assert(n / 10 < pow10((k - 1) as nat));
        lemma_dec_len_bound(n / 10, (k - 1) as nat);
    }
}

} // verus!
