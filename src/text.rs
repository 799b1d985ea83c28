use vstd::prelude::*;

verus! {

/// Relies on `str::chars` collected into a `Vec`: the characters of `s`, in
/// order.
#[verifier::external_body]
pub(crate) fn chars_of(s: &str) -> (r: Vec<char>)
    ensures
        r@ == s@,
{
    s.chars().collect()
}

/// Relies on `String::from_iter` over characters: the string made of `cs`.
#[verifier::external_body]
pub(crate) fn string_of(cs: &Vec<char>) -> (r: String)
    ensures
        r@ == cs@,
{
    cs.iter().collect()
}

pub open spec fn digit_char(d: nat) -> char {
    if d == 0 {
        '0'
    } else if d == 1 {
        '1'
    } else if d == 2 {
        '2'
    } else if d == 3 {
        '3'
    } else if d == 4 {
        '4'
    } else if d == 5 {
        '5'
    } else if d == 6 {
        '6'
    } else if d == 7 {
        '7'
    } else if d == 8 {
        '8'
    } else {
        '9'
    }
}

fn digit(d: u64) -> (c: char)
    requires
        d < 10,
    ensures
        c == digit_char(d as nat),
{
    if d == 0 {
        '0'
    } else if d == 1 {
        '1'
    } else if d == 2 {
        '2'
    } else if d == 3 {
        '3'
    } else if d == 4 {
        '4'
    } else if d == 5 {
        '5'
    } else if d == 6 {
        '6'
    } else if d == 7 {
        '7'
    } else if d == 8 {
        '8'
    } else {
        '9'
    }
}

/// The decimal digits of `n`, most significant first, without leading zeros.
pub open spec fn digits(n: nat) -> Seq<char>
    decreases n,
{
    if n < 10 {
        seq![digit_char(n)]
    } else {
        digits(n / 10).push(digit_char(n % 10))
    }
}

/// The decimal form of `n`, with a leading `-` when it is negative.
pub open spec fn decimal(n: int) -> Seq<char> {
    if n < 0 {
        seq!['-'] + digits((-n) as nat)
    } else {
        digits(n as nat)
    }
}

/// The decimal form of an integer.
pub fn decimal_string(n: i64) -> (r: String)
    ensures
        r@ == decimal(n as int),
{
    let negative = n < 0;
    let whole: u64 = if negative {
        ((-(n + 1)) as u64) + 1
    } else {
        n as u64
    };
    let mut m: u64 = whole;
    let mut reversed: Vec<char> = Vec::new();
    assert(digits(whole as nat) == digits(m as nat) + reversed@.reverse());
    while m >= 10
        invariant
            digits(whole as nat) == digits(m as nat) + reversed@.reverse(),
        decreases m,
    {
        let c = digit(m % 10);
        let ghost before = reversed@;
        reversed.push(c);
        proof {
            assert(reversed@.reverse() =~= seq![c] + before.reverse());
            assert(digits(m as nat) == digits((m / 10) as nat).push(c));
            assert(digits(m as nat) + before.reverse() =~= digits((m / 10) as nat) + (seq![c]
                + before.reverse()));
        }
        m = m / 10;
    }
    let c = digit(m);
    let ghost before = reversed@;
    reversed.push(c);
    proof {
        assert(reversed@.reverse() =~= seq![c] + before.reverse());
        assert(digits(m as nat) == seq![c]);
        assert(digits(whole as nat) =~= reversed@.reverse());
    }
    let mut out: Vec<char> = Vec::new();
    if negative {
        out.push('-');
    }
    let mut i: usize = reversed.len();
    while i > 0
        invariant
            i <= reversed.len(),
            out@ == (if negative { seq!['-'] } else { Seq::<char>::empty() }) + reversed@.subrange(i as int, reversed.len() as int).reverse(),
        decreases i,
    {
        i = i - 1;
        let ghost before = out@;
        out.push(reversed[i]);
        assert(reversed@.subrange(i as int, reversed.len() as int).reverse() =~= reversed@.subrange(i as int + 1, reversed.len() as int).reverse().push(reversed@[i as int]));
        assert(out@ =~= (if negative { seq!['-'] } else { Seq::<char>::empty() }) + reversed@.subrange(i as int, reversed.len() as int).reverse());
    }
    assert(reversed@.subrange(0, reversed.len() as int) == reversed@);
    string_of(&out)
}

} // verus!
