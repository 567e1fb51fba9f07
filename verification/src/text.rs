use vstd::prelude::*;

verus! {

/// The character of a decimal digit.
pub open spec fn digit_char(d: int) -> char {
    seq!['0', '1', '2', '3', '4', '5', '6', '7', '8', '9'][d]
}

/// The decimal digits of a natural number, most significant first, no leading zeros.
pub open spec fn digits(n: nat) -> Seq<char>
    decreases n,
{
    if n < 10 {
        seq![digit_char(n as int)]
    } else {
        digits(n / 10).push(digit_char((n % 10) as int))
    }
}

/// The decimal text of an integer, with a leading `-` when it is negative.
pub open spec fn decimal(n: int) -> Seq<char> {
    if n < 0 {
        seq!['-'] + digits((-n) as nat)
    } else {
        digits(n as nat)
    }
}

/// Texts joined with a separator between each two neighbours.
pub open spec fn join(parts: Seq<Seq<char>>, sep: Seq<char>) -> Seq<char>
    decreases parts.len(),
{
    if parts.len() == 0 {
        Seq::empty()
    } else if parts.len() == 1 {
        parts[0]
    } else {
        join(parts.drop_last(), sep) + sep + parts.last()
    }
}

/// The decimal texts of integers, joined by `", "`.
pub open spec fn join_decimals(ns: Seq<i64>) -> Seq<char> {
    join(ns.map_values(|n: i64| decimal(n as int)), ", "@)
}

/// `String::push`: appends one character.
#[verifier::external_body]
pub(crate) fn push_char(s: &mut String, c: char)
    ensures
        final(s)@ == old(s)@.push(c),
{
    s.push(c);
}

fn digit_of(d: u64) -> (c: char)
    requires
        d < 10,
    ensures
        c == digit_char(d as int),
{
    if d == 0 {
        '0'
    } else if d == 1 {
        '1'
    } else if d == 2 {
        '2'
    } else if d == 3 {
        '3'
    } else if d == 4 {
        '4'
    } else if d == 5 {
        '5'
    } else if d == 6 {
        '6'
    } else if d == 7 {
        '7'
    } else if d == 8 {
        '8'
    } else {
        '9'
    }
}

/// Appends the decimal digits of `n`.
pub fn push_digits(s: &mut String, n: u64)
    ensures
        final(s)@ == old(s)@ + digits(n as nat),
    decreases n,
{
    if n >= 10 {
        push_digits(s, n / 10);
        push_char(s, digit_of(n % 10));
    } else {
        push_char(s, digit_of(n));
    }
}

/// Appends the decimal text of `n`.
pub fn push_decimal(s: &mut String, n: i64)
    ensures
        final(s)@ == old(s)@ + decimal(n as int),
{
    if n < 0 {
        push_char(s, '-');
        let magnitude: u64 = if n == i64::MIN {
            9223372036854775808u64
        } else {
            (-n) as u64
        };
        push_digits(s, magnitude);
    } else {
        push_digits(s, n as u64);
    }
}

/// Appends the decimal texts of `ns`, separated by `", "`.
pub fn push_joined_decimals(s: &mut String, ns: &Vec<i64>)
    ensures
        final(s)@ == old(s)@ + join_decimals(ns@),
{
    let ghost start = s@;
    let ghost texts = ns@.map_values(|n: i64| decimal(n as int));
    let mut i: usize = 0;
    while i < ns.len()
        invariant
            i <= ns.len(),
            texts == ns@.map_values(|n: i64| decimal(n as int)),
            s@ == start + join(texts.take(i as int), ", "@),
        decreases ns.len() - i,
    {
        if i > 0 {
            s.append(", ");
        }
        push_decimal(s, ns[i]);
        proof {
            assert(texts.take(i + 1).drop_last() =~= texts.take(i as int));
        }
        i = i + 1;
    }
    proof {
        assert(texts.take(ns.len() as int) =~= texts);
    }
}

} // verus!
