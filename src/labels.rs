use vstd::prelude::*;
use crate::pointlist::string_from_chars;

verus! {

pub open spec fn digit_char(d: nat) -> char {
    seq!['0', '1', '2', '3', '4', '5', '6', '7', '8', '9'][d as int]
}

/// Decimal digits of `n`, most significant first, without leading zeros.
pub open spec fn decimal(n: nat) -> Seq<char>
    decreases n,
{
    if n < 10 {
        seq![digit_char(n)]
    } else {
        decimal(n / 10).push(digit_char(n % 10))
    }
}

fn push_decimal(out: &mut Vec<char>, n: u64)
    ensures
        final(out)@ == old(out)@ + decimal(n as nat),
    decreases n,
{
    let digits: [char; 10] = ['0', '1', '2', '3', '4', '5', '6', '7', '8', '9'];
    assert(digits@ =~= seq!['0', '1', '2', '3', '4', '5', '6', '7', '8', '9']);
    if n < 10 {
        out.push(digits[n as usize]);
        assert(out@ =~= old(out)@ + decimal(n as nat));
    } else {
        push_decimal(out, n / 10);
        out.push(digits[(n % 10) as usize]);
        assert(out@ =~= old(out)@ + decimal(n as nat));
    }
}

fn push_str_chars(out: &mut Vec<char>, s: &str)
    ensures
        final(out)@ == old(out)@ + s@,
{
    let n = s.unicode_len();
    let mut i: usize = 0;
    while i < n
        invariant
            n == s@.len(),
            i <= n,
            out@ == old(out)@ + s@.take(i as int),
        decreases n - i,
    {
        out.push(s.get_char(i));
        assert(s@.take(i + 1) == s@.take(i as int).push(s@[i as int]));
        i = i + 1;
    }
    assert(s@.take(n as int) == s@);
}

/// The label printed under section `index` (counted from zero) of an exported
/// layout: its number counted from one and how many gores to cut, as in `#2(x8)`.
pub fn piece_label(index: usize, gores: u16) -> (r: String)
    requires
        index < u64::MAX,
    ensures
        r@ == "#"@ + decimal(index as nat + 1) + "(x"@ + decimal(gores as nat) + ")"@,
{
    let mut v: Vec<char> = Vec::new();
    push_str_chars(&mut v, "#");
    push_decimal(&mut v, index as u64 + 1);
    push_str_chars(&mut v, "(x");
    push_decimal(&mut v, gores as u64);
    push_str_chars(&mut v, ")");
    string_from_chars(&v)
}

/// The identifier proposed for a new input when `count` inputs exist.
pub fn new_input_id(count: usize) -> (r: String)
    requires
        count < u64::MAX,
    ensures
        r@ == "input"@ + decimal(count as nat + 1),
{
    let mut v: Vec<char> = Vec::new();
    push_str_chars(&mut v, "input");
    push_decimal(&mut v, count as u64 + 1);
    string_from_chars(&v)
}

/// The identifier proposed for a new parameter when `count` parameters exist.
pub fn new_parameter_id(count: usize) -> (r: String)
    requires
        count < u64::MAX,
    ensures
        r@ == "param"@ + decimal(count as nat + 1),
{
    let mut v: Vec<char> = Vec::new();
    push_str_chars(&mut v, "param");
    push_decimal(&mut v, count as u64 + 1);
    string_from_chars(&v)
}

} // verus!
