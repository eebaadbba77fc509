//! Names of the output files: `{prefix}-{index:08}.{ext}`.

use vstd::prelude::*;

verus! {

/// Relies on `String::push`: appends one character at the end.
#[verifier::external_body]
pub(crate) fn push_char(s: &mut String, c: char)
    ensures
        final(s)@ == old(s)@.push(c),
{
    s.push(c)
}

/// The decimal digit for `d`, for `d < 10`.
pub open spec fn digit_char(d: nat) -> char {
    seq!['0', '1', '2', '3', '4', '5', '6', '7', '8', '9'][d as int]
}

/// Decimal digits of `n`, most significant first, with no leading zero.
pub open spec fn decimal(n: nat) -> Seq<char>
    decreases n,
{
    if n < 10 {
        seq![digit_char(n)]
    } else {
        decimal(n / 10).push(digit_char(n % 10))
    }
}

/// Decimal digits of `n`, with leading zeros up to `width` characters.
pub open spec fn zero_padded(n: nat, width: nat) -> Seq<char> {
    let d = decimal(n);
    if d.len() < width {
        Seq::new((width - d.len()) as nat, |i: int| '0') + d
    } else {
        d
    }
}

/// Name of file `index` of a run: prefix, dash, index in at least eight
/// digits, dot, extension.
pub open spec fn spec_file_name(prefix: Seq<char>, index: nat, ext: Seq<char>) -> Seq<char> {
    prefix + seq!['-'] + zero_padded(index, 8) + seq!['.'] + ext
}

fn digit(d: usize) -> (r: char)
    requires
        d < 10,
    ensures
        r == digit_char(d as nat),
{
    let digits = ['0', '1', '2', '3', '4', '5', '6', '7', '8', '9'];
    assert(digits@ == seq!['0', '1', '2', '3', '4', '5', '6', '7', '8', '9']);
    digits[d]
}

/// Decimal digits of `n`, most significant first.
fn decimal_digits(n: usize) -> (r: Vec<char>)
    ensures
        r@ == decimal(n as nat),
{
    let mut digits: Vec<char> = Vec::new();
    let mut m: usize = n;
    while m >= 10
        invariant
            decimal(n as nat) == decimal(m as nat) + digits@,
        decreases m,
    {
        let d = digit(m % 10);
        proof {
            assert(decimal(m as nat) == decimal((m / 10) as nat).push(d));
            assert(decimal((m / 10) as nat).push(d) + digits@ =~= decimal((m / 10) as nat) + digits@.insert(0, d));
        }
        digits.insert(0, d);
        m = m / 10;
    }
    let d = digit(m);
    assert(decimal(m as nat) + digits@ =~= digits@.insert(0, d));
    digits.insert(0, d);
    digits
}

/// Name of the file with position `index` in a run, `{prefix}-{index:08}.{ext}`.
pub fn file_name(prefix: &str, index: usize, ext: &str) -> (r: String)
    ensures
        r@ == spec_file_name(prefix@, index as nat, ext@),
{
    let digits = decimal_digits(index);
    let mut s = prefix.to_owned();
    push_char(&mut s, '-');
    let ghost start = s@;
    let mut k: usize = digits.len();
    while k < 8
        invariant
            digits.len() <= k <= 8 || (digits.len() > 8 && k == digits.len()),
            s@ == start + Seq::new((k - digits.len()) as nat, |i: int| '0'),
        decreases 8 - k,
    {
        push_char(&mut s, '0');
        assert(s@ =~= start + Seq::new((k + 1 - digits.len()) as nat, |i: int| '0'));
        k = k + 1;
    }
    let ghost padded = s@;
    let mut j: usize = 0;
    while j < digits.len()
        invariant
            j <= digits.len(),
            s@ == padded + digits@.take(j as int),
        decreases digits.len() - j,
    {
        push_char(&mut s, digits[j]);
        assert(s@ =~= padded + digits@.take(j as int + 1));
        j = j + 1;
    }
    push_char(&mut s, '.');
    s.append(ext);
    proof {
        assert(digits@.take(j as int) =~= digits@);
        let zeros = Seq::new((k - digits.len()) as nat, |i: int| '0');
        if digits.len() < 8 {
            assert(zero_padded(index as nat, 8) == zeros + digits@);
        } else {
            assert(zeros =~= Seq::<char>::empty());
            assert(zero_padded(index as nat, 8) =~= zeros + digits@);
        }
        assert(s@ =~= spec_file_name(prefix@, index as nat, ext@));
    }
    s
}

} // verus!
