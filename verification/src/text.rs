//! Small string utilities: character-wise comparison, prefix tests, and
//! decimal rendering of integers.

use vstd::prelude::*;

verus! {

/// The decimal digit character for one digit value.
pub open spec fn digit_char(d: int) -> char {
    if d == 0 {
        '0'
    } else if d == 1 {
        '1'
    } else if d == 2 {
        '2'
    } else if d == 3 {
        '3'
    } else if d == 4 {
        '4'
    } else if d == 5 {
        '5'
    } else if d == 6 {
        '6'
    } else if d == 7 {
        '7'
    } else if d == 8 {
        '8'
    } else {
        '9'
    }
}

/// The decimal digits of a non-negative integer, most significant first.
pub open spec fn dec_digits(n: int) -> Seq<char>
    decreases n,
{
    if n < 10 {
        seq![digit_char(n)]
    } else {
        dec_digits(n / 10).push(digit_char(n % 10))
    }
}

/// The decimal rendering of an integer, with a leading minus sign when
/// negative.
pub open spec fn int_repr(n: int) -> Seq<char> {
    if n < 0 {
        seq!['-'] + dec_digits(-n)
    } else {
        dec_digits(n)
    }
}

/// Relies on String::push: appends exactly the given character.
#[verifier::external_body]
pub(crate) fn push_char(s: &mut String, c: char)
    ensures
        final(s)@ == old(s)@.push(c),
{
    s.push(c);
}

/// Character-wise string equality.
pub fn str_eq(a: &str, b: &str) -> (r: bool)
    ensures
        r == (a@ == b@),
{
    let a_len = a.unicode_len();
    let b_len = b.unicode_len();
    if a_len != b_len {
        return false;
    }
    let mut i: usize = 0;
    while i < a_len
        invariant
            i <= a_len,
            a_len == a@.len(),
            a_len == b@.len(),
            forall|j: int| 0 <= j < i ==> a@[j] == b@[j],
        decreases a_len - i,
    {
        if a.get_char(i) != b.get_char(i) {
            return false;
        }
        i += 1;
    }
    proof {
        assert(a@ =~= b@);
    }
    true
}

/// Whether `p` is a prefix of `s`, character by character.
pub fn str_starts_with(s: &str, p: &str) -> (r: bool)
    ensures
        r == p@.is_prefix_of(s@),
{
    let s_len = s.unicode_len();
    let p_len = p.unicode_len();
    if p_len > s_len {
        return false;
    }
    let mut i: usize = 0;
    while i < p_len
        invariant
            i <= p_len,
            p_len == p@.len(),
            s_len == s@.len(),
            p_len <= s_len,
            forall|j: int| 0 <= j < i ==> s@[j] == p@[j],
        decreases p_len - i,
    {
        if s.get_char(i) != p.get_char(i) {
            return false;
        }
        i += 1;
    }
    proof {
        assert(p@ =~= s@.subrange(0, p@.len() as int));
    }
    true
}

/// Renders an integer in decimal.
pub fn i64_to_string(n: i64) -> (r: String)
    requires
        n > i64::MIN,
    ensures
        r@ == int_repr(n as int),
{
    let mut s = String::new();
    let mut m: i64 = n;
    if n < 0 {
        push_char(&mut s, '-');
        m = -n;
    }
    let ghost m0: int = m as int;
    let mut rev: Vec<char> = Vec::new();
    while m >= 10
        invariant
            0 <= m <= m0,
            dec_digits(m0) == dec_digits(m as int) + rev@.reverse(),
        decreases m,
    {
        let d: i64 = m % 10;
        let c = digit_char_exec(d);
        proof {
            assert(dec_digits(m as int) == dec_digits(m as int / 10).push(digit_char(m as int % 10)));
            assert((dec_digits(m as int / 10) + rev@.push(c).reverse()) =~= dec_digits(m0));
        }
        rev.push(c);
        m = m / 10;
    }
    let c = digit_char_exec(m);
    push_char(&mut s, c);
    proof {
        assert(dec_digits(m as int) =~= seq![digit_char(m as int)]);
        assert(s@ + rev@.reverse() =~= int_repr(n as int));
    }
    let mut k: usize = rev.len();
    while k > 0
        invariant
            k <= rev@.len(),
            s@ + rev@.subrange(0, k as int).reverse() =~= int_repr(n as int),
        decreases k,
    {
        k = k - 1;
        let c = rev[k];
        push_char(&mut s, c);
        proof {
            assert(rev@.subrange(0, k + 1 as int).reverse() =~= seq![rev@[k as int]] + rev@.subrange(
                0,
                k as int,
            ).reverse());
            assert(s@ + rev@.subrange(0, k as int).reverse() =~= int_repr(n as int));
        }
    }
    proof {
        assert(rev@.subrange(0, 0).reverse() =~= Seq::<char>::empty());
        assert(s@ =~= int_repr(n as int));
    }
    s
}

/// The digit character for a digit value.
fn digit_char_exec(d: i64) -> (c: char)
    requires
        0 <= d <= 9,
    ensures
        c == digit_char(d as int),
{
    if d == 0 {
        '0'
    } else if d == 1 {
        '1'
    } else if d == 2 {
        '2'
    } else if d == 3 {
        '3'
    } else if d == 4 {
        '4'
    } else if d == 5 {
        '5'
    } else if d == 6 {
        '6'
    } else if d == 7 {
        '7'
    } else if d == 8 {
        '8'
    } else {
        '9'
    }
}

} // verus!
