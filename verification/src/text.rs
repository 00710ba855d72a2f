//! Small verified text helpers: splitting on a separator, concatenation,
//! and decimal formatting of bytes (for dotted IPv4 notation).

use vstd::prelude::*;
use vstd::string::StrSliceExecFns;
use vstd::string::StringExecFns;

verus! {

/// The views of a sequence of strings.
pub open spec fn views_of(v: Seq<String>) -> Seq<Seq<char>> {
    v.map_values(|s: String| s@)
}

/// Relies on String::push: appends exactly one character at the end.
#[verifier::external_body]
pub(crate) fn push_char(s: &mut String, c: char)
    ensures
        final(s)@ == old(s)@.push(c),
{
    s.push(c);
}

/// The result of splitting `s` on `sep`: the segments between separators,
/// in order, with empty segments preserved.  Never empty; splitting the
/// empty text yields one empty segment.
pub open spec fn spec_split(s: Seq<char>, sep: char) -> Seq<Seq<char>>
    decreases s.len(),
{
    if s.len() == 0 {
        seq![Seq::<char>::empty()]
    } else if s.last() == sep {
        spec_split(s.drop_last(), sep).push(Seq::<char>::empty())
    } else {
        let parts = spec_split(s.drop_last(), sep);
        parts.update(parts.len() - 1, parts.last().push(s.last()))
    }
}

/// Splitting always yields at least one segment.
pub proof fn lemma_split_len(s: Seq<char>, sep: char)
    ensures
        spec_split(s, sep).len() >= 1,
    decreases s.len(),
{
    if s.len() != 0 {
        lemma_split_len(s.drop_last(), sep);
    }
}

/// Split `s` on the separator character, keeping empty segments.
pub fn split_on(s: &str, sep: char) -> (parts: Vec<String>)
    ensures
        parts@.len() == spec_split(s@, sep).len(),
        forall|i: int| 0 <= i < parts@.len() ==> parts@[i]@ == spec_split(s@, sep)[i],
{
    let n = s.unicode_len();
    let mut parts: Vec<String> = Vec::new();
    let mut cur = String::new();
    let mut i: usize = 0;
    proof {
        assert(s@.take(0) =~= Seq::<char>::empty());
    }
    while i < n
        invariant
            n == s@.len(),
            i <= n,
            parts@.len() + 1 == spec_split(s@.take(i as int), sep).len(),
            forall|j: int|
                0 <= j < parts@.len() ==> parts@[j]@ == spec_split(s@.take(i as int), sep)[j],
            cur@ == spec_split(s@.take(i as int), sep).last(),
        decreases n - i,
    {
        let c = s.get_char(i);
        proof {
            assert(s@.take(i + 1).drop_last() =~= s@.take(i as int));
            assert(s@.take(i + 1).last() == s@[i as int]);
            lemma_split_len(s@.take(i as int), sep);
        }
        if c == sep {
            parts.push(cur);
            cur = String::new();
        } else {
            push_char(&mut cur, c);
        }
        i = i + 1;
    }
    proof {
        assert(s@.take(n as int) =~= s@);
    }
    parts.push(cur);
    parts
}

/// A copy of a vector of strings, equal entry for entry.
pub fn copy_strings(v: &Vec<String>) -> (r: Vec<String>)
    ensures
        r@ == v@,
{
    let mut r: Vec<String> = Vec::new();
    let mut i: usize = 0;
    while i < v.len()
        invariant
            i <= v@.len(),
            r@ =~= v@.take(i as int),
        decreases v@.len() - i,
    {
        r.push(v[i].clone());
        proof {
            assert(v@.take(i + 1) =~= v@.take(i as int).push(v@[i as int]));
        }
        i = i + 1;
    }
    proof {
        assert(v@.take(v@.len() as int) =~= v@);
    }
    r
}

/// The concatenation of two pieces of text as a fresh `String`.
pub fn concat2(a: &str, b: &str) -> (r: String)
    ensures
        r@ == a@ + b@,
{
    let mut s = a.to_owned();
    s.append(b);
    s
}

/// The decimal digit character for a value below ten.
pub open spec fn spec_digit(d: int) -> char {
    if d == 0 {
        '0'
    } else if d == 1 {
        '1'
    } else if d == 2 {
        '2'
    } else if d == 3 {
        '3'
    } else if d == 4 {
        '4'
    } else if d == 5 {
        '5'
    } else if d == 6 {
        '6'
    } else if d == 7 {
        '7'
    } else if d == 8 {
        '8'
    } else {
        '9'
    }
}

/// The decimal notation of a natural number, without leading zeros
/// (a single zero for the number zero).
pub open spec fn spec_dec(n: nat) -> Seq<char>
    decreases n,
{
    if n < 10 {
        seq![spec_digit(n as int)]
    } else {
        spec_dec(n / 10).push(spec_digit((n % 10) as int))
    }
}

fn digit_char(d: u8) -> (c: char)
    requires
        d < 10,
    ensures
        c == spec_digit(d as int),
{
    if d == 0 {
        '0'
    } else if d == 1 {
        '1'
    } else if d == 2 {
        '2'
    } else if d == 3 {
        '3'
    } else if d == 4 {
        '4'
    } else if d == 5 {
        '5'
    } else if d == 6 {
        '6'
    } else if d == 7 {
        '7'
    } else if d == 8 {
        '8'
    } else {
        '9'
    }
}

/// Append the decimal notation of `n` to `s`.
pub fn push_u8_dec(s: &mut String, n: u8)
    ensures
        final(s)@ == old(s)@ + spec_dec(n as nat),
{
    let d0 = n / 100;
    let d1 = (n / 10) % 10;
    let d2 = n % 10;
    proof {
        assert((n / 10) as nat / 10 == n as nat / 100) by (nonlinear_arith);
    }
    if n >= 100 {
        proof {
            assert(spec_dec(n as nat) == spec_dec(n as nat / 10).push(spec_digit(d2 as int)));
            assert(spec_dec(n as nat / 10) == spec_dec(n as nat / 100).push(spec_digit(d1 as int)));
            assert(spec_dec(n as nat / 100) == seq![spec_digit(d0 as int)]);
        }
        push_char(s, digit_char(d0));
        push_char(s, digit_char(d1));
        push_char(s, digit_char(d2));
        proof {
            assert(final(s)@ =~= old(s)@ + spec_dec(n as nat));
        }
    } else if n >= 10 {
        proof {
            assert(spec_dec(n as nat) == spec_dec(n as nat / 10).push(spec_digit(d2 as int)));
            assert(spec_dec(n as nat / 10) == seq![spec_digit(d1 as int)]);
        }
        push_char(s, digit_char(d1));
        push_char(s, digit_char(d2));
        proof {
            assert(final(s)@ =~= old(s)@ + spec_dec(n as nat));
        }
    } else {
        push_char(s, digit_char(d2));
        proof {
            assert(final(s)@ =~= old(s)@ + spec_dec(n as nat));
        }
    }
}

} // verus!
