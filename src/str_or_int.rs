use vstd::prelude::*;
use vstd::string::*;

verus! {

/// A value that a document may write either as a string or as an integer.
#[derive(Debug, Clone)]
pub enum StrOrInt {
    Str(String),
    Int(i64),
}

pub open spec fn is_digit(c: char) -> bool {
    '0' <= c && c <= '9'
}

/// The number that a string of decimal digits denotes.
pub open spec fn digits_value(s: Seq<char>) -> nat
    decreases s.len(),
{
    if s.len() == 0 {
        0
    } else {
        10 * digits_value(s.drop_last()) + ((s.last() as nat) - ('0' as nat)) as nat
    }
}

/// The digits of an unsigned decimal, after an optional `+`.
pub open spec fn unsigned_digits(s: Seq<char>) -> Seq<char> {
    if s.len() > 0 && s[0] == '+' {
        s.drop_first()
    } else {
        s
    }
}

/// The `u64` that a string denotes: one or more decimal digits after an
/// optional `+`, with a value that fits.
pub open spec fn decimal_u64(s: Seq<char>) -> Option<u64> {
    let d = unsigned_digits(s);
    if d.len() > 0 && (forall|i: int| 0 <= i < d.len() ==> is_digit(#[trigger] d[i])) && digits_value(d)
        <= u64::MAX {
        Some(digits_value(d) as u64)
    } else {
        None
    }
}

impl StrOrInt {
    /// The unsigned integer this value denotes, if any.
    pub open spec fn u64_value(&self) -> Option<u64> {
        match self {
            StrOrInt::Str(s) => decimal_u64(s@),
            StrOrInt::Int(i) => if *i >= 0 {
                Some(*i as u64)
            } else {
                None
            },
        }
    }

    /// Converts to an unsigned integer: a string must be a decimal
    /// numeral, an integer must not be negative.
    pub fn to_u64(&self) -> (r: Option<u64>)
        ensures
            r == self.u64_value(),
    {
        match self {
            StrOrInt::Str(s) => parse_u64(s.as_str()),
            StrOrInt::Int(i) => if *i >= 0 {
                Some(*i as u64)
            } else {
                None
            },
        }
    }
}

proof fn lemma_digits_prefix_grows(s: Seq<char>, i: int)
    requires
        0 <= i <= s.len(),
    ensures
        digits_value(s.subrange(0, i)) <= digits_value(s),
    decreases s.len() - i,
{
    if i < s.len() {
        lemma_digits_prefix_grows(s, i + 1);
        assert(s.subrange(0, i + 1).drop_last() =~= s.subrange(0, i));
    } else {
        assert(s.subrange(0, i) =~= s);
    }
}

/// Reads a decimal numeral with an optional leading `+`.
pub fn parse_u64(s: &str) -> (r: Option<u64>)
    ensures
        r == decimal_u64(s@),
{
    let n = s.unicode_len();
    let mut start: usize = 0;
    if n > 0 && s.get_char(0) == '+' {
        start = 1;
    }
    let ghost d = unsigned_digits(s@);
    assert(d =~= s@.subrange(start as int, n as int));
    if start >= n {
        return None;
    }
    let mut acc: u64 = 0;
    let mut i: usize = start;
    while i < n
        invariant
            n == s@.len(),
            start <= i <= n,
            d =~= s@.subrange(start as int, n as int),
            d == unsigned_digits(s@),
            forall|j: int| 0 <= j < i - start ==> is_digit(#[trigger] d[j]),
            acc as nat == digits_value(d.subrange(0, i - start)),
        decreases n - i,
    {
        let c = s.get_char(i);
        if !('0' <= c && c <= '9') {
            assert(!is_digit(d[i - start]));
            assert(!(forall|j: int| 0 <= j < d.len() ==> is_digit(#[trigger] d[j])));
            assert(decimal_u64(s@) is None) by {
                let dd = unsigned_digits(s@);
                assert(dd == d);
                if decimal_u64(s@) is Some {
                    assert(is_digit(dd[i - start]));
                }
            }
            return None;
        }
        let digit: u64 = (c as u32 - '0' as u32) as u64;
        assert(d.subrange(0, i + 1 - start).drop_last() =~= d.subrange(0, i - start));
        if acc > (u64::MAX - digit) / 10 {
            let ghost a = acc as int;
            let ghost g = digit as int;
            assert(10 * a + g > u64::MAX) by (nonlinear_arith)
                requires
                    a > (u64::MAX - g) / 10,
                    0 <= g <= 9,
            ;
            proof {
                lemma_digits_prefix_grows(d, i + 1 - start);
            }
            assert(digits_value(d) > u64::MAX);
            assert(decimal_u64(s@) is None) by {
                let dd = unsigned_digits(s@);
                assert(dd == d);
            }
            return None;
        }
        acc = acc * 10 + digit;
        i = i + 1;
    }
    assert(d.subrange(0, n - start) =~= d);
    Some(acc)
}

} // verus!
