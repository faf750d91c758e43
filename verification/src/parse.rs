//! Parsing the "number of rows" text input: the whole text must be a
//! decimal numeral whose value fits the row-count type, else the commit is
//! ignored.

use vstd::prelude::*;
use vstd::arithmetic::div_mod::lemma_fundamental_div_mod;

verus! {

/// `c` is a decimal digit.
pub open spec fn is_digit(c: char) -> bool {
    48 <= c as u32 <= 57
}

/// The numeric value of a decimal digit.
pub open spec fn digit_val(c: char) -> int {
    (c as u32) as int - 48
}

/// Every character of `s` is a decimal digit.
pub open spec fn all_digits(s: Seq<char>) -> bool {
    forall|i: int| 0 <= i < s.len() ==> is_digit(#[trigger] s[i])
}

/// The value of `s` read as a decimal numeral, most significant digit
/// first.
pub open spec fn digits_val(s: Seq<char>) -> int
    decreases s.len(),
{
    if s.len() == 0 {
        0
    } else {
        digits_val(s.drop_last()) * 10 + digit_val(s.last())
    }
}

/// A digit string's value is non-negative.
proof fn lemma_digits_val_nonneg(s: Seq<char>)
    requires
        all_digits(s),
    ensures
        digits_val(s) >= 0,
    decreases s.len(),
{
    if s.len() > 0 {
        assert(all_digits(s.drop_last()));
        lemma_digits_val_nonneg(s.drop_last());
    }
}

/// The digits of a numeral: everything after an optional single leading
/// plus sign.
pub open spec fn numeral_digits(s: Seq<char>) -> Seq<char> {
    if s.len() > 0 && s[0] == '+' {
        s.drop_first()
    } else {
        s
    }
}

/// Appending digits can only grow the value: a prefix is worth at most the
/// whole string.
proof fn lemma_digits_val_prefix_le(s: Seq<char>, n: int)
    requires
        all_digits(s),
        0 <= n <= s.len(),
    ensures
        digits_val(s.take(n)) <= digits_val(s),
    decreases s.len() - n,
{
    if n == s.len() {
        assert(s.take(n) =~= s);
    } else {
        assert(s.take(n + 1).drop_last() =~= s.take(n));
        assert(s.take(n + 1).last() == s[n]);
        assert(all_digits(s.take(n)));
        lemma_digits_val_nonneg(s.take(n));
        assert(digits_val(s.take(n)) <= digits_val(s.take(n + 1)));
        lemma_digits_val_prefix_le(s, n + 1);
    }
}

/// Parse the committed text of the row-count input, as Rust's own integer
/// parsing reads a non-negative number: an optional single leading plus
/// sign, then at least one decimal digit. Returns the value iff the digits
/// are non-empty, nothing else follows, and the value fits in `usize`.
pub fn parse_row_count(text: &str) -> (r: Option<usize>)
    ensures
        r is Some <==> (numeral_digits(text@).len() > 0 && all_digits(numeral_digits(text@))
            && digits_val(numeral_digits(text@)) <= usize::MAX as int),
        r is Some ==> r->0 == digits_val(numeral_digits(text@)),
{
    let len = text.unicode_len();
    if len == 0 {
        return None;
    }
    let first = text.get_char(0);
    let start: usize = if first == '+' {
        1
    } else {
        0
    };
    let ghost ds = numeral_digits(text@);
    proof {
        assert(ds =~= text@.subrange(start as int, len as int));
    }
    if start == len {
        // A bare sign has no digits.
        return None;
    }
    let mut n: usize = 0;
    let mut idx: usize = start;
    while idx < len
        invariant
            start <= idx <= len,
            start <= 1,
            len == text@.len(),
            ds == numeral_digits(text@),
            ds == text@.subrange(start as int, len as int),
            all_digits(ds.take(idx - start)),
            n == digits_val(ds.take(idx - start)),
        decreases len - idx,
    {
        let c = text.get_char(idx);
        let code = c as u32;
        proof {
            assert(ds[idx - start] == text@[idx as int]);
        }
        if code < 48 || code > 57 {
            return None;
        }
        let d = (code - 48) as usize;
        let limit = (usize::MAX - d) / 10;
        proof {
            lemma_fundamental_div_mod(usize::MAX as int - d as int, 10);
            assert(ds.take(idx - start + 1).drop_last() =~= ds.take(idx - start));
            assert(ds.take(idx - start + 1).last() == ds[idx - start]);
            assert(digits_val(ds.take(idx - start + 1)) == n * 10 + d);
        }
        if n > limit {
            // The numeral already exceeds `usize::MAX`; the remaining
            // characters can only grow it further.
            proof {
                if all_digits(ds) {
                    lemma_digits_val_prefix_le(ds, idx - start + 1);
                }
            }
            return None;
        }
        n = n * 10 + d;
        idx = idx + 1;
    }
    proof {
        assert(ds.take(len - start) =~= ds);
    }
    Some(n)
}

} // verus!
