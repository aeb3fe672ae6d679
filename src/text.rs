//! Plain-text number and flag readers, stated over character sequences.
use vstd::prelude::*;
use vstd::string::is_ascii_spec_bytes;

verus! {

pub open spec fn is_digit(c: char) -> bool {
    '0' <= c && c <= '9'
}

pub open spec fn all_digits(s: Seq<char>) -> bool {
    forall|i: int| 0 <= i < s.len() ==> is_digit(#[trigger] s[i])
}

pub open spec fn digit_value(c: char) -> nat {
    (c as int - '0' as int) as nat
}

/// The number that a run of decimal digits denotes, most significant first.
pub open spec fn digits_value(s: Seq<char>) -> nat
    decreases s.len(),
{
    if s.len() == 0 {
        0
    } else {
        digits_value(s.drop_last()) * 10 + digit_value(s.last())
    }
}

/// What an unsigned decimal reads as: an optional `+`, then at least one
/// digit, with a value that fits in 64 bits.
pub open spec fn u64_text_value(s: Seq<char>) -> Option<u64> {
    let d = if s.len() > 0 && s[0] == '+' {
        s.drop_first()
    } else {
        s
    };
    if d.len() > 0 && all_digits(d) && digits_value(d) <= u64::MAX {
        Some(digits_value(d) as u64)
    } else {
        None
    }
}

/// What a flag reads as: exactly `true` or exactly `false`.
pub open spec fn bool_text_value(s: Seq<char>) -> Option<bool> {
    if s == seq!['t', 'r', 'u', 'e'] {
        Some(true)
    } else if s == seq!['f', 'a', 'l', 's', 'e'] {
        Some(false)
    } else {
        None
    }
}

proof fn lemma_digits_value_prefix_grows(s: Seq<char>, k: int, m: int)
    requires
        0 <= k <= m <= s.len(),
    ensures
        digits_value(s.take(k)) <= digits_value(s.take(m)),
    decreases m - k,
{
    if k < m {
        lemma_digits_value_prefix_grows(s, k, m - 1);
        assert(s.take(m).drop_last() =~= s.take(m - 1));
    }
}

/// Reads a flag, accepting exactly `true` and `false`.
pub fn parse_bool_text(s: &str) -> (r: Option<bool>)
    ensures
        r == bool_text_value(s@),
{
    if !s.is_ascii() {
        assert(!vstd::utf8::is_ascii_chars(seq!['t', 'r', 'u', 'e']) || s@ != seq!['t', 'r', 'u', 'e']);
        assert(s@ != seq!['t', 'r', 'u', 'e']);
        assert(s@ != seq!['f', 'a', 'l', 's', 'e']);
        return None;
    }
    broadcast use is_ascii_spec_bytes;

    let b = s.as_bytes();
    assert(b@.len() == s@.len());
    if b.len() == 4 && b[0] == 116u8 && b[1] == 114u8 && b[2] == 117u8 && b[3] == 101u8 {
        assert(s@ =~= seq!['t', 'r', 'u', 'e']);
        Some(true)
    } else if b.len() == 5 && b[0] == 102u8 && b[1] == 97u8 && b[2] == 108u8 && b[3] == 115u8
        && b[4] == 101u8 {
        assert(s@ =~= seq!['f', 'a', 'l', 's', 'e']);
        Some(false)
    } else {
        assert(s@ != seq!['t', 'r', 'u', 'e']);
        assert(s@ != seq!['f', 'a', 'l', 's', 'e']);
        None
    }
}

/// Reads an unsigned decimal: an optional `+`, then at least one digit,
/// failing when the value does not fit in 64 bits.
pub fn parse_u64_text(s: &str) -> (r: Option<u64>)
    ensures
        r == u64_text_value(s@),
{
    if !s.is_ascii() {
        let ghost k = choose|k: int| 0 <= k < s@.len() && !('\0' <= #[trigger] s@[k] <= '\u{7f}');
        assert(!is_digit(s@[k]) && s@[k] != '+');
        proof {
            if k > 0 {
                assert(s@.drop_first()[k - 1] == s@[k]);
            }
        }
        return None;
    }
    broadcast use is_ascii_spec_bytes;

    let b = s.as_bytes();
    assert(b@.len() == s@.len());
    assert forall|k: int| 0 <= k < s@.len() implies (#[trigger] b@[k]) as int == s@[k] as int by {
        assert(b@[k] == s@[k] as u8);
        assert('\0' <= s@[k] <= '\u{7f}');
    }
    let start: usize = if b.len() > 0 && b[0] == 43u8 {
        1
    } else {
        0
    };
    assert(s@.len() > 0 ==> b@[0] as int == s@[0] as int);
    assert(start == 1 <==> (s@.len() > 0 && s@[0] == '+'));
    let ghost d = s@.subrange(start as int, s@.len() as int);
    assert(start == 1 ==> d =~= s@.drop_first());
    assert(start == 0 ==> d =~= s@);
    if start == b.len() {
        return None;
    }
    let mut acc: u64 = 0;
    let mut i: usize = start;
    while i < b.len()
        invariant
            start <= i <= b.len(),
            b@.len() == s@.len(),
            forall|k: int| 0 <= k < s@.len() ==> (#[trigger] b@[k]) as int == s@[k] as int,
            d == s@.subrange(start as int, s@.len() as int),
            start <= 1,
            start == 1 ==> d == s@.drop_first(),
            start == 0 ==> d == s@,
            start == 1 <==> (s@.len() > 0 && s@[0] == '+'),
            all_digits(d.take(i - start)),
            acc as nat == digits_value(d.take(i - start)),
        decreases b.len() - i,
    {
        let c = b[i];
        let ghost k: int = i - start;
        assert(d[k] == s@[i as int]);
        if c < 48u8 || c > 57u8 {
            assert(!is_digit(d[k]));
            assert(!all_digits(d));
            return None;
        }
        let v: u64 = (c - 48u8) as u64;
        assert(d.take(k + 1).drop_last() =~= d.take(k));
        assert(digit_value(d[k]) == v);
        if acc > (u64::MAX - v) / 10 {
            assert(digits_value(d.take(k + 1)) > u64::MAX) by (nonlinear_arith)
                requires
                    acc > (u64::MAX - v) / 10,
                    digits_value(d.take(k + 1)) == acc * 10 + v,
            ;
            proof {
                lemma_digits_value_prefix_grows(d, k + 1, d.len() as int);
                assert(d.take(d.len() as int) =~= d);
                assert(digits_value(d) > u64::MAX);
            }
            return None;
        }
        acc = acc * 10 + v;
        i = i + 1;
        assert forall|j: int| 0 <= j < d.take(k + 1).len() implies is_digit(
            #[trigger] d.take(k + 1)[j],
        ) by {
            if j < k {
                assert(d.take(k + 1)[j] == d.take(k)[j]);
            }
        }
    }
    assert(d.take(d.len() as int) =~= d);
    Some(acc)
}

} // verus!
