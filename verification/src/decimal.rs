use vstd::prelude::*;

verus! {

/// An ASCII decimal digit.
pub open spec fn is_ascii_digit(c: char) -> bool {
    '0' <= c && c <= '9'
}

/// The number that a run of decimal digits spells.
pub open spec fn digits_value(digits: Seq<char>) -> int
    decreases digits.len(),
{
    if digits.len() == 0 {
        0
    } else {
        digits_value(digits.drop_last()) * 10 + (digits.last() as int - '0' as int)
    }
}

/// The value of a non-empty run of ASCII digits that fits in `usize`.
pub open spec fn parsed_digits(digits: Seq<char>) -> Option<usize> {
    if digits.len() > 0 && (forall|i: int| 0 <= i < digits.len() ==> is_ascii_digit(#[trigger] digits[i]))
        && digits_value(digits) <= usize::MAX {
        Some(digits_value(digits) as usize)
    } else {
        None
    }
}

/// What `usize::from_str` reads: an optional leading `+` (not alone), then at
/// least one ASCII digit and nothing else, whose value fits in `usize`.
pub open spec fn parsed_usize(text: Seq<char>) -> Option<usize> {
    parsed_digits(
        if text.len() > 1 && text[0] == '+' {
            text.drop_first()
        } else {
            text
        },
    )
}

/// A longer run of digits spells at least as much as any of its prefixes.
pub proof fn lemma_digits_value_grows(digits: Seq<char>, k: int)
    requires
        0 <= k <= digits.len(),
        forall|i: int| 0 <= i < digits.len() ==> is_ascii_digit(#[trigger] digits[i]),
    ensures
        0 <= digits_value(digits.take(k)) <= digits_value(digits),
    decreases digits.len(),
{
    if digits.len() > 0 {
        let shorter = digits.drop_last();
        assert forall|i: int| 0 <= i < shorter.len() implies is_ascii_digit(#[trigger] shorter[i]) by {
            assert(shorter[i] == digits[i]);
        }
        if k == digits.len() {
            assert(digits.take(k) =~= digits);
            lemma_digits_value_grows(shorter, shorter.len() as int);
            assert(shorter.take(shorter.len() as int) =~= shorter);
        } else {
            lemma_digits_value_grows(shorter, k);
            assert(shorter.take(k) =~= digits.take(k));
            lemma_digits_value_grows(shorter, shorter.len() as int);
            assert(shorter.take(shorter.len() as int) =~= shorter);
        }
    } else {
        assert(digits.take(k) =~= digits);
    }
}

/// Reads `chars[lo..hi]` as `usize::from_str` does.
pub fn parse_usize(chars: &[char], lo: usize, hi: usize) -> (value: Option<usize>)
    requires
        lo <= hi <= chars@.len(),
    ensures
        value == parsed_usize(chars@.subrange(lo as int, hi as int)),
{
    let ghost text = chars@.subrange(lo as int, hi as int);
    let mut start = lo;
    if hi - lo > 1 && chars[lo] == '+' {
        start = lo + 1;
        assert(text.drop_first() =~= chars@.subrange(start as int, hi as int));
    } else {
        assert(text =~= chars@.subrange(start as int, hi as int));
    }
    let ghost digits = chars@.subrange(start as int, hi as int);
    assert(parsed_usize(text) == parsed_digits(digits));
    if start == hi {
        return None;
    }
    let mut value: usize = 0;
    let mut i: usize = start;
    while i < hi
        invariant
            lo <= start <= i <= hi <= chars@.len(),
            digits == chars@.subrange(start as int, hi as int),
            parsed_usize(chars@.subrange(lo as int, hi as int)) == parsed_digits(digits),
            forall|k: int| 0 <= k < i - start ==> is_ascii_digit(#[trigger] digits[k]),
            value == digits_value(digits.take(i - start)),
        decreases hi - i,
    {
        let c = chars[i];
        if !('0' <= c && c <= '9') {
            assert(!is_ascii_digit(digits[i - start]));
            return None;
        }
        assert(is_ascii_digit(digits[i - start]));
        let digit = (c as u32 - '0' as u32) as usize;
        assert(digits.take(i - start + 1).drop_last() =~= digits.take(i - start));
        let next = match value.checked_mul(10) {
            Some(tens) => tens.checked_add(digit),
            None => None,
        };
        match next {
            Some(v) => {
                value = v;
            },
            None => {
                proof {
                    if forall|k: int| 0 <= k < digits.len() ==> is_ascii_digit(#[trigger] digits[k]) {
                        lemma_digits_value_grows(digits, i - start + 1);
                    }
                }
                return None;
            },
        }
        i = i + 1;
    }
    assert(digits.take(hi - start) =~= digits);
    Some(value)
}

} // verus!
