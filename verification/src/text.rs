use vstd::prelude::*;

verus! {

/// The characters that `char::is_whitespace` accepts: Unicode's White_Space
/// property.
pub open spec fn is_white_space(c: char) -> bool {
    let u = c as u32;
    ||| 0x9 <= u <= 0xd
    ||| u == 0x20
    ||| u == 0x85
    ||| u == 0xa0
    ||| u == 0x1680
    ||| 0x2000 <= u <= 0x200a
    ||| u == 0x2028
    ||| u == 0x2029
    ||| u == 0x202f
    ||| u == 0x205f
    ||| u == 0x3000
}

/// `s` without its leading white space.
pub open spec fn trim_start(s: Seq<char>) -> Seq<char>
    decreases s.len(),
{
    if s.len() > 0 && is_white_space(s[0]) {
        trim_start(s.drop_first())
    } else {
        s
    }
}

/// `s` without its trailing white space.
pub open spec fn trim_end(s: Seq<char>) -> Seq<char>
    decreases s.len(),
{
    if s.len() > 0 && is_white_space(s.last()) {
        trim_end(s.drop_last())
    } else {
        s
    }
}

/// `s` without leading or trailing white space, as `str::trim` gives it.
pub open spec fn trim(s: Seq<char>) -> Seq<char> {
    trim_end(trim_start(s))
}

/// `needle` occurs in `haystack` as a contiguous run.
pub open spec fn contains_run(haystack: Seq<char>, needle: Seq<char>) -> bool {
    exists|i: int|
        0 <= i && i + needle.len() <= haystack.len() && #[trigger] haystack.subrange(
            i,
            i + needle.len(),
        ) == needle
}

/// `prefix` is a prefix of `s`.
pub open spec fn starts_with(s: Seq<char>, prefix: Seq<char>) -> bool {
    prefix.len() <= s.len() && s.subrange(0, prefix.len() as int) == prefix
}

/// `s` holds a character that is not white space.
pub open spec fn has_non_white(s: Seq<char>) -> bool {
    exists|k: int| 0 <= k < s.len() && !is_white_space(#[trigger] s[k])
}

/// Trailing white space that ends in `n` is all that `trim_end` takes from
/// `p + n`, when `n` holds a character that is not white space.
pub proof fn lemma_trim_end_after_prefix(p: Seq<char>, n: Seq<char>)
    requires
        has_non_white(n),
    ensures
        trim_end(p + n) == p + trim_end(n),
    decreases n.len(),
{
    let k = choose|k: int| 0 <= k < n.len() && !is_white_space(#[trigger] n[k]);
    assert((p + n).last() == n.last());
    assert((p + n).drop_last() =~= p + n.drop_last());
    if is_white_space(n.last()) {
        assert(k < n.len() - 1);
        assert(n.drop_last()[k] == n[k]);
        lemma_trim_end_after_prefix(p, n.drop_last());
    }
}

/// `trim_end` gives a prefix of its argument, which is not empty when the
/// argument holds a character that is not white space.
pub proof fn lemma_trim_end_prefix(s: Seq<char>)
    ensures
        trim_end(s).len() <= s.len(),
        trim_end(s) == s.subrange(0, trim_end(s).len() as int),
        has_non_white(s) ==> trim_end(s).len() > 0,
    decreases s.len(),
{
    if s.len() > 0 && is_white_space(s.last()) {
        lemma_trim_end_prefix(s.drop_last());
        if has_non_white(s) {
            let k = choose|k: int| 0 <= k < s.len() && !is_white_space(#[trigger] s[k]);
            assert(s.drop_last()[k] == s[k]);
        }
        assert(s.drop_last().subrange(0, trim_end(s).len() as int) =~= s.subrange(
            0,
            trim_end(s).len() as int,
        ));
    } else {
        assert(s.subrange(0, s.len() as int) =~= s);
        if has_non_white(s) {
            assert(s.len() > 0);
        }
    }
}

/// Trimming the end twice is trimming it once.
pub proof fn lemma_trim_end_idempotent(s: Seq<char>)
    ensures
        trim_end(trim_end(s)) == trim_end(s),
    decreases s.len(),
{
    if s.len() > 0 && is_white_space(s.last()) {
        lemma_trim_end_idempotent(s.drop_last());
    }
}

/// `trim_start` keeps a character that is not white space, and what it
/// leaves starts with one.
pub proof fn lemma_trim_start_non_white(s: Seq<char>)
    requires
        has_non_white(s),
    ensures
        has_non_white(trim_start(s)),
        trim_start(s).len() > 0,
        !is_white_space(trim_start(s)[0]),
    decreases s.len(),
{
    if is_white_space(s[0]) {
        let k = choose|k: int| 0 <= k < s.len() && !is_white_space(#[trigger] s[k]);
        assert(k > 0);
        assert(s.drop_first()[k - 1] == s[k]);
        lemma_trim_start_non_white(s.drop_first());
    } else {
        assert(!is_white_space(s[0]));
    }
}

/// Trimming the start and the end can be done in either order.
pub proof fn lemma_trim_sides_commute(s: Seq<char>)
    requires
        has_non_white(s),
    ensures
        trim_start(trim_end(s)) == trim_end(trim_start(s)),
    decreases s.len(),
{
    let k = choose|k: int| 0 <= k < s.len() && !is_white_space(#[trigger] s[k]);
    if is_white_space(s[0]) {
        let rest = s.drop_first();
        assert(k > 0);
        assert(rest[k - 1] == s[k]);
        lemma_trim_end_after_prefix(seq![s[0]], rest);
        assert(seq![s[0]] + rest =~= s);
        let x = trim_end(rest);
        assert((seq![s[0]] + x).drop_first() =~= x);
        assert((seq![s[0]] + x)[0] == s[0]);
        lemma_trim_sides_commute(rest);
    } else {
        lemma_trim_end_prefix(s);
        assert(trim_end(s)[0] == s[0]);
    }
}

/// A string with a character that is not white space trims to a string that
/// is not empty, and trimming what is left of it at the end changes nothing
/// more.
pub proof fn lemma_trim_of_trim_end(s: Seq<char>)
    requires
        has_non_white(s),
    ensures
        trim(trim_end(s)) == trim(s),
        trim(s).len() > 0,
{
    lemma_trim_sides_commute(s);
    lemma_trim_end_idempotent(trim_start(s));
    lemma_trim_start_non_white(s);
    lemma_trim_end_prefix(trim_start(s));
}

/// Whether `c` is white space in the sense of `char::is_whitespace`.
pub fn is_white_space_char(c: char) -> (r: bool)
    ensures
        r == is_white_space(c),
{
    let u = c as u32;
    (0x9 <= u && u <= 0xd) || u == 0x20 || u == 0x85 || u == 0xa0 || u == 0x1680 || (0x2000 <= u
        && u <= 0x200a) || u == 0x2028 || u == 0x2029 || u == 0x202f || u == 0x205f || u == 0x3000
}

/// The characters of `s`, in order.
pub fn chars_of(s: &str) -> (chars: Vec<char>)
    ensures
        chars@ == s@,
{
    let mut chars: Vec<char> = Vec::new();
    for c in it: s.chars()
        invariant
            chars@ == it.seq().take(it.index() as int),
    {
        chars.push(c);
    }
    chars
}

/// Appends `c` to `s` (std's `String::push`).
#[verifier::external_body]
fn push_char(s: &mut String, c: char)
    ensures
        final(s)@ == old(s)@.push(c),
{
    s.push(c);
}

/// A `String` holding exactly the characters `chars`.
pub fn string_from_chars(chars: &[char]) -> (s: String)
    ensures
        s@ == chars@,
{
    let mut s = String::new();
    let n = chars.len();
    let mut i: usize = 0;
    while i < n
        invariant
            n == chars@.len(),
            i <= n,
            s@ == chars@.take(i as int),
        decreases n - i,
    {
        push_char(&mut s, chars[i]);
        i = i + 1;
        assert(s@ =~= chars@.take(i as int));
    }
    assert(chars@.take(n as int) =~= chars@);
    s
}

/// The bounds `(start, end)` of `chars[lo..hi]` once leading and trailing
/// white space is dropped.
pub fn trim_bounds_in(chars: &[char], lo: usize, hi: usize) -> (bounds: (usize, usize))
    requires
        lo <= hi <= chars@.len(),
    ensures
        lo <= bounds.0 <= bounds.1 <= hi,
        chars@.subrange(bounds.0 as int, bounds.1 as int) == trim(chars@.subrange(lo as int, hi as int)),
{
    let ghost whole = chars@.subrange(lo as int, hi as int);
    let mut i: usize = lo;
    while i < hi && is_white_space_char(chars[i])
        invariant
            lo <= i <= hi <= chars@.len(),
            whole == chars@.subrange(lo as int, hi as int),
            trim_start(whole) == trim_start(chars@.subrange(i as int, hi as int)),
        decreases hi - i,
    {
        assert(chars@.subrange(i as int, hi as int).drop_first() =~= chars@.subrange(
            i + 1,
            hi as int,
        ));
        i = i + 1;
    }
    let ghost rest = chars@.subrange(i as int, hi as int);
    assert(trim_start(rest) == rest);
    let mut j: usize = hi;
    while j > i && is_white_space_char(chars[j - 1])
        invariant
            lo <= i <= j <= hi <= chars@.len(),
            rest == chars@.subrange(i as int, hi as int),
            trim_end(rest) == trim_end(chars@.subrange(i as int, j as int)),
        decreases j,
    {
        assert(chars@.subrange(i as int, j as int).drop_last() =~= chars@.subrange(
            i as int,
            j - 1,
        ));
        j = j - 1;
    }
    (i, j)
}

/// The bounds `(start, end)` of `chars` once leading and trailing white space
/// is dropped.
pub fn trim_bounds(chars: &[char]) -> (bounds: (usize, usize))
    ensures
        bounds.0 <= bounds.1 <= chars@.len(),
        chars@.subrange(bounds.0 as int, bounds.1 as int) == trim(chars@),
{
    assert(chars@.subrange(0, chars@.len() as int) =~= chars@);
    trim_bounds_in(chars, 0, chars.len())
}

/// `s` without leading or trailing white space (`str::trim`).
pub fn trim_str(s: &str) -> (t: &str)
    ensures
        t@ == trim(s@),
{
    let chars = chars_of(s);
    let (start, end) = trim_bounds(chars.as_slice());
    s.substring_char(start, end)
}

/// Whether two character sequences are equal.
pub fn chars_equal(a: &[char], b: &[char]) -> (r: bool)
    ensures
        r == (a@ == b@),
{
    if a.len() != b.len() {
        return false;
    }
    let n = a.len();
    let mut i: usize = 0;
    while i < n
        invariant
            n == a@.len(),
            n == b@.len(),
            i <= n,
            forall|k: int| 0 <= k < i ==> a@[k] == b@[k],
        decreases n - i,
    {
        if a[i] != b[i] {
            return false;
        }
        i = i + 1;
    }
    assert(a@ =~= b@);
    true
}

/// Whether two strings hold the same characters.
pub fn str_equal(a: &str, b: &str) -> (r: bool)
    ensures
        r == (a@ == b@),
{
    let ca = chars_of(a);
    let cb = chars_of(b);
    chars_equal(ca.as_slice(), cb.as_slice())
}

/// Whether `needle` occurs as a contiguous run in `haystack`.
pub fn chars_contain_run(haystack: &[char], needle: &[char]) -> (r: bool)
    ensures
        r == contains_run(haystack@, needle@),
{
    let n = haystack.len();
    let m = needle.len();
    if m > n {
        return false;
    }
    if m == 0 {
        assert(haystack@.subrange(0int, 0int + needle@.len()) =~= needle@);
        return true;
    }
    let mut i: usize = 0;
    while i <= n - m
        invariant
            n == haystack@.len(),
            m == needle@.len(),
            0 < m <= n,
            i <= n - m + 1,
            forall|k: int|
                0 <= k < i ==> #[trigger] haystack@.subrange(k, k + m as int) != needle@,
        decreases n - m + 1 - i,
    {
        let mut j: usize = 0;
        let mut matched = true;
        while j < m
            invariant
                n == haystack@.len(),
                m == needle@.len(),
                i + m <= n,
                j <= m,
                matched ==> forall|k: int| 0 <= k < j ==> haystack@[i + k] == needle@[k],
                !matched ==> haystack@.subrange(i as int, i + m as int) != needle@,
            decreases m - j,
        {
            if haystack[i + j] != needle[j] {
                matched = false;
                assert(haystack@.subrange(i as int, i + m as int)[j as int] != needle@[j as int]);
            }
            j = j + 1;
        }
        if matched {
            assert(haystack@.subrange(i as int, i + m as int) =~= needle@);
            return true;
        }
        i = i + 1;
    }
    assert forall|k: int|
        0 <= k && k + needle@.len() <= haystack@.len() implies #[trigger] haystack@.subrange(
        k,
        k + needle@.len(),
    ) != needle@ by {
        assert(k < i);
    }
    false
}

} // verus!
