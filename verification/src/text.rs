//! Character-level helpers shared by the parsers and writers: whitespace
//! trimming, comparison that ignores the case of ASCII letters, and decimal
//! digits.

use vstd::prelude::*;

verus! {

/// Whether `c` has the Unicode property `White_Space`.
pub open spec fn is_whitespace(c: char) -> bool {
    let u = c as u32;
    ||| 0x09 <= u <= 0x0D
    ||| u == 0x20
    ||| u == 0x85
    ||| u == 0xA0
    ||| u == 0x1680
    ||| 0x2000 <= u <= 0x200A
    ||| u == 0x2028
    ||| u == 0x2029
    ||| u == 0x202F
    ||| u == 0x205F
    ||| u == 0x3000
}

/// `s` without its leading whitespace.
pub open spec fn trim_start(s: Seq<char>) -> Seq<char>
    decreases s.len(),
{
    if s.len() > 0 && is_whitespace(s.first()) {
        trim_start(s.drop_first())
    } else {
        s
    }
}

/// `s` without its trailing whitespace.
pub open spec fn trim_end(s: Seq<char>) -> Seq<char>
    decreases s.len(),
{
    if s.len() > 0 && is_whitespace(s.last()) {
        trim_end(s.drop_last())
    } else {
        s
    }
}

/// `s` without the whitespace around it.
pub open spec fn trimmed(s: Seq<char>) -> Seq<char> {
    trim_end(trim_start(s))
}

/// Whether `a` and `b` are the same character, or the same ASCII letter in
/// different case.
pub open spec fn same_ignoring_ascii_case(a: char, b: char) -> bool {
    ||| a == b
    ||| ('A' <= a <= 'Z' && a as u32 + 32 == b as u32)
    ||| ('A' <= b <= 'Z' && b as u32 + 32 == a as u32)
}

/// Whether `s` begins with `prefix`, the case of ASCII letters left aside.
pub open spec fn starts_with_ignoring_ascii_case(s: Seq<char>, prefix: Seq<char>) -> bool {
    &&& prefix.len() <= s.len()
    &&& forall|i: int| 0 <= i < prefix.len() ==> same_ignoring_ascii_case(s[i], #[trigger] prefix[i])
}

/// Skipping `n` leading whitespace characters that are followed by the end
/// or by another character is what `trim_start` does.
pub proof fn lemma_trim_start_skips(s: Seq<char>, n: int)
    requires
        0 <= n <= s.len(),
        forall|i: int| 0 <= i < n ==> is_whitespace(#[trigger] s[i]),
        n == s.len() || !is_whitespace(s[n]),
    ensures
        trim_start(s) == s.skip(n),
    decreases n,
{
    if n == 0 {
        assert(s.skip(0) =~= s);
    } else {
        let rest = s.drop_first();
        assert forall|i: int| 0 <= i < n - 1 implies is_whitespace(#[trigger] rest[i]) by {
            assert(rest[i] == s[i + 1]);
        }
        lemma_trim_start_skips(rest, n - 1);
        assert(rest.skip(n - 1) =~= s.skip(n));
    }
}

/// Keeping the first `n` characters, where only whitespace follows them and
/// the last of them is none, is what `trim_end` does.
pub proof fn lemma_trim_end_takes(s: Seq<char>, n: int)
    requires
        0 <= n <= s.len(),
        forall|i: int| n <= i < s.len() ==> is_whitespace(#[trigger] s[i]),
        n == 0 || !is_whitespace(s[n - 1]),
    ensures
        trim_end(s) == s.take(n),
    decreases s.len() - n,
{
    if n == s.len() {
        assert(s.take(n) =~= s);
    } else {
        let rest = s.drop_last();
        lemma_trim_end_takes(rest, n);
        assert(rest.take(n) =~= s.take(n));
    }
}

/// What `trim_start` leaves begins with no whitespace.
pub proof fn lemma_trim_start_begins_clean(s: Seq<char>)
    ensures
        trim_start(s).len() == 0 || !is_whitespace(trim_start(s).first()),
    decreases s.len(),
{
    if s.len() > 0 && is_whitespace(s.first()) {
        lemma_trim_start_begins_clean(s.drop_first());
    }
}

/// What `trim_end` leaves ends with no whitespace.
pub proof fn lemma_trim_end_ends_clean(s: Seq<char>)
    ensures
        trim_end(s).len() == 0 || !is_whitespace(trim_end(s).last()),
    decreases s.len(),
{
    if s.len() > 0 && is_whitespace(s.last()) {
        lemma_trim_end_ends_clean(s.drop_last());
    }
}

/// `trim_end` does not touch the beginning of a text that begins with no
/// whitespace.
pub proof fn lemma_trim_end_keeps_clean_beginning(s: Seq<char>)
    requires
        s.len() > 0,
        !is_whitespace(s.first()),
    ensures
        trim_end(s).len() > 0,
        trim_end(s).first() == s.first(),
    decreases s.len(),
{
    if is_whitespace(s.last()) {
        let rest = s.drop_last();
        assert(rest.first() == s.first());
        lemma_trim_end_keeps_clean_beginning(rest);
    }
}

/// A trimmed text has no whitespace around it: trimming it again changes
/// nothing.
pub proof fn lemma_trimmed_is_trimmed(s: Seq<char>)
    ensures
        trimmed(trimmed(s)) == trimmed(s),
        trimmed(s).len() > 0 ==> !is_whitespace(trimmed(s).first()) && !is_whitespace(
            trimmed(s).last(),
        ),
{
    let front = trim_start(s);
    let both = trimmed(s);
    lemma_trim_start_begins_clean(s);
    lemma_trim_end_ends_clean(front);
    if front.len() > 0 {
        lemma_trim_end_keeps_clean_beginning(front);
    }
    assert(trim_start(both) == both);
    assert(trim_end(both) == both);
}

/// The decimal digit that stands for `d`, for `d` below ten.
pub open spec fn digit_char(d: int) -> char {
    if d == 0 {
        '0'
    } else if d == 1 {
        '1'
    } else if d == 2 {
        '2'
    } else if d == 3 {
        '3'
    } else if d == 4 {
        '4'
    } else if d == 5 {
        '5'
    } else if d == 6 {
        '6'
    } else if d == 7 {
        '7'
    } else if d == 8 {
        '8'
    } else {
        '9'
    }
}

/// The characters of `s`, in order.
pub fn chars_of(s: &str) -> (chars: Vec<char>)
    ensures
        chars@ == s@,
{
    let mut chars: Vec<char> = Vec::new();
    for c in it: s.chars()
        invariant
            it.seq() == s@,
            chars@ == s@.take(it.index()),
    {
        chars.push(c);
    }
    chars
}

/// Whether `c` is whitespace.
pub fn char_is_whitespace(c: char) -> (yes: bool)
    ensures
        yes == is_whitespace(c),
{
    let u: u32 = c as u32;
    (0x09 <= u && u <= 0x0D) || u == 0x20 || u == 0x85 || u == 0xA0 || u == 0x1680 || (0x2000 <= u
        && u <= 0x200A) || u == 0x2028 || u == 0x2029 || u == 0x202F || u == 0x205F || u == 0x3000
}

/// The part of `s` between its leading and its trailing whitespace.
pub fn trim(s: &str) -> (t: &str)
    ensures
        t@ == trimmed(s@),
{
    let chars = chars_of(s);
    let n: usize = chars.len();
    let mut start: usize = 0;
    while start < n && char_is_whitespace(chars[start])
        invariant
            n == chars.len(),
            start <= n,
            forall|i: int| 0 <= i < start ==> is_whitespace(#[trigger] chars@[i]),
        decreases n - start,
    {
        start += 1;
    }
    let mut end: usize = n;
    while end > start && char_is_whitespace(chars[end - 1])
        invariant
            n == chars.len(),
            start <= end <= n,
            forall|i: int| end <= i < n ==> is_whitespace(#[trigger] chars@[i]),
        decreases end,
    {
        end -= 1;
    }
    proof {
        let front = s@.skip(start as int);
        lemma_trim_start_skips(s@, start as int);
        assert forall|i: int| end - start <= i < front.len() implies is_whitespace(
            #[trigger] front[i],
        ) by {
            assert(front[i] == s@[i + start]);
        }
        lemma_trim_end_takes(front, end - start);
        assert(front.take(end - start) =~= s@.subrange(start as int, end as int));
    }
    s.substring_char(start, end)
}

/// Whether `a` and `b` are the same character, the case of ASCII letters
/// left aside.
pub fn char_same_ignoring_ascii_case(a: char, b: char) -> (same: bool)
    ensures
        same == same_ignoring_ascii_case(a, b),
{
    a == b || ('A' <= a && a <= 'Z' && a as u32 + 32 == b as u32) || ('A' <= b && b <= 'Z' && b as u32
        + 32 == a as u32)
}

/// Whether `s` begins with `prefix`, the case of ASCII letters left aside.
pub fn has_prefix_ignoring_ascii_case(s: &str, prefix: &str) -> (yes: bool)
    ensures
        yes == starts_with_ignoring_ascii_case(s@, prefix@),
{
    let wanted = chars_of(prefix);
    let mut seen: usize = 0;
    for c in it: s.chars()
        invariant
            it.seq() == s@,
            wanted@ == prefix@,
            seen == it.index(),
            seen <= wanted.len(),
            forall|i: int| 0 <= i < seen ==> same_ignoring_ascii_case(s@[i], #[trigger] prefix@[i]),
    {
        if seen == wanted.len() {
            return true;
        }
        if !char_same_ignoring_ascii_case(c, wanted[seen]) {
            return false;
        }
        seen += 1;
    }
    seen == wanted.len()
}

/// The text of one decimal digit.
pub(crate) fn digit_str(d: u8) -> (s: &'static str)
    requires
        d < 10,
    ensures
        s@ == seq![digit_char(d as int)],
{
    proof {
        reveal_strlit("0");
        reveal_strlit("1");
        reveal_strlit("2");
        reveal_strlit("3");
        reveal_strlit("4");
        reveal_strlit("5");
        reveal_strlit("6");
        reveal_strlit("7");
        reveal_strlit("8");
        reveal_strlit("9");
    }
    let s = if d == 0 {
        "0"
    } else if d == 1 {
        "1"
    } else if d == 2 {
        "2"
    } else if d == 3 {
        "3"
    } else if d == 4 {
        "4"
    } else if d == 5 {
        "5"
    } else if d == 6 {
        "6"
    } else if d == 7 {
        "7"
    } else if d == 8 {
        "8"
    } else {
        "9"
    };
    assert(s@ =~= seq![digit_char(d as int)]);
    s
}

} // verus!
