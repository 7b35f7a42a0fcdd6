use vstd::prelude::*;

verus! {

/// The characters of `s`, in order.
pub fn chars_of(s: &str) -> (v: Vec<char>)
    ensures
        v@ == s@,
{
    let mut v: Vec<char> = Vec::new();
    for c in it: s.chars()
        invariant
            v@ == it.seq().take(it.index() as int),
    {
        v.push(c);
    }
    v
}

/// Builds a `String` from characters, through std's `FromIterator<&char> for String`
/// (`Iterator::collect`); std documents that it appends the characters in order.
#[verifier::external_body]
pub(crate) fn string_of(v: &Vec<char>) -> (s: String)
    ensures
        s@ == v@,
{
    v.iter().collect::<String>()
}

/// `s` occurs in `text` at position `i`.
pub open spec fn occurs_at(text: Seq<char>, s: Seq<char>, i: int) -> bool {
    0 <= i && i + s.len() <= text.len() && text.subrange(i, i + s.len()) == s
}

/// `s` occurs somewhere in `text`, as `str::contains` tests (the empty string occurs everywhere).
pub open spec fn contains(text: Seq<char>, s: Seq<char>) -> bool {
    exists|i: int| #[trigger] occurs_at(text, s, i)
}

fn occurs_at_exec(text: &Vec<char>, s: &Vec<char>, i: usize) -> (r: bool)
    requires
        i + s.len() <= text.len(),
    ensures
        r == occurs_at(text@, s@, i as int),
{
    let mut j: usize = 0;
    while j < s.len()
        invariant
            j <= s.len(),
            i + s.len() <= text.len(),
            forall|k: int| 0 <= k < j ==> text@[i + k] == s@[k],
        decreases s.len() - j,
    {
        if text[i + j] != s[j] {
            assert(text@.subrange(i as int, i + s.len())[j as int] != s@[j as int]);
            return false;
        }
        j = j + 1;
    }
    assert(text@.subrange(i as int, i + s.len()) =~= s@);
    true
}

/// Whether `s` occurs in `text`.
pub fn contains_chars(text: &Vec<char>, s: &Vec<char>) -> (r: bool)
    ensures
        r == contains(text@, s@),
{
    if s.len() > text.len() {
        assert forall|i: int| !occurs_at(text@, s@, i) by {}
        return false;
    }
    let last = text.len() - s.len();
    let mut i: usize = 0;
    loop
        invariant
            last == text.len() - s.len(),
            s.len() <= text.len(),
            i <= last,
            forall|k: int| 0 <= k < i ==> !occurs_at(text@, s@, k),
        ensures
            forall|k: int| 0 <= k <= last ==> !occurs_at(text@, s@, k),
        decreases last - i,
    {
        if occurs_at_exec(text, s, i) {
            return true;
        }
        if i == last {
            break;
        }
        i = i + 1;
    }
    assert forall|k: int| !occurs_at(text@, s@, k) by {
        if 0 <= k <= last {
        }
    }
    false
}

/// `i` is where `s` first occurs in `text`.
pub open spec fn is_first_occurrence(text: Seq<char>, s: Seq<char>, i: int) -> bool {
    occurs_at(text, s, i) && forall|j: int| 0 <= j < i ==> !#[trigger] occurs_at(text, s, j)
}

/// Where `s` first occurs in `text`, if it occurs at all.
pub open spec fn first_occurrence(text: Seq<char>, s: Seq<char>) -> Option<int> {
    if contains(text, s) {
        Some(choose|i: int| is_first_occurrence(text, s, i))
    } else {
        None
    }
}

/// `first_occurrence` names the one first occurrence.
pub proof fn lemma_first_occurrence(text: Seq<char>, s: Seq<char>, i: int)
    requires
        is_first_occurrence(text, s, i),
    ensures
        first_occurrence(text, s) == Some(i),
{
    assert(contains(text, s));
    let k = choose|k: int| is_first_occurrence(text, s, k);
    if k < i {
        assert(occurs_at(text, s, k));
    }
    if i < k {
        assert(occurs_at(text, s, i));
    }
}

/// The first occurrence lies within the text, with room for `s` after it.
pub proof fn lemma_first_occurrence_in_bounds(text: Seq<char>, s: Seq<char>)
    ensures
        first_occurrence(text, s) is Some <==> contains(text, s),
        first_occurrence(text, s) matches Some(i) ==> 0 <= i && i + s.len() <= text.len(),
{
    if contains(text, s) {
        let w = choose|w: int| occurs_at(text, s, w);
        lemma_first_occurrence_exists(text, s, w);
        let k = choose|k: int| is_first_occurrence(text, s, k);
        assert(occurs_at(text, s, k));
    }
}

/// Where `s` occurs, it occurs a first time.
pub proof fn lemma_first_occurrence_exists(text: Seq<char>, s: Seq<char>, w: int)
    requires
        occurs_at(text, s, w),
    ensures
        exists|k: int| is_first_occurrence(text, s, k),
    decreases w,
{
    if exists|j: int| 0 <= j < w && occurs_at(text, s, j) {
        let j = choose|j: int| 0 <= j < w && occurs_at(text, s, j);
        lemma_first_occurrence_exists(text, s, j);
    } else {
        assert(is_first_occurrence(text, s, w));
    }
}

/// Where `s` first occurs in `text`.
pub fn find_chars(text: &Vec<char>, s: &Vec<char>) -> (r: Option<usize>)
    ensures
        r matches Some(i) ==> first_occurrence(text@, s@) == Some(i as int),
        r is None ==> first_occurrence(text@, s@) is None,
{
    if s.len() > text.len() {
        assert forall|i: int| !occurs_at(text@, s@, i) by {}
        return None;
    }
    let last = text.len() - s.len();
    let mut i: usize = 0;
    loop
        invariant
            last == text.len() - s.len(),
            s.len() <= text.len(),
            i <= last,
            forall|k: int| 0 <= k < i ==> !#[trigger] occurs_at(text@, s@, k),
        ensures
            forall|k: int| 0 <= k <= last ==> !#[trigger] occurs_at(text@, s@, k),
        decreases last - i,
    {
        if occurs_at_exec(text, s, i) {
            proof {
                lemma_first_occurrence(text@, s@, i as int);
            }
            return Some(i);
        }
        if i == last {
            break;
        }
        i = i + 1;
    }
    assert forall|k: int| !occurs_at(text@, s@, k) by {
        if 0 <= k <= last {
        }
    }
    None
}

/// The characters of `text` from `start` up to, not including, `end`.
pub fn sub_chars(text: &Vec<char>, start: usize, end: usize) -> (r: Vec<char>)
    requires
        start <= end <= text.len(),
    ensures
        r@ == text@.subrange(start as int, end as int),
{
    let mut r: Vec<char> = Vec::new();
    let mut i = start;
    while i < end
        invariant
            start <= i <= end <= text.len(),
            r@ == text@.subrange(start as int, i as int),
        decreases end - i,
    {
        r.push(text[i]);
        i = i + 1;
        assert(r@ =~= text@.subrange(start as int, i as int));
    }
    r
}

/// Whether `s` occurs in `text`, as `str::contains` with a string pattern answers.
pub fn str_contains(text: &str, s: &str) -> (r: bool)
    ensures
        r == contains(text@, s@),
{
    let t = chars_of(text);
    let p = chars_of(s);
    contains_chars(&t, &p)
}


/// Appends the characters of `s` to `dst`.
pub fn push_str(dst: &mut Vec<char>, s: &str)
    ensures
        final(dst)@ == old(dst)@ + s@,
{
    let mut c = chars_of(s);
    dst.append(&mut c);
}

/// Appends the characters of `s` to `dst`.
pub fn push_chars(dst: &mut Vec<char>, s: &Vec<char>)
    ensures
        final(dst)@ == old(dst)@ + s@,
{
    let mut i: usize = 0;
    let ghost d0 = dst@;
    while i < s.len()
        invariant
            i <= s.len(),
            dst@ == d0 + s@.take(i as int),
        decreases s.len() - i,
    {
        dst.push(s[i]);
        i = i + 1;
        assert(s@.take(i as int) =~= s@.take(i - 1) + seq![s@[i - 1]]);
    }
    assert(s@.take(i as int) =~= s@);
}

/// `text` with every `from` replaced by `to`.
pub open spec fn replace_char(text: Seq<char>, from: char, to: char) -> Seq<char> {
    text.map_values(|c: char| if c == from { to } else { c })
}

/// `text` with every `from` replaced by `to`, as `str::replace` does with one-character patterns.
pub fn replace_char_exec(text: &Vec<char>, from: char, to: char) -> (r: Vec<char>)
    ensures
        r@ == replace_char(text@, from, to),
{
    let mut r: Vec<char> = Vec::new();
    let mut i: usize = 0;
    while i < text.len()
        invariant
            i <= text.len(),
            r@ == replace_char(text@.take(i as int), from, to),
        decreases text.len() - i,
    {
        let c = text[i];
        if c == from {
            r.push(to);
        } else {
            r.push(c);
        }
        i = i + 1;
        assert(replace_char(text@.take(i as int), from, to) =~= replace_char(text@.take(i - 1), from, to).push(
            if c == from { to } else { c },
        ));
    }
    assert(text@.take(i as int) =~= text@);
    r
}

/// `text` with every `c` removed.
pub open spec fn remove_char(text: Seq<char>, c: char) -> Seq<char>
    decreases text.len(),
{
    if text.len() == 0 {
        text
    } else if text.last() == c {
        remove_char(text.drop_last(), c)
    } else {
        remove_char(text.drop_last(), c).push(text.last())
    }
}

/// `text` with every `c` removed, as `str::replace(c, "")` does.
pub fn remove_char_exec(text: &Vec<char>, c: char) -> (r: Vec<char>)
    ensures
        r@ == remove_char(text@, c),
{
    let mut r: Vec<char> = Vec::new();
    let mut i: usize = 0;
    while i < text.len()
        invariant
            i <= text.len(),
            r@ == remove_char(text@.take(i as int), c),
        decreases text.len() - i,
    {
        assert(text@.take(i + 1).drop_last() =~= text@.take(i as int));
        if text[i] != c {
            r.push(text[i]);
        }
        i = i + 1;
    }
    assert(text@.take(i as int) =~= text@);
    r
}

/// The numeric value of an ASCII decimal digit.
pub open spec fn digit_value(c: char) -> int {
    c as int - '0' as int
}

/// Every character of `s` is an ASCII decimal digit.
pub open spec fn all_ascii_digits(s: Seq<char>) -> bool {
    forall|i: int| 0 <= i < s.len() ==> '0' <= #[trigger] s[i] <= '9'
}

/// The value of a string of ASCII decimal digits, most significant first.
pub open spec fn digits_value(s: Seq<char>) -> int
    decreases s.len(),
{
    if s.len() == 0 {
        0
    } else {
        digits_value(s.drop_last()) * 10 + digit_value(s.last())
    }
}

/// What `str::parse::<i64>` gives: an optional `+` or `-`, then one or more ASCII digits,
/// and a value in range; anything else is an error (`None`).
pub open spec fn parse_i64(s: Seq<char>) -> Option<i64> {
    let negative = s.len() > 0 && s[0] == '-';
    let digits = if s.len() > 0 && (s[0] == '-' || s[0] == '+') { s.skip(1) } else { s };
    let value = if negative { -digits_value(digits) } else { digits_value(digits) };
    if digits.len() > 0 && all_ascii_digits(digits) && i64::MIN <= value <= i64::MAX {
        Some(value as i64)
    } else {
        None
    }
}

proof fn lemma_digits_value_nonneg(s: Seq<char>)
    requires
        all_ascii_digits(s),
    ensures
        digits_value(s) >= 0,
    decreases s.len(),
{
    if s.len() > 0 {
        assert(all_ascii_digits(s.drop_last()));
        lemma_digits_value_nonneg(s.drop_last());
        assert('0' <= s[s.len() - 1] <= '9');
    }
}

/// A value that has grown past `bound` stays past it as more digits follow.
proof fn lemma_digits_value_grows(s: Seq<char>, k: int)
    requires
        all_ascii_digits(s),
        0 <= k <= s.len(),
    ensures
        digits_value(s.take(k)) <= digits_value(s),
    decreases s.len() - k,
{
    if k < s.len() {
        lemma_digits_value_grows(s, k + 1);
        assert(s.take(k + 1).drop_last() =~= s.take(k));
        assert(all_ascii_digits(s.take(k)));
        lemma_digits_value_nonneg(s.take(k));
        assert('0' <= s[k] <= '9');
    } else {
        assert(s.take(k) =~= s);
    }
}

/// Parses `s` as `str::parse::<i64>` does.
pub fn parse_i64_exec(s: &Vec<char>) -> (r: Option<i64>)
    ensures
        r == parse_i64(s@),
{
    let n = s.len();
    let negative = n > 0 && s[0] == '-';
    let start: usize = if n > 0 && (s[0] == '-' || s[0] == '+') { 1 } else { 0 };
    let ghost digits = if s@.len() > 0 && (s@[0] == '-' || s@[0] == '+') { s@.skip(1) } else { s@ };
    assert(digits =~= s@.skip(start as int));
    if start >= n {
        return None;
    }
    // Magnitudes up to 2^63 can still be in range (for a negative value).
    let limit: u64 = 9223372036854775808;
    let mut acc: u64 = 0;
    let mut i: usize = start;
    while i < n
        invariant
            start <= i <= n,
            n == s@.len(),
            digits =~= s@.skip(start as int),
            digits == (if s@.len() > 0 && (s@[0] == '-' || s@[0] == '+') { s@.skip(1) } else { s@ }),
            limit == 9223372036854775808u64,
            all_ascii_digits(digits.take(i - start)),
            acc as int == digits_value(digits.take(i - start)),
            acc <= limit,
        decreases n - i,
    {
        let c = s[i];
        if c < '0' || c > '9' {
            assert(digits[i - start] == c);
            assert(!all_ascii_digits(digits));
            return None;
        }
        let d = (c as u64) - ('0' as u64);
        assert(d <= 9);
        assert(d as int == digit_value(c));
        assert(digits.take(i + 1 - start).drop_last() =~= digits.take(i - start));
        assert(all_ascii_digits(digits.take(i + 1 - start)));
        if acc > (limit - d) / 10 {
            // the value already exceeds every magnitude in range
            proof {
                assert(digits_value(digits.take(i + 1 - start)) > limit);
                if all_ascii_digits(digits) {
                    lemma_digits_value_grows(digits, i + 1 - start);
                }
            }
            return None;
        }
        acc = acc * 10 + d;
        i = i + 1;
    }
    assert(digits.take(n - start) =~= digits);
    if negative {
        if acc == limit {
            Some(-9223372036854775807i64 - 1)
        } else {
            Some(-(acc as i64))
        }
    } else {
        if acc == limit {
            None
        } else {
            Some(acc as i64)
        }
    }
}


/// The ASCII digit character for `d` (0 to 9).
pub open spec fn digit_char(d: int) -> char {
    (d + 48) as char
}

/// The decimal representation of `n`, as `u64`'s `Display` writes it.
pub open spec fn decimal(n: nat) -> Seq<char>
    decreases n,
{
    if n < 10 {
        seq![digit_char(n as int)]
    } else {
        decimal(n / 10).push(digit_char((n % 10) as int))
    }
}

/// The decimal representation of `n` with a leading `-` when negative, as `i64`'s `Display`
/// writes it.
pub open spec fn signed_decimal(n: int) -> Seq<char> {
    if n < 0 {
        seq!['-'] + decimal((-n) as nat)
    } else {
        decimal(n as nat)
    }
}

/// Appends the decimal representation of `n`.
pub fn push_decimal(dst: &mut Vec<char>, n: u64)
    ensures
        final(dst)@ == old(dst)@ + decimal(n as nat),
    decreases n,
{
    if n >= 10 {
        push_decimal(dst, n / 10);
    }
    let d = (n % 10) as u8;
    let c = (d + 48u8) as char;
    assert(c == digit_char((n % 10) as int));
    dst.push(c);
}

/// Appends the decimal representation of `n`, with `-` in front when it is negative.
pub fn push_signed_decimal(dst: &mut Vec<char>, n: i64)
    ensures
        final(dst)@ == old(dst)@ + signed_decimal(n as int),
{
    if n < 0 {
        dst.push('-');
        let magnitude: u64 = if n == i64::MIN { 9223372036854775808u64 } else { (-n) as u64 };
        let ghost d1 = dst@;
        push_decimal(dst, magnitude);
        assert(dst@ =~= old(dst)@ + signed_decimal(n as int));
    } else {
        push_decimal(dst, n as u64);
    }
}

/// `c` is white space in the sense of Unicode's `White_Space` property, the set that
/// `char::is_whitespace` and `str::trim` go by.
pub open spec fn is_white_space(c: char) -> bool {
    ||| ('\u{9}' <= c && c <= '\u{d}')
    ||| c == ' '
    ||| c == '\u{85}'
    ||| c == '\u{a0}'
    ||| c == '\u{1680}'
    ||| ('\u{2000}' <= c && c <= '\u{200a}')
    ||| c == '\u{2028}'
    ||| c == '\u{2029}'
    ||| c == '\u{202f}'
    ||| c == '\u{205f}'
    ||| c == '\u{3000}'
}

pub fn is_white_space_exec(c: char) -> (r: bool)
    ensures
        r == is_white_space(c),
{
    ('\u{9}' <= c && c <= '\u{d}') || c == ' ' || c == '\u{85}' || c == '\u{a0}' || c == '\u{1680}'
        || ('\u{2000}' <= c && c <= '\u{200a}') || c == '\u{2028}' || c == '\u{2029}'
        || c == '\u{202f}' || c == '\u{205f}' || c == '\u{3000}'
}

/// `text` without its leading and trailing white space: `text[start..end]` where `start` is
/// the first and `end - 1` the last position that holds something else.
pub open spec fn is_trim_of(text: Seq<char>, start: int, end: int) -> bool {
    &&& 0 <= start <= end <= text.len()
    &&& forall|k: int| 0 <= k < start ==> is_white_space(#[trigger] text[k])
    &&& forall|k: int| end <= k < text.len() ==> is_white_space(#[trigger] text[k])
    &&& start < end ==> !is_white_space(text[start]) && !is_white_space(text[end - 1])
}

/// `text` with leading and trailing white space removed, as `str::trim` gives it.
pub open spec fn trim(text: Seq<char>) -> Seq<char> {
    let (start, end) = choose|start: int, end: int| is_trim_of(text, start, end);
    text.subrange(start, end)
}

/// There is exactly one way to cut the white space off both ends.
pub proof fn lemma_trim_unique(text: Seq<char>, s1: int, e1: int, s2: int, e2: int)
    requires
        is_trim_of(text, s1, e1),
        is_trim_of(text, s2, e2),
    ensures
        text.subrange(s1, e1) == text.subrange(s2, e2),
{
    if s1 < e1 {
        if s2 < s1 {
            assert(is_white_space(text[s2]));
        }
        if s1 < s2 {
            assert(is_white_space(text[s1]));
        }
        if e2 > e1 {
            assert(is_white_space(text[e2 - 1]));
        }
        if e2 < e1 {
            assert(is_white_space(text[e1 - 1]));
        }
    } else if s2 < e2 {
        if s1 < s2 {
            assert(is_white_space(text[s1]));
        }
        if s2 < s1 {
            assert(is_white_space(text[s2]));
        }
        if e1 > e2 {
            assert(is_white_space(text[e1 - 1]));
        }
        if e1 < e2 {
            assert(is_white_space(text[e2 - 1]));
        }
    }
    assert(text.subrange(s1, e1) =~= text.subrange(s2, e2));
}

/// The index of the first character from `i` on that is not white space, or the length.
pub open spec fn first_non_white(text: Seq<char>, i: int) -> int
    decreases text.len() - i,
{
    if i < 0 || i >= text.len() {
        text.len() as int
    } else if !is_white_space(text[i]) {
        i
    } else {
        first_non_white(text, i + 1)
    }
}

/// One past the last character before `end` that is not white space, or 0.
pub open spec fn end_of_non_white(text: Seq<char>, end: int) -> int
    decreases end,
{
    if end <= 0 || end > text.len() {
        0
    } else if !is_white_space(text[end - 1]) {
        end
    } else {
        end_of_non_white(text, end - 1)
    }
}

proof fn lemma_first_non_white(text: Seq<char>, i: int)
    requires
        0 <= i <= text.len(),
    ensures
        i <= first_non_white(text, i) <= text.len(),
        forall|k: int| i <= k < first_non_white(text, i) ==> is_white_space(#[trigger] text[k]),
        first_non_white(text, i) < text.len() ==> !is_white_space(text[first_non_white(text, i)]),
    decreases text.len() - i,
{
    if i < text.len() && is_white_space(text[i]) {
        lemma_first_non_white(text, i + 1);
    }
}

proof fn lemma_end_of_non_white(text: Seq<char>, end: int)
    requires
        0 <= end <= text.len(),
    ensures
        0 <= end_of_non_white(text, end) <= end,
        forall|k: int| end_of_non_white(text, end) <= k < end ==> is_white_space(#[trigger] text[k]),
        end_of_non_white(text, end) > 0 ==> !is_white_space(text[end_of_non_white(text, end) - 1]),
    decreases end,
{
    if end > 0 && is_white_space(text[end - 1]) {
        lemma_end_of_non_white(text, end - 1);
    }
}

/// Every text has a trim.
pub proof fn lemma_trim_exists(text: Seq<char>)
    ensures
        exists|s: int, e: int| is_trim_of(text, s, e),
{
    lemma_first_non_white(text, 0);
    lemma_end_of_non_white(text, text.len() as int);
    let s = first_non_white(text, 0);
    let e = end_of_non_white(text, text.len() as int);
    if s < text.len() {
        // the first non-white character lies before the end of the last one
        if e <= s {
            assert(is_white_space(text[s]));
        }
        assert(is_trim_of(text, s, e));
    } else {
        assert(is_trim_of(text, 0, 0));
    }
}

/// Trimming twice is trimming once.
pub proof fn lemma_trim_idempotent(text: Seq<char>)
    ensures
        trim(trim(text)) == trim(text),
{
    lemma_trim_exists(text);
    let (s, e) = choose|s: int, e: int| is_trim_of(text, s, e);
    let u = trim(text);
    assert(u == text.subrange(s, e));
    assert(is_trim_of(u, 0, u.len() as int));
    lemma_trim_exists(u);
    let (s2, e2) = choose|s2: int, e2: int| is_trim_of(u, s2, e2);
    lemma_trim_unique(u, s2, e2, 0, u.len() as int);
    assert(u.subrange(0, u.len() as int) =~= u);
}

/// `text` with leading and trailing white space removed.
pub fn trim_exec(text: &Vec<char>) -> (r: Vec<char>)
    ensures
        r@ == trim(text@),
{
    let n = text.len();
    let mut start: usize = 0;
    while start < n && is_white_space_exec(text[start])
        invariant
            start <= n == text.len(),
            forall|k: int| 0 <= k < start ==> is_white_space(#[trigger] text@[k]),
        decreases n - start,
    {
        start = start + 1;
    }
    let mut end: usize = n;
    while end > start && is_white_space_exec(text[end - 1])
        invariant
            start <= end <= n == text.len(),
            forall|k: int| end <= k < n ==> is_white_space(#[trigger] text@[k]),
        decreases end,
    {
        end = end - 1;
    }
    let mut r: Vec<char> = Vec::new();
    let mut i = start;
    while i < end
        invariant
            start <= i <= end <= n == text.len(),
            r@ == text@.subrange(start as int, i as int),
        decreases end - i,
    {
        r.push(text[i]);
        i = i + 1;
        assert(r@ =~= text@.subrange(start as int, i as int));
    }
    proof {
        if start == end && start < n {
            // everything from `start` on is white space, and so is everything before it
            assert forall|k: int| 0 <= k < n implies is_white_space(#[trigger] text@[k]) by {
                if k >= start {
                }
            }
        }
        let s0 = if start == end { 0int } else { start as int };
        let e0 = if start == end { 0int } else { end as int };
        assert(is_trim_of(text@, s0, e0));
        let (s1, e1) = choose|s1: int, e1: int| is_trim_of(text@, s1, e1);
        lemma_trim_unique(text@, s0, e0, s1, e1);
        assert(text@.subrange(s0, e0) =~= r@);
    }
    r
}

/// Whether two character sequences are equal.
pub fn chars_eq(a: &Vec<char>, b: &Vec<char>) -> (r: bool)
    ensures
        r == (a@ == b@),
{
    if a.len() != b.len() {
        return false;
    }
    let mut i: usize = 0;
    while i < a.len()
        invariant
            i <= a.len() == b.len(),
            forall|k: int| 0 <= k < i ==> a@[k] == b@[k],
        decreases a.len() - i,
    {
        if a[i] != b[i] {
            return false;
        }
        i = i + 1;
    }
    assert(a@ =~= b@);
    true
}

/// Whether `text` begins with `prefix`.
pub fn starts_with_chars(text: &Vec<char>, prefix: &Vec<char>) -> (r: bool)
    ensures
        r == (prefix@.len() <= text@.len() && text@.take(prefix@.len() as int) == prefix@),
{
    if prefix.len() > text.len() {
        return false;
    }
    let r = occurs_at_exec(text, prefix, 0);
    assert(text@.subrange(0, prefix@.len() as int) =~= text@.take(prefix@.len() as int));
    r
}


/// What `str::to_lowercase` returns for `s`: its Unicode lowercase mapping, which may change
/// the length.
pub uninterp spec fn lowercase(s: Seq<char>) -> Seq<char>;

/// The text holds only ASCII characters.
pub open spec fn is_ascii_text(s: Seq<char>) -> bool {
    forall|i: int| 0 <= i < s.len() ==> (#[trigger] s[i] as u32) < 128
}

/// ASCII lower case: `A` to `Z` become `a` to `z`, every other character stays.
pub open spec fn ascii_lowercase(s: Seq<char>) -> Seq<char> {
    s.map_values(|c: char| if 'A' <= c && c <= 'Z' { ((c as u32) + 32) as char } else { c })
}

/// Calls std's `str::to_lowercase`. Claimed: the result is `lowercase(s@)`, a function of the
/// text alone, and for an ASCII text it is the text with `A` to `Z` made `a` to `z` (the
/// Unicode lowercase mapping of the ASCII characters); nothing more is said of the mapping.
#[verifier::external_body]
pub(crate) fn to_lowercase(s: &str) -> (r: String)
    ensures
        r@ == lowercase(s@),
        is_ascii_text(s@) ==> r@ == ascii_lowercase(s@),
{
    s.to_lowercase()
}

/// Whether `a` and `b` hold the same text.
pub fn str_eq(a: &str, b: &str) -> (r: bool)
    ensures
        r == (a@ == b@),
{
    let x = chars_of(a);
    let y = chars_of(b);
    chars_eq(&x, &y)
}

/// A `String` holding the text of `s`.
pub fn owned(s: &str) -> (r: String)
    ensures
        r@ == s@,
{
    let v = chars_of(s);
    string_of(&v)
}

} // verus!
