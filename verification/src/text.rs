//! Character and string utilities shared by the rest of the crate.
//!
//! Strings are modelled by their sequence of characters; every function here
//! states its result over that sequence.

use vstd::prelude::*;

verus! {

/// The code points that carry the Unicode `White_Space` property.
pub open spec fn is_whitespace_spec(c: char) -> bool {
    let n = c as u32;
    ||| 0x09 <= n <= 0x0D
    ||| n == 0x20
    ||| n == 0x85
    ||| n == 0xA0
    ||| n == 0x1680
    ||| 0x2000 <= n <= 0x200A
    ||| n == 0x2028
    ||| n == 0x2029
    ||| n == 0x202F
    ||| n == 0x205F
    ||| n == 0x3000
}

/// Whether `c` is Unicode white space.
pub fn is_whitespace(c: char) -> (b: bool)
    ensures
        b == is_whitespace_spec(c),
{
    let n: u32 = c as u32;
    (0x09 <= n && n <= 0x0D) || n == 0x20 || n == 0x85 || n == 0xA0 || n == 0x1680 || (0x2000 <= n
        && n <= 0x200A) || n == 0x2028 || n == 0x2029 || n == 0x202F || n == 0x205F || n == 0x3000
}

/// `String::push` appends exactly one character to the string.
pub assume_specification[ String::push ](s: &mut String, c: char)
    ensures
        final(s)@ == old(s)@.push(c),
;

/// Whether two string slices hold the same characters.
pub fn same_text(a: &str, b: &str) -> (same: bool)
    ensures
        same == (a@ == b@),
{
    let left = chars_of(a);
    let right = chars_of(b);
    if left.len() != right.len() {
        return false;
    }
    let mut i: usize = 0;
    while i < left.len()
        invariant
            i <= left.len() == right.len(),
            left@ == a@,
            right@ == b@,
            forall|k: int| 0 <= k < i ==> left@[k] == right@[k],
        decreases left.len() - i,
    {
        if left[i] != right[i] {
            return false;
        }
        i += 1;
    }
    assert(a@ =~= b@);
    true
}

/// The characters of `s`, in order.
pub fn chars_of(s: &str) -> (v: Vec<char>)
    ensures
        v@ == s@,
{
    let mut v: Vec<char> = Vec::new();
    for c in it: s.chars()
        invariant
            v@ == it.seq().take(it.index() as int),
    {
        v.push(c);
    }
    v
}

/// The string made of `chars[lo..hi]`.
pub fn string_of(chars: &Vec<char>, lo: usize, hi: usize) -> (s: String)
    requires
        lo <= hi <= chars.len(),
    ensures
        s@ == chars@.subrange(lo as int, hi as int),
{
    let mut s = String::new();
    let mut i: usize = lo;
    while i < hi
        invariant
            lo <= i <= hi <= chars.len(),
            s@ == chars@.subrange(lo as int, i as int),
        decreases hi - i,
    {
        s.push(chars[i]);
        i += 1;
        assert(chars@.subrange(lo as int, i as int) == chars@.subrange(lo as int, i - 1).push(
            chars@[i - 1],
        ));
    }
    s
}

/// How many characters at the front of `s` are white space.
pub open spec fn leading_whitespace(s: Seq<char>) -> nat
    decreases s.len(),
{
    if s.len() > 0 && is_whitespace_spec(s[0]) {
        1 + leading_whitespace(s.drop_first())
    } else {
        0
    }
}

/// How many characters at the back of `s` are white space.
pub open spec fn trailing_whitespace(s: Seq<char>) -> nat
    decreases s.len(),
{
    if s.len() > 0 && is_whitespace_spec(s.last()) {
        1 + trailing_whitespace(s.drop_last())
    } else {
        0
    }
}

/// `s` without its leading and trailing white space.
pub open spec fn trimmed(s: Seq<char>) -> Seq<char> {
    let lo = leading_whitespace(s);
    if lo == s.len() {
        Seq::empty()
    } else {
        s.subrange(lo as int, s.len() - trailing_whitespace(s))
    }
}

/// The first `k` characters are white space and the next one, if any, is not:
/// then `k` is the leading white space of `s`.
pub proof fn lemma_leading_whitespace_is(s: Seq<char>, k: nat)
    requires
        k <= s.len(),
        forall|j: int| 0 <= j < k ==> is_whitespace_spec(#[trigger] s[j]),
        k == s.len() || !is_whitespace_spec(s[k as int]),
    ensures
        leading_whitespace(s) == k,
    decreases k,
{
    if k > 0 {
        let t = s.drop_first();
        assert forall|j: int| 0 <= j < k - 1 implies is_whitespace_spec(#[trigger] t[j]) by {
            assert(t[j] == s[j + 1]);
        }
        lemma_leading_whitespace_is(t, (k - 1) as nat);
    }
}

/// The last `k` characters are white space and the one before them, if any,
/// is not: then `k` is the trailing white space of `s`.
pub proof fn lemma_trailing_whitespace_is(s: Seq<char>, k: nat)
    requires
        k <= s.len(),
        forall|j: int| s.len() - k <= j < s.len() ==> is_whitespace_spec(#[trigger] s[j]),
        k == s.len() || !is_whitespace_spec(s[s.len() - k - 1]),
    ensures
        trailing_whitespace(s) == k,
    decreases k,
{
    if k > 0 {
        let t = s.drop_last();
        assert forall|j: int| t.len() - (k - 1) <= j < t.len() implies is_whitespace_spec(
            #[trigger] t[j],
        ) by {
            assert(t[j] == s[j]);
        }
        lemma_trailing_whitespace_is(t, (k - 1) as nat);
    }
}

/// What the leading count means position by position.
pub proof fn lemma_leading_whitespace_bounds(s: Seq<char>)
    ensures
        leading_whitespace(s) <= s.len(),
        forall|j: int| 0 <= j < leading_whitespace(s) ==> is_whitespace_spec(#[trigger] s[j]),
        leading_whitespace(s) < s.len() ==> !is_whitespace_spec(s[leading_whitespace(s) as int]),
    decreases s.len(),
{
    if s.len() > 0 && is_whitespace_spec(s[0]) {
        let t = s.drop_first();
        lemma_leading_whitespace_bounds(t);
        assert forall|j: int| 0 <= j < leading_whitespace(s) implies is_whitespace_spec(
            #[trigger] s[j],
        ) by {
            if j > 0 {
                assert(s[j] == t[j - 1]);
            }
        }
        if leading_whitespace(s) < s.len() {
            assert(s[leading_whitespace(s) as int] == t[leading_whitespace(t) as int]);
        }
    }
}

/// What the trailing count means position by position.
pub proof fn lemma_trailing_whitespace_bounds(s: Seq<char>)
    ensures
        trailing_whitespace(s) <= s.len(),
        forall|j: int|
            s.len() - trailing_whitespace(s) <= j < s.len() ==> is_whitespace_spec(#[trigger] s[j]),
        trailing_whitespace(s) < s.len() ==> !is_whitespace_spec(
            s[s.len() - trailing_whitespace(s) - 1],
        ),
    decreases s.len(),
{
    if s.len() > 0 && is_whitespace_spec(s.last()) {
        let t = s.drop_last();
        lemma_trailing_whitespace_bounds(t);
        assert forall|j: int|
            s.len() - trailing_whitespace(s) <= j < s.len() implies is_whitespace_spec(
            #[trigger] s[j],
        ) by {
            if j < s.len() - 1 {
                assert(s[j] == t[j]);
            }
        }
        if trailing_whitespace(s) < s.len() {
            assert(s[s.len() - trailing_whitespace(s) - 1] == t[t.len() - trailing_whitespace(t)
                - 1]);
        }
    }
}

/// A trimmed string is a slice of the string that neither starts nor ends
/// with white space; a string that neither starts nor ends with white space
/// is its own trimming.
pub proof fn lemma_trimmed_shape(s: Seq<char>)
    ensures
        trimmed(s).len() <= s.len(),
        trimmed(s).len() > 0 ==> !is_whitespace_spec(trimmed(s)[0]) && !is_whitespace_spec(
            trimmed(s).last(),
        ),
        leading_whitespace(s) == 0 && trailing_whitespace(s) == 0 ==> trimmed(s) == s,
        leading_whitespace(s) < s.len() ==> leading_whitespace(s) + trailing_whitespace(s)
            < s.len(),
{
    lemma_leading_whitespace_bounds(s);
    lemma_trailing_whitespace_bounds(s);
    let lo = leading_whitespace(s);
    let tr = trailing_whitespace(s);
    if lo < s.len() {
        if lo + tr >= s.len() {
            assert(is_whitespace_spec(s[lo as int]));
        }
    }
    if lo == 0 && tr == 0 {
        assert(s.subrange(0, s.len() as int) == s);
    }
}

/// Trimming twice is trimming once.
pub proof fn lemma_trimmed_idempotent(s: Seq<char>)
    ensures
        trimmed(trimmed(s)) == trimmed(s),
{
    lemma_trimmed_shape(s);
    lemma_trimmed_shape(trimmed(s));
}

/// `s` without its leading and trailing white space, as a new string.
pub fn trim(s: &str) -> (t: String)
    ensures
        t@ == trimmed(s@),
{
    let chars = chars_of(s);
    let n: usize = chars.len();
    let mut lo: usize = 0;
    while lo < n && is_whitespace(chars[lo])
        invariant
            lo <= n == chars.len(),
            forall|j: int| 0 <= j < lo ==> is_whitespace_spec(#[trigger] chars@[j]),
        decreases n - lo,
    {
        lo += 1;
    }
    proof {
        lemma_leading_whitespace_is(chars@, lo as nat);
    }
    if lo == n {
        return String::new();
    }
    let mut hi: usize = n;
    while hi > lo && is_whitespace(chars[hi - 1])
        invariant
            lo <= hi <= n == chars.len(),
            forall|j: int| hi <= j < n ==> is_whitespace_spec(#[trigger] chars@[j]),
        decreases hi,
    {
        hi -= 1;
    }
    proof {
        lemma_trailing_whitespace_is(chars@, (n - hi) as nat);
    }
    string_of(&chars, lo, hi)
}

/// An ASCII capital letter becomes its small letter; any other character stays.
pub open spec fn lower_char(c: char) -> char {
    if 'A' <= c <= 'Z' {
        ((c as u8) + 32) as char
    } else {
        c
    }
}

/// `s` with every ASCII capital letter made small.
pub open spec fn ascii_lowercase(s: Seq<char>) -> Seq<char> {
    Seq::new(s.len(), |i: int| lower_char(s[i]))
}

/// `c` with an ASCII capital letter made small.
pub fn to_lower_char(c: char) -> (r: char)
    ensures
        r == lower_char(c),
{
    if 'A' <= c && c <= 'Z' {
        ((c as u8) + 32) as char
    } else {
        c
    }
}

/// `s` with every ASCII capital letter made small, as a new string.
pub fn to_ascii_lowercase(s: &str) -> (t: String)
    ensures
        t@ == ascii_lowercase(s@),
{
    let chars = chars_of(s);
    let mut t = String::new();
    let mut i: usize = 0;
    while i < chars.len()
        invariant
            i <= chars.len(),
            chars@ == s@,
            t@ == ascii_lowercase(s@).take(i as int),
        decreases chars.len() - i,
    {
        t.push(to_lower_char(chars[i]));
        i += 1;
        assert(ascii_lowercase(s@).take(i as int) == ascii_lowercase(s@).take(i - 1).push(
            lower_char(s@[i - 1]),
        ));
    }
    assert(ascii_lowercase(s@).take(i as int) == ascii_lowercase(s@));
    t
}

/// A line break becomes a blank; any other character stays.
pub open spec fn flat_char(c: char) -> char {
    if c == '\n' || c == '\r' {
        ' '
    } else {
        c
    }
}

/// `s` on one line: with a blank in place of every line break.
pub open spec fn one_line(s: Seq<char>) -> Seq<char> {
    Seq::new(s.len(), |i: int| flat_char(s[i]))
}

/// `s` on one line, as a new string.
pub fn to_one_line(s: &str) -> (t: String)
    ensures
        t@ == one_line(s@),
{
    let chars = chars_of(s);
    let mut t = String::new();
    let mut i: usize = 0;
    while i < chars.len()
        invariant
            i <= chars.len(),
            chars@ == s@,
            t@ == one_line(s@).take(i as int),
        decreases chars.len() - i,
    {
        let c = chars[i];
        if c == '\n' || c == '\r' {
            t.push(' ');
        } else {
            t.push(c);
        }
        i += 1;
        assert(one_line(s@).take(i as int) == one_line(s@).take(i - 1).push(flat_char(s@[i - 1])));
    }
    assert(one_line(s@).take(i as int) == one_line(s@));
    t
}

/// Making letters small changes no character's being white space, so it
/// commutes with trimming; and doing it twice is doing it once.
pub proof fn lemma_lowercase_trim_commute(s: Seq<char>)
    ensures
        trimmed(ascii_lowercase(s)) == ascii_lowercase(trimmed(s)),
        ascii_lowercase(ascii_lowercase(s)) == ascii_lowercase(s),
{
    let l = ascii_lowercase(s);
    assert forall|c: char| is_whitespace_spec(lower_char(c)) == is_whitespace_spec(c) by {}
    assert forall|c: char| lower_char(lower_char(c)) == lower_char(c) by {}
    assert(ascii_lowercase(l) =~= l);
    lemma_leading_whitespace_bounds(s);
    lemma_trailing_whitespace_bounds(s);
    let lo = leading_whitespace(s);
    let tr = trailing_whitespace(s);
    assert forall|j: int| 0 <= j < lo implies is_whitespace_spec(#[trigger] l[j]) by {
        assert(is_whitespace_spec(s[j]));
    }
    lemma_leading_whitespace_is(l, lo);
    assert forall|j: int| l.len() - tr <= j < l.len() implies is_whitespace_spec(
        #[trigger] l[j],
    ) by {
        assert(is_whitespace_spec(s[j]));
    }
    lemma_trailing_whitespace_is(l, tr);
    assert(trimmed(l) =~= ascii_lowercase(trimmed(s)));
}

/// The character for one decimal digit.
pub open spec fn digit_char(d: int) -> char
    recommends
        0 <= d < 10,
{
    (('0' as u8) + d) as char
}

/// The decimal digits of `n`, most significant first.
pub open spec fn decimal_digits(n: nat) -> Seq<char>
    decreases n,
{
    if n < 10 {
        seq![digit_char(n as int)]
    } else {
        decimal_digits(n / 10).push(digit_char((n % 10) as int))
    }
}

/// The decimal text of `i`, with a minus sign in front when it is negative.
pub open spec fn decimal(i: int) -> Seq<char> {
    if i < 0 {
        seq!['-'] + decimal_digits((-i) as nat)
    } else {
        decimal_digits(i as nat)
    }
}

/// Appends the decimal digits of `n` to `out`.
pub fn push_decimal_digits(out: &mut String, n: u64)
    ensures
        final(out)@ == old(out)@ + decimal_digits(n as nat),
    decreases n,
{
    if n >= 10 {
        push_decimal_digits(out, n / 10);
    }
    let d: u8 = (n % 10) as u8;
    out.push((48u8 + d) as char);
    proof {
        let digits = decimal_digits(n as nat);
        if n >= 10 {
            assert(old(out)@ + digits == (old(out)@ + decimal_digits((n / 10) as nat)).push(
                digit_char((n % 10) as int),
            ));
        } else {
            assert(old(out)@ + digits == old(out)@.push(digit_char(n as int)));
        }
    }
}

/// The decimal text of an unsigned number.
pub fn u64_to_string(n: u64) -> (s: String)
    ensures
        s@ == decimal(n as int),
{
    let mut s = String::new();
    push_decimal_digits(&mut s, n);
    assert(Seq::<char>::empty() + decimal_digits(n as nat) == decimal_digits(n as nat));
    s
}

/// The decimal text of a small unsigned number.
pub fn u8_to_string(n: u8) -> (s: String)
    ensures
        s@ == decimal(n as int),
{
    u64_to_string(n as u64)
}

/// The decimal text of a count.
pub fn usize_to_string(n: usize) -> (s: String)
    ensures
        s@ == decimal(n as int),
{
    u64_to_string(n as u64)
}

/// The decimal text of a signed number.
pub fn i32_to_string(i: i32) -> (s: String)
    ensures
        s@ == decimal(i as int),
{
    i64_to_string(i as i64)
}

/// The decimal text of a wide signed number.
pub fn i64_to_string(i: i64) -> (s: String)
    ensures
        s@ == decimal(i as int),
{
    let mut s = String::new();
    if i < 0 {
        s.push('-');
        let magnitude: u64 = (-(i as i128)) as u64;
        push_decimal_digits(&mut s, magnitude);
        assert(Seq::<char>::empty().push('-') == seq!['-']);
    } else {
        push_decimal_digits(&mut s, i as u64);
        assert(Seq::<char>::empty() + decimal_digits(i as nat) == decimal_digits(i as nat));
    }
    s
}

/// The characters of an optional string.
pub open spec fn optional_text(s: Option<String>) -> Option<Seq<char>> {
    match s {
        Some(s) => Some(s@),
        None => None,
    }
}

/// A copy of an optional string.
pub fn clone_optional(s: &Option<String>) -> (copy: Option<String>)
    ensures
        optional_text(copy) == optional_text(*s),
{
    match s {
        Some(text) => Some(text.clone()),
        None => None,
    }
}

/// An optional string, borrowed as an optional string slice.
pub fn as_deref(s: &Option<String>) -> (text: Option<&str>)
    ensures
        match text {
            Some(t) => optional_text(*s) == Some(t@),
            None => *s is None,
        },
{
    match s {
        Some(text) => Some(text.as_str()),
        None => None,
    }
}

/// The character sequences of a list of strings.
pub open spec fn texts(v: Seq<String>) -> Seq<Seq<char>> {
    Seq::new(v.len(), |i: int| v[i]@)
}

/// A copy of `lines`.
pub fn clone_lines(lines: &[String]) -> (copy: Vec<String>)
    ensures
        texts(copy@) == texts(lines@),
{
    let mut copy: Vec<String> = Vec::new();
    let mut i: usize = 0;
    while i < lines.len()
        invariant
            i <= lines.len(),
            copy@.len() == i,
            forall|j: int| 0 <= j < i ==> (#[trigger] copy@[j])@ == lines@[j]@,
        decreases lines.len() - i,
    {
        copy.push(lines[i].clone());
        i += 1;
    }
    assert(texts(copy@) =~= texts(lines@));
    copy
}

/// The items of `lines` with `sep` between each two neighbours.
pub open spec fn joined(lines: Seq<Seq<char>>, sep: Seq<char>) -> Seq<char>
    decreases lines.len(),
{
    if lines.len() == 0 {
        Seq::empty()
    } else if lines.len() == 1 {
        lines[0]
    } else {
        joined(lines.drop_last(), sep) + sep + lines.last()
    }
}

/// The items of `lines` from position `start` on, with `sep` between each
/// two neighbours, as a string.
pub fn join_from(lines: &[String], start: usize, sep: &str) -> (s: String)
    requires
        start <= lines@.len(),
    ensures
        s@ == joined(texts(lines@).subrange(start as int, lines@.len() as int), sep@),
{
    let mut s = String::new();
    let mut i: usize = start;
    let ghost all = texts(lines@).subrange(start as int, lines@.len() as int);
    while i < lines.len()
        invariant
            start <= i <= lines.len(),
            all == texts(lines@).subrange(start as int, lines@.len() as int),
            s@ == joined(all.take(i - start), sep@),
        decreases lines.len() - i,
    {
        if i > start {
            s.append(sep);
        }
        s.append(lines[i].as_str());
        i += 1;
        proof {
            let now = all.take(i - start);
            assert(now.drop_last() == all.take(i - 1 - start));
            assert(now.last() == lines@[i - 1]@);
            if i == start + 1 {
                assert(Seq::<char>::empty() + lines@[i - 1]@ == lines@[i - 1]@);
            }
        }
    }
    assert(all.take(i - start) == all);
    s
}

/// The items of `lines` with `sep` between each two neighbours, as a string.
pub fn join(lines: &[String], sep: &str) -> (s: String)
    ensures
        s@ == joined(texts(lines@), sep@),
{
    assert(texts(lines@).subrange(0, lines@.len() as int) == texts(lines@));
    join_from(lines, 0, sep)
}

} // verus!
