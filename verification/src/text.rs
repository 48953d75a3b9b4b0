//! Text: numbers in decimal, trimming, paths, and the video id inside a URL.

use vstd::prelude::*;
use vstd::string::*;

verus! {

/// `String::push` appends one character to the end of the string.
pub assume_specification[ String::push ](s: &mut String, c: char)
    ensures
        final(s)@ == old(s)@.push(c),
;

/// `String::pop` takes the last character off and returns it; an empty string stays empty and
/// gives `None`.
pub assume_specification[ String::pop ](s: &mut String) -> (last: Option<char>)
    ensures
        old(s)@.len() == 0 ==> last is None && final(s)@ == old(s)@,
        old(s)@.len() > 0 ==> last == Some(old(s)@.last()) && final(s)@ == old(s)@.drop_last(),
;

/// The character of a decimal digit.
pub open spec fn digit(d: int) -> char {
    (48 + d) as char
}

/// A number in decimal, without leading zeros.
pub open spec fn decimal(n: nat) -> Seq<char>
    decreases n,
{
    if n < 10 {
        seq![digit(n as int)]
    } else {
        decimal(n / 10).push(digit((n % 10) as int))
    }
}

/// An integer in decimal, with a minus sign in front of a negative one.
pub open spec fn signed_decimal(i: int) -> Seq<char> {
    if i < 0 {
        seq!['-'] + decimal((-i) as nat)
    } else {
        decimal(i as nat)
    }
}

/// An integer in decimal, filled up with a zero to two characters; a sign counts as one.
pub open spec fn two_wide(i: int) -> Seq<char> {
    if 0 <= i < 10 {
        seq!['0'] + decimal(i as nat)
    } else {
        signed_decimal(i)
    }
}

/// Division that rounds toward zero.
pub open spec fn quotient(a: int, b: int) -> int {
    if a < 0 {
        -((-a) / b)
    } else {
        a / b
    }
}

/// What `quotient` leaves over: it has the sign of `a`.
pub open spec fn remainder(a: int, b: int) -> int {
    a - b * quotient(a, b)
}

/// A number of seconds as minutes and seconds.
pub open spec fn clock_text(seconds: int) -> Seq<char> {
    signed_decimal(quotient(seconds, 60)) + seq![':'] + two_wide(remainder(seconds, 60))
}

fn push_decimal(out: &mut String, n: u64)
    ensures
        final(out)@ == old(out)@ + decimal(n as nat),
    decreases n,
{
    if n >= 10 {
        push_decimal(out, n / 10);
    }
    let d: u8 = (n % 10) as u8;
    out.push((48 + d) as char);
}

/// Seconds as `minutes:seconds`, the seconds two characters wide: `3:05`.
pub fn format_secs(seconds: i64) -> (text: String)
    ensures
        text@ == clock_text(seconds as int),
{
    let negative = seconds < 0;
    let size: u64 = if negative {
        (0 - seconds as i128) as u64
    } else {
        seconds as u64
    };
    let minutes: u64 = size / 60;
    let rest: u64 = size % 60;
    let mut text = String::new();
    if negative && minutes > 0 {
        text.push('-');
    }
    push_decimal(&mut text, minutes);
    assert(text@ =~= signed_decimal(quotient(seconds as int, 60)));
    text.push(':');
    let ghost head = text@;
    if negative && rest > 0 {
        text.push('-');
    } else if rest < 10 {
        text.push('0');
    }
    push_decimal(&mut text, rest);
    assert(remainder(seconds as int, 60) == if negative { -(rest as int) } else { rest as int });
    assert(text@ =~= head + two_wide(remainder(seconds as int, 60)));
    text
}

/// Two pieces of text, one after the other.
pub fn join2(a: &str, b: &str) -> (text: String)
    ensures
        text@ == a@ + b@,
{
    a.to_string().concat(b)
}

/// Three pieces of text, one after the other.
pub fn join3(a: &str, b: &str, c: &str) -> (text: String)
    ensures
        text@ == a@ + b@ + c@,
{
    a.to_string().concat(b).concat(c)
}

/// The characters of a string.
pub fn char_vec(s: &str) -> (chars: Vec<char>)
    ensures
        chars@ == s@,
{
    let mut chars: Vec<char> = Vec::new();
    for c in it: s.chars()
        invariant
            chars@ == it.seq().take(it.index()),
            it.seq() == s@,
    {
        chars.push(c);
    }
    chars
}

/// The first position of `c` in `s` at or after `i`; the length of `s` where there is none.
pub open spec fn find_from(s: Seq<char>, c: char, i: int) -> int
    decreases s.len() - i,
{
    if i >= s.len() {
        s.len() as int
    } else if s[i] == c {
        i
    } else {
        find_from(s, c, i + 1)
    }
}

/// The last position of `c` in `s` before `n`, if there is one.
pub open spec fn rfind_before(s: Seq<char>, c: char, n: int) -> Option<int>
    decreases n,
{
    if n <= 0 {
        None
    } else if s[n - 1] == c {
        Some(n - 1)
    } else {
        rfind_before(s, c, n - 1)
    }
}

/// At the position `i` of `s` stands `v=`.
pub open spec fn marker_at(s: Seq<char>, i: int) -> bool {
    0 <= i && i + 1 < s.len() && s[i] == 'v' && s[i + 1] == '='
}

/// The first position of `v=` in `s` at or after `i`, if there is one.
pub open spec fn marker_from(s: Seq<char>, i: int) -> Option<int>
    decreases s.len() - i,
{
    if i + 1 >= s.len() {
        None
    } else if s[i] == 'v' && s[i + 1] == '=' {
        Some(i)
    } else {
        marker_from(s, i + 1)
    }
}

/// What stands behind the first `v=` of a URL, up to the next `&`; nothing where there is no `v=`.
pub open spec fn video_id(url: Seq<char>) -> Seq<char> {
    match marker_from(url, 0) {
        Some(i) => url.subrange(i + 2, find_from(url, '&', i + 2)),
        None => Seq::empty(),
    }
}

/// What `find_from` gives.
pub proof fn lemma_find_from(s: Seq<char>, c: char, i: int)
    requires
        0 <= i <= s.len(),
    ensures
        i <= find_from(s, c, i) <= s.len(),
        forall|j: int| i <= j < find_from(s, c, i) ==> s[j] != c,
        find_from(s, c, i) < s.len() ==> s[find_from(s, c, i)] == c,
    decreases s.len() - i,
{
    if i < s.len() && s[i] != c {
        lemma_find_from(s, c, i + 1);
    }
}

/// What `marker_from` gives: a `v=` with none before it, or there is none.
pub proof fn lemma_marker_from(s: Seq<char>, i: int)
    requires
        0 <= i,
    ensures
        match marker_from(s, i) {
            Some(m) => i <= m && marker_at(s, m) && forall|j: int| i <= j < m ==> !marker_at(s, j),
            None => forall|j: int| i <= j ==> !marker_at(s, j),
        },
    decreases s.len() - i,
{
    if i + 1 < s.len() && !marker_at(s, i) {
        lemma_marker_from(s, i + 1);
    }
}

/// What `rfind_before` gives.
pub proof fn lemma_rfind_before(s: Seq<char>, c: char, n: int)
    requires
        n <= s.len(),
    ensures
        match rfind_before(s, c, n) {
            Some(i) => 0 <= i < n && s[i] == c && forall|j: int| i < j < n ==> s[j] != c,
            None => forall|j: int| 0 <= j < n ==> s[j] != c,
        },
    decreases n,
{
    if n > 0 && s[n - 1] != c {
        lemma_rfind_before(s, c, n - 1);
    }
}

/// The id of the video that a URL names: what follows `v=`, up to the next `&`.
pub fn extract_video_id(url: &str) -> (id: &str)
    ensures
        id@ == video_id(url@),
{
    let chars = char_vec(url);
    let mut i: usize = 0;
    while i < chars.len() && i + 1 < chars.len() && !(chars[i] == 'v' && chars[i + 1] == '=')
        invariant
            chars@ == url@,
            i <= chars.len(),
            marker_from(url@, 0) == marker_from(url@, i as int),
        decreases chars.len() - i,
    {
        i = i + 1;
    }
    if chars.len() < 2 || i >= chars.len() - 1 {
        return url.substring_char(0, 0);
    }
    let start: usize = i + 2;
    let mut end: usize = start;
    while end < chars.len() && chars[end] != '&'
        invariant
            chars@ == url@,
            start <= end <= chars.len(),
            find_from(url@, '&', start as int) == find_from(url@, '&', end as int),
        decreases chars.len() - end,
    {
        end = end + 1;
    }
    url.substring_char(start, end)
}

/// The characters that count as white space: those with the Unicode property `White_Space`.
pub open spec fn white_space(c: char) -> bool {
    let n = c as int;
    ||| 0x09 <= n <= 0x0d
    ||| n == 0x20
    ||| n == 0x85
    ||| n == 0xa0
    ||| n == 0x1680
    ||| 0x2000 <= n <= 0x200a
    ||| n == 0x2028
    ||| n == 0x2029
    ||| n == 0x202f
    ||| n == 0x205f
    ||| n == 0x3000
}

/// Whether a character is white space.
pub fn is_white_space(c: char) -> (white: bool)
    ensures
        white == white_space(c),
{
    let n: u32 = c as u32;
    (0x09 <= n && n <= 0x0d) || n == 0x20 || n == 0x85 || n == 0xa0 || n == 0x1680 || (0x2000 <= n
        && n <= 0x200a) || n == 0x2028 || n == 0x2029 || n == 0x202f || n == 0x205f || n == 0x3000
}

/// The first position at or after `i` that holds no white space.
pub open spec fn text_start(s: Seq<char>, i: int) -> int
    decreases s.len() - i,
{
    if i < s.len() && white_space(s[i]) {
        text_start(s, i + 1)
    } else {
        i
    }
}

/// The end of what is left of the first `n` characters without the white space at their end.
pub open spec fn text_end(s: Seq<char>, n: int) -> int
    decreases n,
{
    if n > 0 && white_space(s[n - 1]) {
        text_end(s, n - 1)
    } else {
        n
    }
}

/// A text without the white space at its two ends.
pub open spec fn trimmed(s: Seq<char>) -> Seq<char> {
    let start = text_start(s, 0);
    let end = text_end(s, s.len() as int);
    if start < end {
        s.subrange(start, end)
    } else {
        Seq::empty()
    }
}

/// A text without the white space at its two ends.
pub fn trim(s: &str) -> (text: String)
    ensures
        text@ == trimmed(s@),
{
    let chars = char_vec(s);
    let mut start: usize = 0;
    while start < chars.len() && is_white_space(chars[start])
        invariant
            chars@ == s@,
            start <= chars.len(),
            text_start(s@, 0) == text_start(s@, start as int),
        decreases chars.len() - start,
    {
        start = start + 1;
    }
    let mut end: usize = chars.len();
    while end > 0 && is_white_space(chars[end - 1])
        invariant
            chars@ == s@,
            end <= chars.len(),
            text_end(s@, s@.len() as int) == text_end(s@, end as int),
        decreases end,
    {
        end = end - 1;
    }
    if start < end {
        s.substring_char(start, end).to_string()
    } else {
        String::new()
    }
}

/// The path of an entry in the folder `base`; the top folder is the empty path.
pub open spec fn child_path(base: Seq<char>, name: Seq<char>) -> Seq<char> {
    if base.len() == 0 {
        name
    } else {
        base + seq!['/'] + name
    }
}

/// The folder that a path stands in: what comes before its last slash.
pub open spec fn parent_path(path: Seq<char>) -> Seq<char> {
    match rfind_before(path, '/', path.len() as int) {
        Some(i) => path.take(i),
        None => Seq::empty(),
    }
}

/// The path of an entry in the folder `base`.
pub fn join_path(base: &str, name: &str) -> (path: String)
    ensures
        path@ == child_path(base@, name@),
{
    if base.is_empty() {
        name.to_string()
    } else {
        let mut path = base.to_string();
        path.push('/');
        path.append(name);
        assert(path@ =~= child_path(base@, name@));
        path
    }
}

/// The folder that a path stands in; the top folder for a path without a slash.
pub fn parent_of(path: &str) -> (parent: String)
    ensures
        parent@ == parent_path(path@),
{
    let chars = char_vec(path);
    let mut n: usize = chars.len();
    while n > 0 && chars[n - 1] != '/'
        invariant
            chars@ == path@,
            n <= chars.len(),
            rfind_before(path@, '/', path@.len() as int) == rfind_before(path@, '/', n as int),
        decreases n,
    {
        n = n - 1;
    }
    if n > 0 {
        path.substring_char(0, n - 1).to_string()
    } else {
        String::new()
    }
}

} // verus!
