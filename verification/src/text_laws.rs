//! What holds of the texts that the player makes and reads.

use vstd::prelude::*;

use crate::api::without_slash;
use crate::text::{
    char_vec, child_path, clock_text, decimal, extract_video_id, find_from, format_secs,
    is_white_space, join2, join3, join_path, lemma_find_from, lemma_marker_from,
    lemma_rfind_before, marker_at, marker_from, parent_of, parent_path, quotient, remainder,
    signed_decimal, text_end, text_start, trim, trimmed, two_wide, video_id, white_space,
};

verus! {

/// The folder of an entry is the folder it was listed in.
pub proof fn parent_undoes_child(base: Seq<char>, name: Seq<char>)
    requires
        !name.contains('/'),
    ensures
        parent_path(child_path(base, name)) == base,
{
    let path = child_path(base, name);
    lemma_rfind_before(path, '/', path.len() as int);
    if base.len() == 0 {
        assert(forall|j: int| 0 <= j < name.len() ==> name[j] != '/');
    } else {
        assert(path[base.len() as int] == '/');
        assert(forall|j: int| base.len() < j < path.len() ==> path[j] == name[j - base.len() - 1]);
        assert(path.take(base.len() as int) =~= base);
    }
}

/// A video id holds no `&`.
pub proof fn video_ids_end_at_an_ampersand(url: Seq<char>)
    ensures
        !video_id(url).contains('&'),
{
    lemma_marker_from(url, 0);
    match marker_from(url, 0) {
        Some(i) => lemma_find_from(url, '&', i + 2),
        None => {},
    }
}

/// There is no id without a `v=`, and the one there is follows the first of them.
pub proof fn the_first_marker_counts(url: Seq<char>, m: int)
    ensures
        (forall|j: int| !marker_at(url, j)) ==> video_id(url).len() == 0,
        marker_at(url, m) && (forall|j: int| j < m ==> !marker_at(url, j)) ==> video_id(url)
            == url.subrange(m + 2, find_from(url, '&', m + 2)),
{
    lemma_marker_from(url, 0);
}

/// Further parameters do not change the id of a URL that has one.
pub proof fn further_parameters_do_not_matter(url: Seq<char>, more: Seq<char>)
    requires
        marker_from(url, 0) is Some,
    ensures
        video_id(url + seq!['&'] + more) == video_id(url),
{
    let whole = url + seq!['&'] + more;
    assert(url =~= whole.take(url.len() as int));
    lemma_marker_in_prefix(url, whole, 0);
    lemma_marker_from(url, 0);
    let from = marker_from(url, 0)->0 + 2;
    lemma_find_from(url, '&', from);
    lemma_find_from(whole, '&', from);
    let end = find_from(url, '&', from);
    let whole_end = find_from(whole, '&', from);
    assert(whole[end] == '&');
    if whole_end < end {
        assert(url[whole_end] == whole[whole_end]);
    }
    assert(whole.subrange(from, whole_end) =~= url.subrange(from, end));
}

/// Where no `v=` comes before it, the id is what stands between `v=` and the next parameter.
pub proof fn the_video_id_is_found(head: Seq<char>, id: Seq<char>, tail: Seq<char>)
    requires
        marker_from(head + seq!['v', '='], 0) == Some(head.len() as int),
        !id.contains('&'),
        tail.len() == 0 || tail[0] == '&',
    ensures
        video_id(head + seq!['v', '='] + id + tail) == id,
{
    let start = head + seq!['v', '='];
    let url = start + id + tail;
    lemma_marker_in_prefix(start, url, 0);
    let from = start.len() as int;
    lemma_find_from(url, '&', from);
    let end = find_from(url, '&', from);
    assert(forall|j: int| 0 <= j < id.len() ==> url[from + j] == id[j]);
    if end < from + id.len() {
        assert(id[end - from] == '&');
    }
    if tail.len() > 0 {
        assert(url[from + id.len()] == '&');
    }
    assert(end == from + id.len());
    assert(url.subrange(from, end) =~= id);
}

proof fn lemma_marker_in_prefix(s: Seq<char>, url: Seq<char>, i: int)
    requires
        0 <= i,
        s.len() <= url.len(),
        s =~= url.take(s.len() as int),
        marker_from(s, i) is Some,
    ensures
        marker_from(url, i) == marker_from(s, i),
    decreases s.len() - i,
{
    assert(forall|j: int| 0 <= j < s.len() ==> s[j] == url[j]);
    if i + 1 < s.len() && !(s[i] == 'v' && s[i + 1] == '=') {
        lemma_marker_in_prefix(s, url, i + 1);
    }
}

proof fn lemma_text_start(s: Seq<char>, i: int)
    requires
        0 <= i <= s.len(),
    ensures
        i <= text_start(s, i) <= s.len(),
        forall|j: int| i <= j < text_start(s, i) ==> white_space(s[j]),
        text_start(s, i) < s.len() ==> !white_space(s[text_start(s, i)]),
    decreases s.len() - i,
{
    if i < s.len() && white_space(s[i]) {
        lemma_text_start(s, i + 1);
    }
}

proof fn lemma_text_end(s: Seq<char>, n: int)
    requires
        0 <= n <= s.len(),
    ensures
        0 <= text_end(s, n) <= n,
        forall|j: int| text_end(s, n) <= j < n ==> white_space(s[j]),
        text_end(s, n) > 0 ==> !white_space(s[text_end(s, n) - 1]),
    decreases n,
{
    if n > 0 && white_space(s[n - 1]) {
        lemma_text_end(s, n - 1);
    }
}

/// Trimming takes white space off both ends and nothing else; it leaves nothing exactly where
/// there is nothing but white space, and doing it again changes nothing.
pub proof fn trimming_takes_the_white_space_off(s: Seq<char>)
    ensures
        trimmed(s).len() > 0 ==> !white_space(trimmed(s)[0]) && !white_space(trimmed(s).last()),
        exists|a: int, b: int|
            0 <= a <= b <= s.len() && trimmed(s) == #[trigger] s.subrange(a, b) && (forall|j: int|
                0 <= j < a || b <= j < s.len() ==> white_space(#[trigger] s[j])),
        trimmed(s).len() == 0 <==> (forall|j: int|
            0 <= j < s.len() ==> white_space(#[trigger] s[j])),
        trimmed(trimmed(s)) == trimmed(s),
{
    let start = text_start(s, 0);
    let end = text_end(s, s.len() as int);
    lemma_text_start(s, 0);
    lemma_text_end(s, s.len() as int);
    let t = trimmed(s);
    if start < end {
        assert(t == s.subrange(start, end));
        assert(!white_space(s[start]));
        lemma_text_start(t, 0);
        lemma_text_end(t, t.len() as int);
        assert(t[0] == s[start]);
        assert(t.last() == s[end - 1]);
        assert(text_start(t, 0) == 0);
        assert(text_end(t, t.len() as int) == t.len());
        assert(t.subrange(0, t.len() as int) =~= t);
    } else {
        assert(forall|j: int| 0 <= j < s.len() ==> white_space(#[trigger] s[j]));
        assert(t =~= s.subrange(0, 0));
        if s.len() > 0 {
            assert(start == s.len());
        }
        assert(s.subrange(s.len() as int, s.len() as int) =~= t);
    }
}

/// An address means the same with a slash at its end.
pub proof fn a_slash_at_the_end_does_not_matter(url: Seq<char>)
    requires
        url.len() == 0 || url.last() != '/',
    ensures
        without_slash(url.push('/')) == without_slash(url),
{
    assert(url.push('/').drop_last() =~= url);
}

/// Dividing and putting together again gives back the number, the rest smaller than the divisor.
pub proof fn minutes_and_seconds_add_up(seconds: int)
    ensures
        quotient(seconds, 60) * 60 + remainder(seconds, 60) == seconds,
        -60 < remainder(seconds, 60) < 60,
{
}

proof fn lemma_decimal(n: nat)
    ensures
        decimal(n).len() >= 1,
        decimal(n).len() == 1 <==> n < 10,
        forall|j: int| 0 <= j < decimal(n).len() ==> 48 <= #[trigger] decimal(n)[j] as int <= 57,
        n > 0 ==> decimal(n)[0] != '0',
    decreases n,
{
    if n >= 10 {
        lemma_decimal(n / 10);
        assert(decimal(n)[0] == decimal(n / 10)[0]);
    }
}

/// Different numbers have different decimals.
pub proof fn decimals_differ(a: nat, b: nat)
    requires
        decimal(a) == decimal(b),
    ensures
        a == b,
    decreases a,
{
    lemma_decimal(a);
    lemma_decimal(b);
    assert(decimal(a).last() as int == 48 + a % 10);
    assert(decimal(b).last() as int == 48 + b % 10);
    if a >= 10 {
        assert(decimal(a).drop_last() =~= decimal(a / 10));
        assert(decimal(b).drop_last() =~= decimal(b / 10));
        decimals_differ(a / 10, b / 10);
    }
}

proof fn lemma_signed_decimal(i: int)
    ensures
        signed_decimal(i).len() >= 1,
        forall|j: int| 0 <= j < signed_decimal(i).len() ==> signed_decimal(i)[j] != ':',
        signed_decimal(i)[0] == '-' <==> i < 0,
{
    if i < 0 {
        lemma_decimal((-i) as nat);
    } else {
        lemma_decimal(i as nat);
        assert(48 <= decimal(i as nat)[0] as int <= 57);
    }
}

proof fn lemma_signed_decimals_differ(a: int, b: int)
    requires
        signed_decimal(a) == signed_decimal(b),
    ensures
        a == b,
{
    lemma_signed_decimal(a);
    lemma_signed_decimal(b);
    if a < 0 {
        assert(signed_decimal(a).skip(1) =~= decimal((-a) as nat));
        assert(signed_decimal(b).skip(1) =~= decimal((-b) as nat));
        decimals_differ((-a) as nat, (-b) as nat);
    } else {
        decimals_differ(a as nat, b as nat);
    }
}

proof fn lemma_two_wide_differ(a: int, b: int)
    requires
        two_wide(a) == two_wide(b),
    ensures
        a == b,
{
    lemma_signed_decimal(a);
    lemma_signed_decimal(b);
    if 0 <= a < 10 && 0 <= b < 10 {
        assert(two_wide(a)[1] as int == 48 + a);
        assert(two_wide(b)[1] as int == 48 + b);
    } else if 0 <= a < 10 {
        if b > 0 {
            lemma_decimal(b as nat);
        }
        assert(two_wide(a)[0] == '0');
    } else if 0 <= b < 10 {
        if a > 0 {
            lemma_decimal(a as nat);
        }
        assert(two_wide(b)[0] == '0');
    } else {
        lemma_signed_decimals_differ(a, b);
    }
}

/// Different lengths are shown differently: the text tells the number of seconds.
pub proof fn clock_texts_differ(a: int, b: int)
    requires
        clock_text(a) == clock_text(b),
    ensures
        a == b,
{
    let (ma, mb) = (signed_decimal(quotient(a, 60)), signed_decimal(quotient(b, 60)));
    let (sa, sb) = (two_wide(remainder(a, 60)), two_wide(remainder(b, 60)));
    let (ta, tb) = (clock_text(a), clock_text(b));
    lemma_signed_decimal(quotient(a, 60));
    lemma_signed_decimal(quotient(b, 60));
    assert(ta[ma.len() as int] == ':');
    assert(tb[mb.len() as int] == ':');
    if ma.len() < mb.len() {
        assert(tb[ma.len() as int] == mb[ma.len() as int]);
    }
    if mb.len() < ma.len() {
        assert(ta[mb.len() as int] == ma[mb.len() as int]);
    }
    assert(ma =~= ta.take(ma.len() as int));
    assert(mb =~= tb.take(mb.len() as int));
    assert(sa =~= ta.skip(ma.len() as int + 1));
    assert(sb =~= tb.skip(mb.len() as int + 1));
    lemma_signed_decimals_differ(quotient(a, 60), quotient(b, 60));
    lemma_two_wide_differ(remainder(a, 60), remainder(b, 60));
    minutes_and_seconds_add_up(a);
    minutes_and_seconds_add_up(b);
}

/// The white space characters are the tab and the four line breaks behind it, the space, the two
/// controls of Latin-1, and the spaces and separators of the later blocks.
pub proof fn which_characters_are_white_space(c: char, white: bool)
    requires
        call_ensures(is_white_space, (c,), white),
    ensures
        white <==> {
            ||| c == '\t' || c == '\n' || c == '\u{b}' || c == '\u{c}' || c == '\r' || c == ' '
            ||| c == '\u{85}' || c == '\u{a0}' || c == '\u{1680}'
            ||| c == '\u{2000}' || c == '\u{2001}' || c == '\u{2002}' || c == '\u{2003}'
            ||| c == '\u{2004}' || c == '\u{2005}' || c == '\u{2006}' || c == '\u{2007}'
            ||| c == '\u{2008}' || c == '\u{2009}' || c == '\u{200a}'
            ||| c == '\u{2028}' || c == '\u{2029}' || c == '\u{202f}' || c == '\u{205f}'
            ||| c == '\u{3000}'
        },
        white == white_space(c),
{
}

/// Where all characters before `a` and from `b` on are white space, and those at the two ends of
/// what lies between are not, trimming leaves what lies between.
pub proof fn trimming_leaves_what_lies_between(s: Seq<char>, a: int, b: int)
    requires
        0 <= a < b <= s.len(),
        !white_space(s[a]),
        !white_space(s[b - 1]),
        forall|j: int| 0 <= j < a || b <= j < s.len() ==> white_space(#[trigger] s[j]),
    ensures
        trimmed(s) == s.subrange(a, b),
{
    lemma_text_start(s, 0);
    lemma_text_end(s, s.len() as int);
    let start = text_start(s, 0);
    let end = text_end(s, s.len() as int);
    assert(start <= a);
    assert(start >= a) by {
        if start < a {
            assert(white_space(s[start]));
        }
    }
    assert(end >= b) by {
        if end < b {
            assert(white_space(s[b - 1]));
        }
    }
    assert(end <= b) by {
        if end > b {
            assert(white_space(s[end - 1]));
        }
    }
}

/// The trimmed text is what lies between the white space at the two ends; of white space alone
/// nothing is left.
pub proof fn trim_leaves_what_lies_between(s: &str, text: String, a: int, b: int)
    requires
        call_ensures(trim, (s,), text),
    ensures
        0 <= a < b <= s@.len() && !white_space(s@[a]) && !white_space(s@[b - 1]) && (forall|j: int|
            0 <= j < a || b <= j < s@.len() ==> white_space(#[trigger] s@[j])) ==> text@
            == s@.subrange(a, b),
        (forall|j: int| 0 <= j < s@.len() ==> white_space(#[trigger] s@[j])) <==> text@.len() == 0,
{
    trimming_takes_the_white_space_off(s@);
    if 0 <= a < b <= s@.len() && !white_space(s@[a]) && !white_space(s@[b - 1]) && (forall|j: int|
        0 <= j < a || b <= j < s@.len() ==> white_space(#[trigger] s@[j])) {
        trimming_leaves_what_lies_between(s@, a, b);
    }
}

/// The id is what stands between the first `v=`, at the position `m`, and the next `&` or the end,
/// at the position `e`.
pub proof fn the_video_id_lies_between(url: Seq<char>, m: int, e: int)
    requires
        0 <= m && m + 2 <= e <= url.len(),
        url[m] == 'v' && url[m + 1] == '=',
        forall|j: int| 0 <= j < m ==> !((#[trigger] url[j]) == 'v' && url[j + 1] == '='),
        forall|j: int| m + 2 <= j < e ==> (#[trigger] url[j]) != '&',
        e == url.len() || url[e] == '&',
    ensures
        video_id(url) == url.subrange(m + 2, e),
{
    lemma_marker_from(url, 0);
    assert(marker_at(url, m));
    assert(forall|j: int| 0 <= j < m ==> !marker_at(url, j));
    lemma_find_from(url, '&', m + 2);
}

/// A URL without `v=` has no id.
pub proof fn no_marker_no_video_id(url: Seq<char>)
    requires
        forall|j: int| 0 <= j < url.len() - 1 ==> !((#[trigger] url[j]) == 'v' && url[j + 1] == '='),
    ensures
        video_id(url).len() == 0,
{
    lemma_marker_from(url, 0);
}

/// The id that is read from a URL is what stands between the first `v=`, at the position `m`, and
/// the next `&` or the end, at the position `e`.
pub proof fn the_extracted_id_lies_between(url: &str, id: &str, m: int, e: int)
    requires
        call_ensures(extract_video_id, (url,), id),
        0 <= m && m + 2 <= e <= url@.len(),
        url@[m] == 'v' && url@[m + 1] == '=',
        forall|j: int| 0 <= j < m ==> !((#[trigger] url@[j]) == 'v' && url@[j + 1] == '='),
        forall|j: int| m + 2 <= j < e ==> (#[trigger] url@[j]) != '&',
        e == url@.len() || url@[e] == '&',
    ensures
        id@ == url@.subrange(m + 2, e),
{
    the_video_id_lies_between(url@, m, e);
}

/// From a URL without `v=` no id is read.
pub proof fn nothing_is_extracted_without_a_marker(url: &str, id: &str)
    requires
        call_ensures(extract_video_id, (url,), id),
        forall|j: int|
            0 <= j < url@.len() - 1 ==> !((#[trigger] url@[j]) == 'v' && url@[j + 1] == '='),
    ensures
        id@.len() == 0,
{
    no_marker_no_video_id(url@);
}

/// In the top folder an entry's path is its name; in another one it is the folder's path, a slash
/// and the name.
pub proof fn paths_are_joined_by_a_slash(base: &str, name: &str, path: String)
    requires
        call_ensures(join_path, (base, name), path),
    ensures
        base@.len() == 0 ==> path@ == name@,
        base@.len() > 0 ==> path@ == base@ + seq!['/'] + name@,
{
}

/// The folder that a path stands in is what comes before its last slash, at the position `i`.
pub proof fn the_parent_comes_before_the_last_slash(path: Seq<char>, i: int)
    requires
        0 <= i < path.len(),
        path[i] == '/',
        forall|j: int| i < j < path.len() ==> (#[trigger] path[j]) != '/',
    ensures
        parent_path(path) == path.take(i),
{
    lemma_rfind_before(path, '/', path.len() as int);
}

/// A path without a slash stands in the top folder.
pub proof fn without_a_slash_the_parent_is_the_top(path: Seq<char>)
    requires
        forall|j: int| 0 <= j < path.len() ==> (#[trigger] path[j]) != '/',
    ensures
        parent_path(path).len() == 0,
{
    lemma_rfind_before(path, '/', path.len() as int);
}

/// The folder that a path stands in is what comes before its last slash, and the top folder where
/// it has none.
pub proof fn parents_come_before_the_last_slash(path: &str, parent: String, i: int)
    requires
        call_ensures(parent_of, (path,), parent),
    ensures
        0 <= i < path@.len() && path@[i] == '/' && (forall|j: int|
            i < j < path@.len() ==> (#[trigger] path@[j]) != '/') ==> parent@ == path@.take(i),
        (forall|j: int| 0 <= j < path@.len() ==> (#[trigger] path@[j]) != '/') ==> parent@.len()
            == 0,
{
    if forall|j: int| 0 <= j < path@.len() ==> (#[trigger] path@[j]) != '/' {
        without_a_slash_the_parent_is_the_top(path@);
    } else if 0 <= i < path@.len() && path@[i] == '/' && (forall|j: int|
        i < j < path@.len() ==> (#[trigger] path@[j]) != '/') {
        the_parent_comes_before_the_last_slash(path@, i);
    }
}

/// Joining puts the pieces one after the other, and taking a text apart gives its characters.
pub proof fn joining_keeps_every_piece(
    a: &str,
    b: &str,
    c: &str,
    two: String,
    three: String,
    chars: Vec<char>,
)
    requires
        call_ensures(join2, (a, b), two),
        call_ensures(join3, (a, b, c), three),
        call_ensures(char_vec, (a,), chars),
    ensures
        two@.len() == a@.len() + b@.len(),
        two@.take(a@.len() as int) == a@,
        two@.skip(a@.len() as int) == b@,
        three@.len() == a@.len() + b@.len() + c@.len(),
        three@.take(a@.len() as int) == a@,
        three@.subrange(a@.len() as int, (a@.len() + b@.len()) as int) == b@,
        three@.skip((a@.len() + b@.len()) as int) == c@,
        chars@ == a@,
{
}

/// The number that a text of decimal digits stands for.
pub open spec fn number_read(text: Seq<char>) -> int
    decreases text.len(),
{
    if text.len() == 0 {
        0
    } else {
        10 * number_read(text.drop_last()) + (text.last() as int - '0' as int)
    }
}

/// Reading a decimal gives back the number. It is made of digits, and only
/// that of zero begins with a zero.
pub proof fn decimals_can_be_read_back(n: nat)
    ensures
        number_read(decimal(n)) == n,
        decimal(n).len() > 0,
        forall|j: int|
            0 <= j < decimal(n).len() ==> '0' as int <= #[trigger] decimal(n)[j] as int <= '9' as int,
        decimal(n).len() > 1 ==> decimal(n)[0] != '0',
    decreases n,
{
    lemma_decimal(n);
    if n >= 10 {
        decimals_can_be_read_back(n / 10);
        assert(decimal(n).drop_last() =~= decimal(n / 10));
        assert(decimal(n).last() as int == 48 + n % 10);
    } else {
        assert(decimal(n).drop_last().len() == 0);
        assert(number_read(decimal(n).drop_last()) == 0);
        assert(decimal(n).last() as int == 48 + n);
    }
}

/// A length is shown as its whole minutes, a colon and two digits for the seconds that are left.
pub proof fn a_length_is_shown_in_minutes_and_seconds(seconds: i64, text: String)
    requires
        call_ensures(format_secs, (seconds,), text),
        seconds >= 0,
    ensures
        ({
            let n = text@.len();
            &&& n >= 4
            &&& number_read(text@.take(n - 3)) == seconds as int / 60
            &&& forall|j: int| 0 <= j < n - 3 ==> '0' as int <= #[trigger] text@[j] as int <= '9' as int
            &&& n > 4 ==> text@[0] != '0'
            &&& text@[n - 3] == ':'
            &&& text@[n - 2] as int == '0' as int + seconds as int % 60 / 10
            &&& text@[n - 1] as int == '0' as int + seconds as int % 10
        }),
{
    let minutes = (seconds as int / 60) as nat;
    let rest = (seconds as int % 60) as nat;
    decimals_can_be_read_back(minutes);
    lemma_decimal(rest);
    lemma_clock_ends(seconds as int);
    let head = decimal(minutes);
    assert(text@ == head + seq![':'] + two_wide(rest as int));
    assert(two_wide(rest as int).len() == 2) by {
        lemma_two_digits(rest);
    }
    lemma_two_digits(rest);
    assert(text@.take(text@.len() - 3) =~= head);
    assert(forall|j: int| 0 <= j < text@.len() - 3 ==> text@[j] == head[j]);
}

proof fn lemma_clock_ends(seconds: int)
    requires
        seconds >= 0,
    ensures
        quotient(seconds, 60) == seconds / 60,
        remainder(seconds, 60) == seconds % 60,
        0 <= seconds % 60 < 60,
        seconds % 10 == seconds % 60 % 10,
{
}

proof fn lemma_two_digits(n: nat)
    requires
        n < 100,
    ensures
        two_wide(n as int).len() == 2,
        two_wide(n as int)[0] as int == '0' as int + n / 10,
        two_wide(n as int)[1] as int == '0' as int + n % 10,
{
    if n >= 10 {
        assert(decimal(n / 10) =~= seq![crate::text::digit((n / 10) as int)]);
    }
}

/// A length below zero is shown with the sign in front of its minutes and of its seconds, as far
/// as these are not zero; the seconds are two characters wide with their sign.
pub proof fn a_length_below_zero_keeps_its_sign(seconds: i64, text: String)
    requires
        call_ensures(format_secs, (seconds,), text),
        seconds < 0,
    ensures
        ({
            let minutes = -(seconds as int) / 60;
            let rest = -(seconds as int) % 60;
            text@ == (if minutes > 0 {
                seq!['-'] + decimal(minutes as nat)
            } else {
                seq!['0']
            }) + seq![':'] + (if rest > 0 {
                seq!['-'] + decimal(rest as nat)
            } else {
                seq!['0', '0']
            })
        }),
{
    let minutes = -(seconds as int) / 60;
    let rest = -(seconds as int) % 60;
    assert(quotient(seconds as int, 60) == -minutes);
    assert(remainder(seconds as int, 60) == -rest);
    assert(decimal(0) =~= seq!['0']);
    assert(two_wide(0) =~= seq!['0', '0']);
}

} // verus!
