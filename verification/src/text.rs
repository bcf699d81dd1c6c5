//! Text primitives: prefixes and suffixes, lines, trimming, joining, decimal
//! and hexadecimal digits.
//!
//! Every function here is stated over the characters of its arguments, that is
//! over `Seq<char>`, and agrees with the method of `str` that its comment names.

use vstd::prelude::*;
use vstd::string::*;

verus! {

// ---------------------------------------------------------------------------
// Lists of strings
// ---------------------------------------------------------------------------

/// The texts of a list of strings.
pub open spec fn views(list: Seq<String>) -> Seq<Seq<char>> {
    list.map_values(|s: String| s@)
}

/// The text of an optional string.
pub open spec fn opt_view(text: Option<String>) -> Option<Seq<char>> {
    match text {
        Some(s) => Some(s@),
        None => None,
    }
}

/// Appending a string appends its text.
pub proof fn lemma_views_push(list: Seq<String>, s: String)
    ensures
        views(list.push(s)) == views(list).push(s@),
{
    assert(views(list.push(s)) =~= views(list).push(s@));
}

/// A copy of an optional string.
pub fn clone_opt(text: &Option<String>) -> (r: Option<String>)
    ensures
        opt_view(r) == opt_view(*text),
{
    match text {
        Some(s) => Some(s.clone()),
        None => None,
    }
}

// ---------------------------------------------------------------------------
// Comparison
// ---------------------------------------------------------------------------

/// The characters of `s`, in order.
pub fn to_chars(s: &str) -> (r: Vec<char>)
    ensures
        r@ == s@,
{
    let mut r: Vec<char> = Vec::new();
    for c in it: s.chars()
        invariant
            r@ == it.seq().take(it.index()),
            it.seq() == s@,
    {
        r.push(c);
    }
    r
}

/// Whether `part` stands in `whole` at the index `at`.
fn stands_at(whole: &Vec<char>, at: usize, part: &Vec<char>) -> (r: bool)
    requires
        at + part.len() <= whole.len(),
    ensures
        r == (whole@.subrange(at as int, at + part@.len()) == part@),
{
    let mut i: usize = 0;
    while i < part.len()
        invariant
            i <= part.len(),
            at + part.len() <= whole.len(),
            forall|j: int| 0 <= j < i ==> whole@[at + j] == part@[j],
        decreases part.len() - i,
    {
        if whole[at + i] != part[i] {
            proof {
                assert(whole@.subrange(at as int, at + part@.len())[i as int] != part@[i as int]);
            }
            return false;
        }
        i += 1;
    }
    proof {
        assert(whole@.subrange(at as int, at + part@.len()) =~= part@);
    }
    true
}

/// Whether two texts are the same, as `==` on `str`.
pub fn same_text(a: &str, b: &str) -> (r: bool)
    ensures
        r == (a@ == b@),
{
    let x: Vec<char> = to_chars(a);
    let y: Vec<char> = to_chars(b);
    if x.len() != y.len() {
        return false;
    }
    proof {
        assert(x@.subrange(0, y@.len() as int) =~= x@);
    }
    stands_at(&x, 0, &y)
}

/// Whether `s` begins with `prefix`, as `str::starts_with`.
pub fn starts_with(s: &str, prefix: &str) -> (r: bool)
    ensures
        r == prefix@.is_prefix_of(s@),
{
    let whole: Vec<char> = to_chars(s);
    let part: Vec<char> = to_chars(prefix);
    part.len() <= whole.len() && stands_at(&whole, 0, &part)
}

/// Whether `s` ends with `suffix`, as `str::ends_with`.
pub fn ends_with(s: &str, suffix: &str) -> (r: bool)
    ensures
        r == suffix@.is_suffix_of(s@),
{
    let whole: Vec<char> = to_chars(s);
    let part: Vec<char> = to_chars(suffix);
    part.len() <= whole.len() && stands_at(&whole, whole.len() - part.len(), &part)
}

/// Whether `list` holds a string whose text is `text`.
pub fn holds_text(list: &Vec<String>, text: &str) -> (r: bool)
    ensures
        r == views(list@).contains(text@),
{
    let mut i: usize = 0;
    while i < list.len()
        invariant
            i <= list.len(),
            forall|j: int| 0 <= j < i ==> views(list@)[j] != text@,
        decreases list.len() - i,
    {
        if same_text(list[i].as_str(), text) {
            proof {
                assert(views(list@)[i as int] == text@);
            }
            return true;
        }
        i += 1;
    }
    false
}

// ---------------------------------------------------------------------------
// Cutting
// ---------------------------------------------------------------------------

/// The index of the first `c` in `s`, or the length of `s` if it holds none.
pub open spec fn position(s: Seq<char>, c: char) -> nat
    decreases s.len(),
{
    if s.len() == 0 || s[0] == c {
        0
    } else {
        1 + position(s.drop_first(), c)
    }
}

/// `position` is the first index at which `c` stands.
pub proof fn lemma_position(s: Seq<char>, c: char)
    ensures
        position(s, c) <= s.len(),
        position(s, c) < s.len() ==> s[position(s, c) as int] == c,
        forall|j: int| 0 <= j < position(s, c) ==> s[j] != c,
    decreases s.len(),
{
    if s.len() != 0 && s[0] != c {
        let rest = s.drop_first();
        lemma_position(rest, c);
        assert forall|j: int| 0 <= j < position(s, c) implies s[j] != c by {
            if j > 0 {
                assert(rest[j - 1] == s[j]);
            }
        }
    }
}

/// An index that holds `c`, with none before it, is the position of `c`.
proof fn lemma_position_is(s: Seq<char>, c: char, k: int)
    requires
        0 <= k <= s.len(),
        k < s.len() ==> s[k] == c,
        forall|j: int| 0 <= j < k ==> s[j] != c,
    ensures
        position(s, c) == k,
{
    lemma_position(s, c);
    let p = position(s, c) as int;
    if p < k {
        assert(s[p] != c);
    }
}

/// The first index at or after `from` at which `c` stands in `chars`, or its length.
fn find_from(chars: &Vec<char>, from: usize, c: char) -> (r: usize)
    requires
        from <= chars.len(),
    ensures
        r == from + position(chars@.skip(from as int), c),
        from <= r <= chars.len(),
        r < chars.len() ==> chars@[r as int] == c,
{
    let mut i: usize = from;
    let ghost rest = chars@.skip(from as int);
    while i < chars.len() && chars[i] != c
        invariant
            from <= i <= chars.len(),
            rest == chars@.skip(from as int),
            forall|j: int| 0 <= j < i - from ==> rest[j] != c,
        decreases chars.len() - i,
    {
        proof {
            assert(rest[i - from] == chars@[i as int]);
        }
        i += 1;
    }
    proof {
        if i < chars.len() {
            assert(rest[i - from] == chars@[i as int]);
        }
        lemma_position_is(rest, c, i - from);
    }
    i
}

/// What stands in `s` before its first `c`; all of `s` if it holds none.
pub open spec fn before_first(s: Seq<char>, c: char) -> Seq<char> {
    s.take(position(s, c) as int)
}

/// What stands in `s` before its first `c`: the first piece of `str::split`.
pub fn before(s: &str, c: char) -> (r: &str)
    ensures
        r@ == before_first(s@, c),
{
    let chars: Vec<char> = to_chars(s);
    proof {
        assert(chars@.skip(0) =~= s@);
    }
    let end: usize = find_from(&chars, 0, c);
    s.substring_char(0, end)
}

/// One line without the carriage return that belongs to its line feed.
pub open spec fn strip_return(line: Seq<char>) -> Seq<char> {
    if line.len() > 0 && line.last() == '\r' {
        line.drop_last()
    } else {
        line
    }
}

/// The lines of a text. A line ends with a line feed, or a carriage return and
/// a line feed; the last one may also end with the text.
pub open spec fn lines_of(s: Seq<char>) -> Seq<Seq<char>>
    decreases s.len(),
{
    let end = position(s, '\n') as int;
    if s.len() == 0 {
        Seq::empty()
    } else if end >= s.len() {
        seq![s]
    } else {
        seq![strip_return(s.take(end))] + lines_of(s.skip(end + 1))
    }
}

/// The lines of a text, as `str::lines`.
pub fn lines(s: &str) -> (r: Vec<String>)
    ensures
        views(r@) == lines_of(s@),
{
    let chars: Vec<char> = to_chars(s);
    let mut r: Vec<String> = Vec::new();
    let mut start: usize = 0;
    proof {
        assert(s@.skip(0) =~= s@);
        assert(views(r@) + lines_of(s@) =~= lines_of(s@));
    }
    while start < chars.len()
        invariant
            chars@ == s@,
            start <= chars.len(),
            views(r@) + lines_of(s@.skip(start as int)) == lines_of(s@),
        decreases chars.len() - start,
    {
        let ghost rest = s@.skip(start as int);
        let ghost before_push = r@;
        let end: usize = find_from(&chars, start, '\n');
        if end < chars.len() {
            let stop: usize = if end > start && chars[end - 1] == '\r' {
                end - 1
            } else {
                end
            };
            let line: String = s.substring_char(start, stop).to_owned();
            proof {
                let k = end - start;
                assert(rest.take(k) =~= s@.subrange(start as int, end as int));
                assert(line@ =~= strip_return(rest.take(k)));
                assert(rest.skip(k + 1) =~= s@.skip(end + 1));
                lemma_views_push(r@, line);
                assert(views(r@).push(line@) + lines_of(s@.skip(end + 1)) =~= views(r@)
                    + lines_of(rest));
            }
            r.push(line);
            start = end + 1;
        } else {
            let line: String = s.substring_char(start, end).to_owned();
            proof {
                assert(line@ =~= rest);
                lemma_views_push(r@, line);
                assert(s@.skip(end as int) =~= Seq::<char>::empty());
                assert(views(r@).push(line@) + lines_of(s@.skip(end as int)) =~= views(r@)
                    + lines_of(rest));
            }
            r.push(line);
            start = end;
        }
    }
    proof {
        assert(s@.skip(start as int) =~= Seq::<char>::empty());
        assert(views(r@) + lines_of(s@.skip(start as int)) =~= views(r@));
    }
    r
}

// ---------------------------------------------------------------------------
// Trimming
// ---------------------------------------------------------------------------

/// The code points with the Unicode property `White_Space`.
pub open spec fn is_space_code(code: int) -> bool {
    ||| 0x09 <= code <= 0x0d
    ||| code == 0x20
    ||| code == 0x85
    ||| code == 0xa0
    ||| code == 0x1680
    ||| 0x2000 <= code <= 0x200a
    ||| code == 0x2028
    ||| code == 0x2029
    ||| code == 0x202f
    ||| code == 0x205f
    ||| code == 0x3000
}

/// Whether a character is white space.
pub open spec fn is_space(c: char) -> bool {
    is_space_code(c as int)
}

/// Whether a character is white space, as `char::is_whitespace`.
pub fn is_white_space(c: char) -> (r: bool)
    ensures
        r == is_space(c),
{
    let code: u32 = c as u32;
    (0x09 <= code && code <= 0x0d) || code == 0x20 || code == 0x85 || code == 0xa0 || code
        == 0x1680 || (0x2000 <= code && code <= 0x200a) || code == 0x2028 || code == 0x2029
        || code == 0x202f || code == 0x205f || code == 0x3000
}

/// `s` without the white space at its beginning.
pub open spec fn trim_front(s: Seq<char>) -> Seq<char>
    decreases s.len(),
{
    if s.len() > 0 && is_space(s[0]) {
        trim_front(s.drop_first())
    } else {
        s
    }
}

/// `s` without the white space at its end.
pub open spec fn trim_back(s: Seq<char>) -> Seq<char>
    decreases s.len(),
{
    if s.len() > 0 && is_space(s.last()) {
        trim_back(s.drop_last())
    } else {
        s
    }
}

/// `s` without the white space at its two ends.
pub open spec fn trimmed(s: Seq<char>) -> Seq<char> {
    trim_back(trim_front(s))
}

proof fn lemma_trim_front_is(s: Seq<char>, k: int)
    requires
        0 <= k <= s.len(),
        forall|j: int| 0 <= j < k ==> is_space(#[trigger] s[j]),
        k < s.len() ==> !is_space(s[k]),
    ensures
        trim_front(s) == s.skip(k),
    decreases k,
{
    if k == 0 {
        assert(s.skip(0) =~= s);
    } else {
        let rest = s.drop_first();
        assert(is_space(s[0]));
        assert forall|j: int| 0 <= j < k - 1 implies is_space(#[trigger] rest[j]) by {
            assert(rest[j] == s[j + 1]);
        }
        if k < s.len() {
            assert(rest[k - 1] == s[k]);
        }
        lemma_trim_front_is(rest, k - 1);
        assert(rest.skip(k - 1) =~= s.skip(k));
    }
}

proof fn lemma_trim_back_is(s: Seq<char>, k: int)
    requires
        0 <= k <= s.len(),
        forall|j: int| k <= j < s.len() ==> is_space(#[trigger] s[j]),
        k > 0 ==> !is_space(s[k - 1]),
    ensures
        trim_back(s) == s.take(k),
    decreases s.len() - k,
{
    if k == s.len() {
        assert(s.take(k) =~= s);
    } else {
        let rest = s.drop_last();
        assert(is_space(s[s.len() - 1]));
        lemma_trim_back_is(rest, k);
        assert(rest.take(k) =~= s.take(k));
    }
}

/// `s` without the white space at its two ends, as `str::trim`.
pub fn trim(s: &str) -> (r: &str)
    ensures
        r@ == trimmed(s@),
{
    let chars: Vec<char> = to_chars(s);
    let mut start: usize = 0;
    while start < chars.len() && is_white_space(chars[start])
        invariant
            start <= chars.len(),
            forall|j: int| 0 <= j < start ==> is_space(#[trigger] chars@[j]),
        decreases chars.len() - start,
    {
        start += 1;
    }
    let mut end: usize = chars.len();
    while end > start && is_white_space(chars[end - 1])
        invariant
            start <= end <= chars.len(),
            forall|j: int| end <= j < chars.len() ==> is_space(#[trigger] chars@[j]),
        decreases end,
    {
        end -= 1;
    }
    proof {
        lemma_trim_front_is(s@, start as int);
        let front = s@.skip(start as int);
        assert forall|j: int| end - start <= j < front.len() implies is_space(
            #[trigger] front[j],
        ) by {
            assert(front[j] == chars@[j + start]);
        }
        if end > start {
            assert(front[end - start - 1] == chars@[end - 1]);
        }
        lemma_trim_back_is(front, end - start);
        assert(front.take(end - start) =~= s@.subrange(start as int, end as int));
    }
    s.substring_char(start, end)
}

/// Trimming keeps a run of the characters: what is left holds nothing new, and
/// neither of its ends is white space.
pub proof fn lemma_trimmed(s: Seq<char>)
    ensures
        forall|c: char| trimmed(s).contains(c) ==> s.contains(c),
        trimmed(s).len() > 0 ==> !is_space(trimmed(s).first()) && !is_space(trimmed(s).last()),
{
    lemma_trim_front(s);
    lemma_trim_back(trim_front(s));
    let t = trimmed(s);
    assert forall|c: char| t.contains(c) implies s.contains(c) by {
        assert(trim_front(s).contains(c));
    }
}

proof fn lemma_trim_front(s: Seq<char>)
    ensures
        forall|c: char| trim_front(s).contains(c) ==> s.contains(c),
        trim_front(s).len() > 0 ==> !is_space(trim_front(s).first()),
    decreases s.len(),
{
    if s.len() > 0 && is_space(s[0]) {
        let rest = s.drop_first();
        lemma_trim_front(rest);
        assert forall|c: char| trim_front(s).contains(c) implies s.contains(c) by {
            assert(rest.contains(c));
            let j = choose|j: int| 0 <= j < rest.len() && rest[j] == c;
            assert(s[j + 1] == c);
        }
    }
}

proof fn lemma_trim_back(s: Seq<char>)
    ensures
        forall|c: char| trim_back(s).contains(c) ==> s.contains(c),
        trim_back(s).len() > 0 ==> !is_space(trim_back(s).last()) && trim_back(s).first()
            == s.first(),
    decreases s.len(),
{
    if s.len() > 0 && is_space(s.last()) {
        let rest = s.drop_last();
        lemma_trim_back(rest);
        assert forall|c: char| trim_back(s).contains(c) implies s.contains(c) by {
            assert(rest.contains(c));
            let j = choose|j: int| 0 <= j < rest.len() && rest[j] == c;
            assert(s[j] == c);
        }
    }
}

// ---------------------------------------------------------------------------
// Digits
// ---------------------------------------------------------------------------

/// The digit of value `d`, in lower case from ten on.
pub open spec fn digit(d: int) -> char {
    "0123456789abcdef"@[d]
}

/// A number in decimal, without leading zeros.
pub open spec fn decimal(n: nat) -> Seq<char>
    decreases n,
{
    if n < 10 {
        seq![digit(n as int)]
    } else {
        decimal(n / 10).push(digit((n % 10) as int))
    }
}

/// A byte as two hexadecimal digits.
pub open spec fn hex_byte(b: u8) -> Seq<char> {
    seq![digit(b as int / 16), digit(b as int % 16)]
}

/// The digit of value `d`, as a text of one character.
fn digit_text(d: usize) -> (r: &'static str)
    requires
        d < 16,
    ensures
        r@ == seq![digit(d as int)],
{
    proof {
        reveal_strlit("0123456789abcdef");
    }
    let r: &'static str = "0123456789abcdef".substring_char(d, d + 1);
    proof {
        assert(r@ =~= seq![digit(d as int)]);
    }
    r
}

/// A number in decimal, as `u32::to_string`.
pub fn decimal_text(n: u32) -> (r: String)
    ensures
        r@ == decimal(n as nat),
    decreases n,
{
    if n < 10 {
        digit_text(n as usize).to_owned()
    } else {
        let mut r: String = decimal_text(n / 10);
        r.append(digit_text((n % 10) as usize));
        proof {
            assert(r@ =~= decimal(n as nat));
        }
        r
    }
}

/// Adds a byte in hexadecimal at the end of `text`.
pub fn push_hex_byte(text: &mut String, b: u8)
    ensures
        final(text)@ == old(text)@ + hex_byte(b),
{
    text.append(digit_text((b / 16) as usize));
    text.append(digit_text((b % 16) as usize));
    proof {
        assert(text@ =~= old(text)@ + hex_byte(b));
    }
}

/// The number that a text of decimal digits stands for.
pub open spec fn number_of(text: Seq<char>) -> int
    decreases text.len(),
{
    if text.len() == 0 {
        0
    } else {
        10 * number_of(text.drop_last()) + (text.last() as int - '0' as int)
    }
}

/// A number in decimal reads back as the number; it is made of decimal digits,
/// and it begins with a zero only if it is zero.
pub proof fn law_decimal_reads_back(n: nat)
    ensures
        number_of(decimal(n)) == n,
        decimal(n).len() > 0,
        forall|i: int| 0 <= i < decimal(n).len() ==> '0' <= #[trigger] decimal(n)[i] <= '9',
        decimal(n)[0] == '0' ==> n == 0,
    decreases n,
{
    reveal_strlit("0123456789abcdef");
    reveal_with_fuel(number_of, 2);
    if n < 10 {
        assert(decimal(n).drop_last() =~= Seq::<char>::empty());
    } else {
        let rest = decimal(n / 10);
        law_decimal_reads_back(n / 10);
        assert(decimal(n).drop_last() =~= rest);
        assert forall|i: int| 0 <= i < decimal(n).len() implies '0' <= #[trigger] decimal(n)[i]
            <= '9' by {
            if i < rest.len() {
                assert(decimal(n)[i] == rest[i]);
            }
        }
    }
}

// ---------------------------------------------------------------------------
// What holds of the primitives
// ---------------------------------------------------------------------------

/// The texts of a list are those of its strings, one for one; an optional text
/// is that of the optional string.
pub proof fn law_texts_are_those_of_the_strings(list: Seq<String>, text: Option<String>)
    ensures
        views(list).len() == list.len(),
        forall|i: int| 0 <= i < list.len() ==> #[trigger] views(list)[i] == list[i]@,
        opt_view(text) is Some <==> text is Some,
        text is Some ==> opt_view(text)->0 == text->0@,
{
}

/// Whatever stands before the first of a character is what is cut off before it,
/// and a text without the character is kept whole.
pub proof fn law_cut_stops_at_the_first(head: Seq<char>, c: char, tail: Seq<char>)
    requires
        !head.contains(c),
    ensures
        before_first(head + seq![c] + tail, c) == head,
        before_first(head, c) == head,
{
    let whole = head + seq![c] + tail;
    assert forall|j: int| 0 <= j < head.len() implies whole[j] != c by {
        assert(head[j] == whole[j]);
    }
    assert forall|j: int| 0 <= j < head.len() implies head[j] != c by {
        assert(head.contains(head[j]));
    }
    lemma_position_is(whole, c, head.len() as int);
    lemma_position_is(head, c, head.len() as int);
    assert(whole.take(head.len() as int) =~= head);
    assert(head.take(head.len() as int) =~= head);
}

/// A line feed, and a carriage return and a line feed, end a line, which is kept
/// without them; what comes after is a text of its own.
pub proof fn law_line_feed_ends_a_line(line: Seq<char>, rest: Seq<char>)
    requires
        !line.contains('\n'),
    ensures
        lines_of(line + seq!['\r', '\n'] + rest) == seq![line] + lines_of(rest),
        line.len() == 0 || line.last() != '\r' ==> lines_of(line + seq!['\n'] + rest) == seq![line]
            + lines_of(rest),
{
    let long = line.push('\r');
    assert(!long.contains('\n')) by {
        if long.contains('\n') {
            let j = choose|j: int| 0 <= j < long.len() && long[j] == '\n';
            assert(line[j] == '\n');
        }
    }
    lemma_first_line(long, rest);
    assert(long + seq!['\n'] + rest =~= line + seq!['\r', '\n'] + rest);
    assert(long.drop_last() =~= line);
    lemma_first_line(line, rest);
}

proof fn lemma_first_line(line: Seq<char>, rest: Seq<char>)
    requires
        !line.contains('\n'),
    ensures
        lines_of(line + seq!['\n'] + rest) == seq![strip_return(line)] + lines_of(rest),
{
    let s = line + seq!['\n'] + rest;
    law_cut_stops_at_the_first(line, '\n', rest);
    lemma_position(s, '\n');
    assert(s.take(position(s, '\n') as int).len() == line.len());
    assert(s.skip(line.len() as int + 1) =~= rest);
}

/// A text without line feeds is one line, kept as it is, or none if it is empty.
pub proof fn law_last_line_needs_no_end(line: Seq<char>)
    requires
        !line.contains('\n'),
    ensures
        line.len() == 0 ==> lines_of(line).len() == 0,
        line.len() > 0 ==> lines_of(line) == seq![line],
{
    law_cut_stops_at_the_first(line, '\n', Seq::empty());
    lemma_position(line, '\n');
    assert(line.take(position(line, '\n') as int).len() == line.len());
}

/// The lines of two texts, the first of which ends with its last line, are the
/// lines of the one and then those of the other.
pub proof fn law_lines_of_two_texts(a: Seq<char>, b: Seq<char>)
    requires
        a.len() == 0 || a.last() == '\n',
    ensures
        lines_of(a + b) == lines_of(a) + lines_of(b),
    decreases a.len(),
{
    if a.len() == 0 {
        assert(a + b =~= b);
        assert(lines_of(a) + lines_of(b) =~= lines_of(b));
    } else {
        lemma_position(a, '\n');
        let k = position(a, '\n') as int;
        if k == a.len() {
            assert(a[a.len() - 1] != '\n');
        }
        let line = a.take(k);
        let rest = a.skip(k + 1);
        assert(!line.contains('\n'));
        assert(a =~= line + seq!['\n'] + rest);
        assert(a + b =~= line + seq!['\n'] + (rest + b));
        lemma_first_line(line, rest);
        lemma_first_line(line, rest + b);
        if rest.len() > 0 {
            assert(rest.last() == a.last());
        }
        law_lines_of_two_texts(rest, b);
        assert(lines_of(a + b) =~= lines_of(a) + lines_of(b));
    }
}

/// The characters that are white space, all of them.
pub proof fn law_white_space_is_this(c: char)
    ensures
        is_space(c) <==> seq![
            '\t', '\n', '\u{b}', '\u{c}', '\r', ' ', '\u{85}', '\u{a0}', '\u{1680}', '\u{2000}',
            '\u{2001}', '\u{2002}', '\u{2003}', '\u{2004}', '\u{2005}', '\u{2006}', '\u{2007}',
            '\u{2008}', '\u{2009}', '\u{200a}', '\u{2028}', '\u{2029}', '\u{202f}', '\u{205f}',
            '\u{3000}',
        ].contains(c),
{
    let all = seq![
        '\t', '\n', '\u{b}', '\u{c}', '\r', ' ', '\u{85}', '\u{a0}', '\u{1680}', '\u{2000}',
        '\u{2001}', '\u{2002}', '\u{2003}', '\u{2004}', '\u{2005}', '\u{2006}', '\u{2007}',
        '\u{2008}', '\u{2009}', '\u{200a}', '\u{2028}', '\u{2029}', '\u{202f}', '\u{205f}',
        '\u{3000}',
    ];
    assert(all.len() == 25);
    if is_space(c) {
        assert(c == all[0] || c == all[1] || c == all[2] || c == all[3] || c == all[4] || c
            == all[5] || c == all[6] || c == all[7] || c == all[8] || c == all[9] || c == all[10]
            || c == all[11] || c == all[12] || c == all[13] || c == all[14] || c == all[15] || c
            == all[16] || c == all[17] || c == all[18] || c == all[19] || c == all[20] || c
            == all[21] || c == all[22] || c == all[23] || c == all[24]);
    }
}

/// Trimming takes the white space off the two ends and nothing else.
pub proof fn law_trim_takes_off_the_ends(front: Seq<char>, kept: Seq<char>, back: Seq<char>)
    requires
        forall|i: int| 0 <= i < front.len() ==> is_space(#[trigger] front[i]),
        forall|i: int| 0 <= i < back.len() ==> is_space(#[trigger] back[i]),
        kept.len() > 0 ==> !is_space(kept.first()) && !is_space(kept.last()),
    ensures
        trimmed(front + kept + back) == kept,
{
    let whole = front + kept + back;
    if kept.len() == 0 {
        assert forall|j: int| 0 <= j < whole.len() implies is_space(#[trigger] whole[j]) by {
            if j < front.len() {
                assert(whole[j] == front[j]);
            } else {
                assert(whole[j] == back[j - front.len()]);
            }
        }
        lemma_trim_front_is(whole, whole.len() as int);
        assert(whole.skip(whole.len() as int) =~= kept);
    } else {
        assert forall|j: int| 0 <= j < front.len() implies is_space(#[trigger] whole[j]) by {
            assert(whole[j] == front[j]);
        }
        assert(whole[front.len() as int] == kept[0]);
        lemma_trim_front_is(whole, front.len() as int);
        let rest = whole.skip(front.len() as int);
        assert(rest =~= kept + back);
        assert forall|j: int| kept.len() <= j < rest.len() implies is_space(#[trigger] rest[j]) by {
            assert(rest[j] == back[j - kept.len()]);
        }
        assert(rest[kept.len() - 1] == kept.last());
        lemma_trim_back_is(rest, kept.len() as int);
        assert(rest.take(kept.len() as int) =~= kept);
    }
}

/// Whether a character is a hexadecimal digit in lower case.
pub open spec fn is_hex_digit(c: char) -> bool {
    '0' <= c <= '9' || 'a' <= c <= 'f'
}

/// The value of a hexadecimal digit in lower case.
pub open spec fn hex_value(c: char) -> int {
    if c <= '9' {
        c as int - '0' as int
    } else {
        c as int - 'a' as int + 10
    }
}

/// A byte in hexadecimal is two digits in lower case, the higher one first, and
/// reads back as the byte.
pub proof fn law_hex_byte_reads_back(b: u8)
    ensures
        hex_byte(b).len() == 2,
        is_hex_digit(hex_byte(b)[0]),
        is_hex_digit(hex_byte(b)[1]),
        16 * hex_value(hex_byte(b)[0]) + hex_value(hex_byte(b)[1]) == b,
{
    reveal_strlit("0123456789abcdef");
}

} // verus!
