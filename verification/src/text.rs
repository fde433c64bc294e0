//! Text as a sequence of characters: character classes, scanning, lines and
//! whitespace-separated tokens.

use vstd::prelude::*;

verus! {

/// Whether `c` is one of the code points that Unicode calls white space.
pub open spec fn is_whitespace(c: char) -> bool {
    let n = c as u32;
    ||| 0x09 <= n <= 0x0D
    ||| n == 0x20
    ||| n == 0x85
    ||| n == 0xA0
    ||| n == 0x1680
    ||| 0x2000 <= n <= 0x200A
    ||| n == 0x2028
    ||| n == 0x2029
    ||| n == 0x202F
    ||| n == 0x205F
    ||| n == 0x3000
}

/// Whether `c` is white space.
pub fn char_is_whitespace(c: char) -> (b: bool)
    ensures
        b == is_whitespace(c),
{
    let n: u32 = c as u32;
    (0x09 <= n && n <= 0x0D) || n == 0x20 || n == 0x85 || n == 0xA0 || n == 0x1680 || (0x2000 <= n
        && n <= 0x200A) || n == 0x2028 || n == 0x2029 || n == 0x202F || n == 0x205F || n == 0x3000
}

/// The lower-case form of an ASCII capital letter; every other character is
/// left as it is.
pub open spec fn ascii_lower(c: char) -> char {
    if 'A' <= c <= 'Z' {
        ((c as u8) + 32) as char
    } else {
        c
    }
}

/// `c` in lower case, where it is an ASCII capital letter.
pub fn char_ascii_lower(c: char) -> (l: char)
    ensures
        l == ascii_lower(c),
{
    if 'A' <= c && c <= 'Z' {
        let b: u8 = c as u8;
        (b + 32) as char
    } else {
        c
    }
}

/// `s` with every ASCII capital letter replaced by its lower-case form.
pub open spec fn ascii_lowercase(s: Seq<char>) -> Seq<char> {
    s.map_values(|c: char| ascii_lower(c))
}

/// The classes of characters at which a scan can stop.
#[derive(Clone, Copy, Debug, PartialEq, Eq)]
pub enum CharClass {
    /// The line feed.
    LineFeed,
    /// The slash that separates the segments of a path.
    Slash,
    /// Any white space.
    Whitespace,
    /// Anything but white space.
    Visible,
    /// A comma or any white space: what separates the items of a list.
    Separator,
    /// Anything but a comma or white space: what an item of a list is made of.
    Item,
}

impl CharClass {
    /// Whether `c` is in the class.
    pub open spec fn holds(self, c: char) -> bool {
        match self {
            CharClass::LineFeed => c == '\n',
            CharClass::Slash => c == '/',
            CharClass::Whitespace => is_whitespace(c),
            CharClass::Visible => !is_whitespace(c),
            CharClass::Separator => c == ',' || is_whitespace(c),
            CharClass::Item => c != ',' && !is_whitespace(c),
        }
    }

    /// Whether `c` is in the class.
    pub fn contains(self, c: char) -> (b: bool)
        ensures
            b == self.holds(c),
    {
        match self {
            CharClass::LineFeed => c == '\n',
            CharClass::Slash => c == '/',
            CharClass::Whitespace => char_is_whitespace(c),
            CharClass::Visible => !char_is_whitespace(c),
            CharClass::Separator => c == ',' || char_is_whitespace(c),
            CharClass::Item => c != ',' && !char_is_whitespace(c),
        }
    }
}

/// The first index at or after `from` whose character is in `class`, or the
/// length of `s` when there is none.
pub open spec fn first_in(s: Seq<char>, from: int, class: CharClass) -> int
    decreases s.len() - from,
{
    if from >= s.len() {
        s.len() as int
    } else if class.holds(s[from]) {
        from
    } else {
        first_in(s, from + 1, class)
    }
}

/// `first_in` stays between `from` and the length, stops on a character of the
/// class, and passes over none.
pub proof fn lemma_first_in(s: Seq<char>, from: int, class: CharClass)
    requires
        0 <= from <= s.len(),
    ensures
        from <= first_in(s, from, class) <= s.len(),
        first_in(s, from, class) < s.len() ==> class.holds(s[first_in(s, from, class)]),
        forall|i: int| from <= i < first_in(s, from, class) ==> !class.holds(#[trigger] s[i]),
    decreases s.len() - from,
{
    if from < s.len() && !class.holds(s[from]) {
        lemma_first_in(s, from + 1, class);
    }
}

/// An index with a character of the class, before which, from `from` on, there
/// is none, is the one that `first_in` gives.
pub proof fn lemma_first_in_is(s: Seq<char>, from: int, class: CharClass, at: int)
    requires
        0 <= from <= at <= s.len(),
        at < s.len() ==> class.holds(s[at]),
        forall|i: int| from <= i < at ==> !class.holds(#[trigger] s[i]),
    ensures
        first_in(s, from, class) == at,
    decreases at - from,
{
    if from < at {
        lemma_first_in_is(s, from + 1, class, at);
    }
}

/// The first index at or after `from` whose character is in `class`, or the
/// length of `chars` when there is none.
pub fn find(chars: &[char], from: usize, class: CharClass) -> (at: usize)
    requires
        from <= chars@.len(),
    ensures
        at == first_in(chars@, from as int, class),
        from <= at <= chars@.len(),
{
    let mut i: usize = from;
    loop
        invariant
            from <= i <= chars@.len(),
            first_in(chars@, from as int, class) == first_in(chars@, i as int, class),
        ensures
            i == first_in(chars@, from as int, class),
        decreases chars@.len() - i,
    {
        if i >= chars.len() {
            break ;
        }
        if class.contains(chars[i]) {
            break ;
        }
        i += 1;
    }
    i
}

/// The characters of `s`, in order.
pub fn chars_of(s: &str) -> (v: Vec<char>)
    ensures
        v@ == s@,
{
    let mut v: Vec<char> = Vec::new();
    for c in it: s.chars()
        invariant
            v@ == it.seq().take(it.index()),
            it.seq() == s@,
    {
        v.push(c);
    }
    v
}

/// `String::push` of the standard library: the character is appended, and
/// nothing else changes.
#[verifier::external_body]
pub(crate) fn push_char(s: &mut String, c: char)
    ensures
        final(s)@ == old(s)@.push(c),
{
    s.push(c)
}

/// The characters of `chars` from `from` up to `to`, as a string.
pub fn string_of(chars: &[char], from: usize, to: usize) -> (s: String)
    requires
        from <= to <= chars@.len(),
    ensures
        s@ == chars@.subrange(from as int, to as int),
{
    let mut s = String::new();
    let mut i: usize = from;
    while i < to
        invariant
            from <= i <= to <= chars@.len(),
            s@ == chars@.subrange(from as int, i as int),
        decreases to - i,
    {
        push_char(&mut s, chars[i]);
        i += 1;
    }
    s
}

/// The lower-case copy of `s` that `ascii_lowercase` describes.
pub fn to_ascii_lowercase(s: &str) -> (l: String)
    ensures
        l@ == ascii_lowercase(s@),
{
    let chars = chars_of(s);
    let mut l = String::new();
    let mut i: usize = 0;
    while i < chars.len()
        invariant
            i <= chars@.len(),
            chars@ == s@,
            l@ == ascii_lowercase(s@.take(i as int)),
        decreases chars@.len() - i,
    {
        push_char(&mut l, char_ascii_lower(chars[i]));
        i += 1;
    }
    l
}

/// The lower-case form of `s` in Unicode: what `str::to_lowercase` of the
/// standard library makes of it, which depends on `s` alone.
pub uninterp spec fn lowercase(s: Seq<char>) -> Seq<char>;

/// `str::to_lowercase` of the standard library: a new string that holds the
/// lower-case form of `s`, which `lowercase` names.
#[verifier::external_body]
pub(crate) fn to_lowercase(s: &str) -> (l: String)
    ensures
        l@ == lowercase(s@),
{
    s.to_lowercase()
}

/// Whether `chars` begins with the characters of `prefix`.
pub fn starts_with(chars: &[char], prefix: &str) -> (b: bool)
    ensures
        b == prefix@.is_prefix_of(chars@),
{
    let wanted = chars_of(prefix);
    if wanted.len() > chars.len() {
        return false;
    }
    let mut i: usize = 0;
    while i < wanted.len()
        invariant
            i <= wanted@.len() <= chars@.len(),
            wanted@ == prefix@,
            wanted@.take(i as int) == chars@.take(i as int),
        decreases wanted@.len() - i,
    {
        if wanted[i] != chars[i] {
            return false;
        }
        i += 1;
    }
    true
}

/// Whether `chars` holds exactly the characters of `text`.
pub fn same_text(chars: &[char], text: &str) -> (b: bool)
    ensures
        b == (chars@ == text@),
{
    let wanted = chars_of(text);
    if wanted.len() != chars.len() {
        return false;
    }
    let b = starts_with(chars, text);
    assert(chars@.subrange(0, chars@.len() as int) =~= chars@);
    b
}

/// The line that starts at `from`: the characters up to the next line feed, or
/// to the end where there is none, without the carriage return that may stand
/// before the line feed.
pub open spec fn line_at(s: Seq<char>, from: int) -> Seq<char> {
    let end = first_in(s, from, CharClass::LineFeed);
    if from < end < s.len() && s[end - 1] == '\r' {
        s.subrange(from, end - 1)
    } else {
        s.subrange(from, end)
    }
}

/// Where the line after the one that starts at `from` starts: behind the line
/// feed, or at the end where there is none.
pub open spec fn after_line(s: Seq<char>, from: int) -> int {
    let end = first_in(s, from, CharClass::LineFeed);
    if end < s.len() {
        end + 1
    } else {
        s.len() as int
    }
}

/// The lines of `s` from the line that starts at `from` on.
pub open spec fn lines_from(s: Seq<char>, from: int) -> Seq<Seq<char>>
    decreases s.len() - from,
    via lines_from_decreases
{
    if 0 <= from < s.len() {
        seq![line_at(s, from)] + lines_from(s, after_line(s, from))
    } else {
        Seq::empty()
    }
}

#[via_fn]
proof fn lines_from_decreases(s: Seq<char>, from: int) {
    if 0 <= from < s.len() {
        lemma_first_in(s, from, CharClass::LineFeed);
    }
}

/// The lines of `s`. A line ends at a line feed or at the end of `s`; the line
/// feed, and a carriage return directly before it, are not part of the line.
/// The empty text has no line, and a line feed at the very end opens no
/// further line.
pub open spec fn lines(s: Seq<char>) -> Seq<Seq<char>> {
    lines_from(s, 0)
}

/// The end of the line that starts at `from`, and the start of the next one.
pub fn line_span(chars: &[char], from: usize) -> (span: (usize, usize))
    requires
        from < chars@.len(),
    ensures
        from <= span.0 <= span.1 <= chars@.len(),
        from < span.1,
        chars@.subrange(from as int, span.0 as int) == line_at(chars@, from as int),
        span.1 == after_line(chars@, from as int),
{
    let feed = find(chars, from, CharClass::LineFeed);
    if feed < chars.len() {
        if from < feed && chars[feed - 1] == '\r' {
            (feed - 1, feed + 1)
        } else {
            (feed, feed + 1)
        }
    } else {
        (feed, feed)
    }
}

/// The lines of `s`.
pub fn split_lines(s: &str) -> (v: Vec<String>)
    ensures
        v.deep_view() == lines(s@),
{
    let chars = chars_of(s);
    let mut v: Vec<String> = Vec::new();
    let mut at: usize = 0;
    while at < chars.len()
        invariant
            at <= chars@.len(),
            chars@ == s@,
            lines(s@) == v.deep_view() + lines_from(s@, at as int),
        decreases chars@.len() - at,
    {
        let (end, next) = line_span(chars.as_slice(), at);
        v.push(string_of(chars.as_slice(), at, end));
        at = next;
    }
    v
}

/// The tokens of `s` from `from` on (see `tokens`).
pub open spec fn tokens_from(s: Seq<char>, from: int) -> Seq<Seq<char>>
    decreases s.len() - from,
    via tokens_from_decreases
{
    let start = first_in(s, from, CharClass::Visible);
    if 0 <= from && start < s.len() {
        let end = first_in(s, start, CharClass::Whitespace);
        seq![s.subrange(start, end)] + tokens_from(s, end)
    } else {
        Seq::empty()
    }
}

#[via_fn]
proof fn tokens_from_decreases(s: Seq<char>, from: int) {
    let start = first_in(s, from, CharClass::Visible);
    if 0 <= from && start < s.len() {
        lemma_first_in(s, from, CharClass::Visible);
        lemma_first_in(s, start, CharClass::Whitespace);
    }
}

/// Where white space leads from `from` to `start`, and what stands from
/// `start` up to `end` is a longest run of other characters, that run is the
/// first token from `from` on, and the tokens behind it are those from `end`
/// on.
pub proof fn lemma_token_at(s: Seq<char>, from: int, start: int, end: int)
    requires
        0 <= from <= start < end <= s.len(),
        forall|i: int| from <= i < start ==> is_whitespace(#[trigger] s[i]),
        forall|i: int| start <= i < end ==> !is_whitespace(#[trigger] s[i]),
        end < s.len() ==> is_whitespace(s[end]),
    ensures
        tokens_from(s, from) == seq![s.subrange(start, end)] + tokens_from(s, end),
{
    lemma_first_in_is(s, from, CharClass::Visible, start);
    lemma_first_in_is(s, start, CharClass::Whitespace, end);
}

/// The tokens of `s`: its longest runs of characters that are not white
/// space, in the order in which they stand.
pub open spec fn tokens(s: Seq<char>) -> Seq<Seq<char>> {
    tokens_from(s, 0)
}

/// The tokens of `s`.
pub fn split_whitespace(s: &str) -> (v: Vec<String>)
    ensures
        v.deep_view() == tokens(s@),
{
    let chars = chars_of(s);
    let chars = chars.as_slice();
    let mut v: Vec<String> = Vec::new();
    let mut at: usize = 0;
    loop
        invariant
            at <= chars@.len(),
            chars@ == s@,
            tokens(chars@) == v.deep_view() + tokens_from(chars@, at as int),
        ensures
            v.deep_view() == tokens(s@),
        decreases chars@.len() - at,
    {
        let start = find(chars, at, CharClass::Visible);
        if start >= chars.len() {
            break ;
        }
        let end = find(chars, start, CharClass::Whitespace);
        v.push(string_of(chars, start, end));
        at = end;
    }
    v
}

/// `s` without the white space at its end.
pub open spec fn trim_end(s: Seq<char>) -> Seq<char>
    decreases s.len(),
{
    if s.len() > 0 && is_whitespace(s.last()) {
        trim_end(s.drop_last())
    } else {
        s
    }
}

/// The length of `trim_end` of the characters from `from` on, counted from
/// `from`: the index behind the last character that is not white space.
pub fn trimmed_end(chars: &[char], from: usize) -> (end: usize)
    requires
        from <= chars@.len(),
    ensures
        from <= end <= chars@.len(),
        chars@.subrange(from as int, end as int) == trim_end(chars@.skip(from as int)),
{
    let mut end: usize = chars.len();
    while end > from && char_is_whitespace(chars[end - 1])
        invariant
            from <= end <= chars@.len(),
            trim_end(chars@.skip(from as int)) == trim_end(chars@.subrange(from as int, end as int)),
        decreases end,
    {
        assert(chars@.subrange(from as int, end as int).drop_last() =~= chars@.subrange(
            from as int,
            end - 1,
        ));
        end -= 1;
    }
    end
}

/// The character that stands for the digit `d`.
pub open spec fn digit(d: nat) -> char {
    (48 + d) as char
}

/// `n` written in decimal digits, without leading zeros.
pub open spec fn decimal(n: nat) -> Seq<char>
    decreases n,
{
    if n < 10 {
        seq![digit(n)]
    } else {
        decimal(n / 10).push(digit(n % 10))
    }
}

/// Appends `n` in decimal digits to `s`.
pub fn push_decimal(s: &mut String, n: usize)
    ensures
        final(s)@ == old(s)@ + decimal(n as nat),
    decreases n,
{
    if n >= 10 {
        push_decimal(s, n / 10);
    }
    let d: u8 = (n % 10) as u8;
    push_char(s, (48u8 + d) as char);
}

} // verus!
