//! Text over `Seq<char>`: lines, words, numerals and searches, proved
//! against their definitions, and the few operations that are taken from
//! the standard library on trust.

use vstd::prelude::*;
use vstd::string::*;

verus! {

/// The lower-case form of a text, as Unicode defines it.
pub uninterp spec fn lowercase(s: Seq<char>) -> Seq<char>;

/// `needle` occurs in `hay` as a contiguous run of characters.
pub open spec fn has_substring(hay: Seq<char>, needle: Seq<char>) -> bool {
    exists|i: int|
        0 <= i && i + needle.len() <= hay.len() && #[trigger] hay.subrange(
            i,
            i + needle.len(),
        ) == needle
}

/// The ten decimal digits, in order.
pub open spec fn digits() -> Seq<char> {
    seq!['0', '1', '2', '3', '4', '5', '6', '7', '8', '9']
}

/// The decimal numeral of `n`, without sign or leading zeros.
pub open spec fn decimal(n: nat) -> Seq<char>
    decreases n,
{
    if n < 10 {
        seq![digits()[n as int]]
    } else {
        decimal(n / 10).push(digits()[(n % 10) as int])
    }
}

/// The texts held by a vector of strings.
pub open spec fn texts(v: Seq<String>) -> Seq<Seq<char>> {
    v.map_values(|s: String| s@)
}

/// The text held by an optional string.
pub open spec fn opt_text(o: Option<String>) -> Option<Seq<char>> {
    match o {
        Some(s) => Some(s@),
        None => None,
    }
}

/// Where the first line feed of `s` stands; the length of `s` if it has none.
pub open spec fn first_line_feed(s: Seq<char>) -> nat
    decreases s.len(),
{
    if s.len() == 0 {
        0
    } else if s[0] == '\n' {
        0
    } else {
        1 + first_line_feed(s.skip(1))
    }
}

/// A line without the carriage return that stood before its line feed.
pub open spec fn without_carriage_return(line: Seq<char>) -> Seq<char> {
    if line.len() > 0 && line.last() == '\r' {
        line.drop_last()
    } else {
        line
    }
}

/// The lines of a text. A line ends at a line feed, or at a carriage return
/// followed by a line feed; neither belongs to the line. A last line needs no
/// ending, and a text that ends in one has no further, empty line.
pub open spec fn split_lines(s: Seq<char>) -> Seq<Seq<char>>
    decreases s.len(),
{
    if s.len() == 0 {
        Seq::empty()
    } else {
        let at = first_line_feed(s);
        if at >= s.len() {
            seq![s]
        } else {
            seq![without_carriage_return(s.take(at as int))] + split_lines(s.skip(at as int + 1))
        }
    }
}

/// The parts in order, with `sep` between each two neighbours.
pub open spec fn joined(parts: Seq<Seq<char>>, sep: Seq<char>) -> Seq<char>
    decreases parts.len(),
{
    if parts.len() == 0 {
        Seq::empty()
    } else if parts.len() == 1 {
        parts[0]
    } else {
        joined(parts.drop_last(), sep) + sep + parts.last()
    }
}

/// Whether a character is white space, as Unicode defines it: a tab, line
/// feed, vertical tab, form feed or carriage return, a space, a next-line
/// mark, a no-break space, or one of the spaces and separators of the
/// general punctuation and ideographic blocks.
pub open spec fn is_white_space(c: char) -> bool {
    let v = c as u32;
    ||| 0x09 <= v <= 0x0D
    ||| v == 0x20
    ||| v == 0x85
    ||| v == 0xA0
    ||| v == 0x1680
    ||| 0x2000 <= v <= 0x200A
    ||| v == 0x2028
    ||| v == 0x2029
    ||| v == 0x202F
    ||| v == 0x205F
    ||| v == 0x3000
}

/// The words that have ended among the first `n` characters of a text, and
/// the word that is open after them.
pub open spec fn words_within(s: Seq<char>, n: nat) -> (Seq<Seq<char>>, Seq<char>)
    decreases n,
{
    if n == 0 {
        (Seq::empty(), Seq::empty())
    } else {
        let (done, open) = words_within(s, (n - 1) as nat);
        if !is_white_space(s[n - 1]) {
            (done, open.push(s[n - 1]))
        } else if open.len() > 0 {
            (done.push(open), Seq::empty())
        } else {
            (done, open)
        }
    }
}

/// The words of a text: its maximal runs of characters that are not white
/// space, in order.
pub open spec fn words_of(s: Seq<char>) -> Seq<Seq<char>> {
    let (done, open) = words_within(s, s.len());
    if open.len() > 0 {
        done.push(open)
    } else {
        done
    }
}

/// The number of white-space characters at the beginning of a text.
pub open spec fn leading_white(s: Seq<char>) -> nat
    decreases s.len(),
{
    if s.len() == 0 || !is_white_space(s[0]) {
        0
    } else {
        1 + leading_white(s.skip(1))
    }
}

/// The number of white-space characters at the end of a text.
pub open spec fn trailing_white(s: Seq<char>) -> nat
    decreases s.len(),
{
    if s.len() == 0 || !is_white_space(s.last()) {
        0
    } else {
        1 + trailing_white(s.drop_last())
    }
}

/// A text without the white space at its two ends.
pub open spec fn trimmed(s: Seq<char>) -> Seq<char> {
    if leading_white(s) == s.len() {
        Seq::empty()
    } else {
        s.subrange(leading_white(s) as int, s.len() - trailing_white(s))
    }
}

/// The length of a text in bytes of UTF-8, the unit in which a cursor
/// counts.
pub open spec fn byte_len(s: Seq<char>) -> nat {
    vstd::utf8::encode_utf8(s).len()
}

/// The first `k` characters of `s` take up exactly `at` bytes.
pub open spec fn is_prefix_of_bytes(s: Seq<char>, k: int, at: int) -> bool {
    0 <= k <= s.len() && byte_len(s.take(k)) == at
}

/// The byte position `at` lies between two characters of `s`, or at one of
/// its ends: it is a character boundary of the text's encoding.
pub open spec fn on_boundary(s: Seq<char>, at: int) -> bool {
    vstd::utf8::is_char_boundary(vstd::utf8::encode_utf8(s), at)
}

/// The number of characters of `s` that stand before the byte position
/// `at`.
pub open spec fn chars_before(s: Seq<char>, at: int) -> int {
    choose|k: int| is_prefix_of_bytes(s, k, at)
}

/// `s` with `c` put in at the byte position `at`.
pub open spec fn inserted(s: Seq<char>, at: int, c: char) -> Seq<char> {
    s.take(chars_before(s, at)).push(c) + s.skip(chars_before(s, at))
}

/// `s` without the character that starts at the byte position `at`.
pub open spec fn removed(s: Seq<char>, at: int) -> Seq<char> {
    s.take(chars_before(s, at)) + s.skip(chars_before(s, at) + 1)
}

/// `c` is one of the ten decimal digits.
pub open spec fn is_digit(c: char) -> bool {
    '0' as int <= c as int <= '9' as int
}

/// The number that a run of decimal digits spells.
pub open spec fn digits_value(s: Seq<char>) -> nat
    decreases s.len(),
{
    if s.len() == 0 {
        0
    } else {
        digits_value(s.drop_last()) * 10 + (s.last() as int - '0' as int) as nat
    }
}

/// A numeral without the plus sign that may stand before it.
pub open spec fn unsigned_part(s: Seq<char>) -> Seq<char> {
    if s.len() > 0 && s[0] == '+' {
        s.skip(1)
    } else {
        s
    }
}

/// Every character of the text is a decimal digit.
pub open spec fn all_digits(s: Seq<char>) -> bool {
    forall|i: int| 0 <= i < s.len() ==> is_digit(#[trigger] s[i])
}

/// The 16-bit number that a text spells: an optional plus sign, then at
/// least one decimal digit and nothing else, with a value of at most 65535.
pub open spec fn parsed_u16(s: Seq<char>) -> Option<u16> {
    let body = unsigned_part(s);
    if body.len() > 0 && all_digits(body) && digits_value(body) <= u16::MAX {
        Some(digits_value(body) as u16)
    } else {
        None
    }
}

/// `str::to_lowercase`: the result is the lower-case form of the argument.
#[verifier::external_body]
pub(crate) fn to_lower(s: &str) -> (r: String)
    ensures
        r@ == lowercase(s@),
{
    s.to_lowercase()
}

/// `String::push`: the character goes on at the end.
#[verifier::external_body]
pub(crate) fn push_char(text: &mut String, c: char)
    ensures
        final(text)@ == old(text)@.push(c),
{
    text.push(c);
}

/// The characters from one position up to another, as a string.
fn text_between(chars: &Vec<char>, from: usize, to: usize) -> (r: String)
    requires
        from <= to <= chars.len(),
    ensures
        r@ == chars@.subrange(from as int, to as int),
{
    let mut out = String::new();
    let mut i: usize = from;
    assert(out@ =~= chars@.subrange(from as int, from as int));
    while i < to
        invariant
            from <= i <= to <= chars.len(),
            out@ == chars@.subrange(from as int, i as int),
        decreases to - i,
    {
        push_char(&mut out, chars[i]);
        i += 1;
        assert(out@ =~= chars@.subrange(from as int, i as int));
    }
    out
}

/// A line feed before which the text has no other is the first.
pub proof fn lemma_first_line_feed_found(s: Seq<char>, at: int)
    requires
        0 <= at < s.len(),
        s[at] == '\n',
        forall|j: int| 0 <= j < at ==> s[j] != '\n',
    ensures
        first_line_feed(s) == at,
    decreases at,
{
    if at > 0 {
        let rest = s.skip(1);
        assert(rest[at - 1] == s[at]);
        assert forall|j: int| 0 <= j < at - 1 implies rest[j] != '\n' by {
            assert(rest[j] == s[j + 1]);
        }
        lemma_first_line_feed_found(rest, at - 1);
    }
}

/// In a text without line feed, the search for one runs to the end.
pub proof fn lemma_no_line_feed(s: Seq<char>)
    requires
        forall|j: int| 0 <= j < s.len() ==> s[j] != '\n',
    ensures
        first_line_feed(s) == s.len(),
    decreases s.len(),
{
    if s.len() > 0 {
        let rest = s.skip(1);
        assert forall|j: int| 0 <= j < rest.len() implies rest[j] != '\n' by {
            assert(rest[j] == s[j + 1]);
        }
        lemma_no_line_feed(rest);
    }
}

/// The lines of a text, each in a string of its own.
pub fn lines_of(text: &str) -> (r: Vec<String>)
    ensures
        texts(r@) == split_lines(text@),
{
    let chars = chars_of(text);
    let mut lines: Vec<String> = Vec::new();
    let mut from: usize = 0;
    let mut i: usize = 0;
    assert(text@.skip(0) =~= text@);
    assert(texts(lines@) + split_lines(text@) =~= split_lines(text@));
    while i < chars.len()
        invariant
            chars@ == text@,
            from <= i <= chars.len(),
            forall|j: int| from <= j < i ==> chars@[j] != '\n',
            split_lines(text@) == texts(lines@) + split_lines(text@.skip(from as int)),
        decreases chars.len() - i,
    {
        if chars[i] == '\n' {
            let end: usize = if i > from && chars[i - 1] == '\r' {
                i - 1
            } else {
                i
            };
            let line = text_between(&chars, from, end);
            proof {
                let rest = text@.skip(from as int);
                let at = i - from;
                assert(rest[at] == text@[i as int]);
                assert forall|j: int| 0 <= j < at implies rest[j] != '\n' by {
                    assert(rest[j] == text@[from + j]);
                }
                lemma_first_line_feed_found(rest, at);
                assert(rest.take(at) =~= text@.subrange(from as int, i as int));
                assert(rest.skip(at + 1) =~= text@.skip(i + 1));
                if at > 0 {
                    assert(rest.take(at).last() == text@[i - 1]);
                }
                assert(without_carriage_return(rest.take(at)) =~= text@.subrange(
                    from as int,
                    end as int,
                ));
                assert(split_lines(rest) == seq![line@] + split_lines(text@.skip(i + 1)));
            }
            let ghost before = lines@;
            lines.push(line);
            assert(texts(lines@) =~= texts(before).push(line@));
            assert(texts(lines@) + split_lines(text@.skip(i + 1)) =~= texts(before) + (seq![
                line@,
            ] + split_lines(text@.skip(i + 1))));
            from = i + 1;
        }
        i += 1;
    }
    if from < chars.len() {
        let line = text_between(&chars, from, chars.len());
        proof {
            let rest = text@.skip(from as int);
            assert forall|j: int| 0 <= j < rest.len() implies rest[j] != '\n' by {
                assert(rest[j] == text@[from + j]);
            }
            lemma_no_line_feed(rest);
            assert(rest =~= text@.subrange(from as int, text@.len() as int));
            assert(split_lines(rest) == seq![line@]);
        }
        let ghost before = lines@;
        lines.push(line);
        assert(texts(lines@) =~= texts(before) + seq![line@]);
    } else {
        assert(text@.skip(from as int).len() == 0);
        assert(texts(lines@) + split_lines(text@.skip(from as int)) =~= texts(lines@));
    }
    lines
}

/// Whether a character is white space.
pub fn is_whitespace(c: char) -> (b: bool)
    ensures
        b == is_white_space(c),
{
    let v: u32 = c as u32;
    (0x09 <= v && v <= 0x0D) || v == 0x20 || v == 0x85 || v == 0xA0 || v == 0x1680 || (0x2000 <= v
        && v <= 0x200A) || v == 0x2028 || v == 0x2029 || v == 0x202F || v == 0x205F || v == 0x3000
}

/// The words of a text, each in a string of its own.
pub fn split_words(text: &str) -> (r: Vec<String>)
    ensures
        texts(r@) == words_of(text@),
{
    let chars = chars_of(text);
    let mut words: Vec<String> = Vec::new();
    let mut open = String::new();
    let mut filled = false;
    let mut i: usize = 0;
    assert(texts(words@) =~= Seq::empty());
    while i < chars.len()
        invariant
            chars@ == text@,
            i <= chars.len(),
            texts(words@) == words_within(text@, i as nat).0,
            open@ == words_within(text@, i as nat).1,
            filled == (open@.len() > 0),
        decreases chars.len() - i,
    {
        let c = chars[i];
        if !is_whitespace(c) {
            push_char(&mut open, c);
            filled = true;
        } else if filled {
            let ghost before = words@;
            words.push(open);
            assert(texts(words@) =~= texts(before).push(open@));
            open = String::new();
            filled = false;
        }
        i += 1;
    }
    if filled {
        let ghost before = words@;
        words.push(open);
        assert(texts(words@) =~= texts(before).push(open@));
    }
    words
}

/// White space that runs up to a character of another kind, or to the
/// end, is all the white space a text begins with.
pub proof fn lemma_leading_white_found(s: Seq<char>, at: int)
    requires
        0 <= at <= s.len(),
        forall|j: int| 0 <= j < at ==> is_white_space(#[trigger] s[j]),
        at < s.len() ==> !is_white_space(s[at]),
    ensures
        leading_white(s) == at,
    decreases at,
{
    if at > 0 {
        let rest = s.skip(1);
        assert(is_white_space(s[0]));
        assert forall|j: int| 0 <= j < at - 1 implies is_white_space(#[trigger] rest[j]) by {
            assert(rest[j] == s[j + 1]);
        }
        if at < s.len() {
            assert(rest[at - 1] == s[at]);
        }
        lemma_leading_white_found(rest, at - 1);
    }
}

/// White space that runs back from the end to a character of another
/// kind, or to the beginning, is all the white space a text ends with.
pub proof fn lemma_trailing_white_found(s: Seq<char>, count: int)
    requires
        0 <= count <= s.len(),
        forall|j: int| s.len() - count <= j < s.len() ==> is_white_space(#[trigger] s[j]),
        count < s.len() ==> !is_white_space(s[s.len() - count - 1]),
    ensures
        trailing_white(s) == count,
    decreases count,
{
    if count > 0 {
        let rest = s.drop_last();
        assert(is_white_space(s[s.len() - 1]));
        assert forall|j: int| rest.len() - (count - 1) <= j < rest.len() implies is_white_space(
            #[trigger] rest[j],
        ) by {
            assert(rest[j] == s[j]);
        }
        if count < s.len() {
            assert(rest[rest.len() - (count - 1) - 1] == s[s.len() - count - 1]);
        }
        lemma_trailing_white_found(rest, count - 1);
    }
}

/// A text without the white space at its two ends, in a string of its own.
pub fn trim_text(text: &str) -> (r: String)
    ensures
        r@ == trimmed(text@),
{
    let chars = chars_of(text);
    let mut first: usize = 0;
    while first < chars.len() && is_whitespace(chars[first])
        invariant
            first <= chars.len(),
            forall|j: int| 0 <= j < first ==> is_white_space(#[trigger] chars@[j]),
        decreases chars.len() - first,
    {
        first += 1;
    }
    proof {
        lemma_leading_white_found(chars@, first as int);
    }
    if first == chars.len() {
        return String::new();
    }
    let mut end: usize = chars.len();
    while end > first + 1 && is_whitespace(chars[end - 1])
        invariant
            first < end <= chars.len(),
            !is_white_space(chars@[first as int]),
            forall|j: int| end <= j < chars.len() ==> is_white_space(#[trigger] chars@[j]),
        decreases end,
    {
        end -= 1;
    }
    proof {
        lemma_trailing_white_found(chars@, chars.len() - end);
    }
    text_between(&chars, first, end)
}

/// Whether a byte position is the start of a character of the text, or
/// its end.
pub fn at_boundary(text: &str, at: usize) -> (b: bool)
    ensures
        b == on_boundary(text@, at as int),
{
    text.is_char_boundary(at)
}

/// `String::insert`: puts the character in at a byte position that lies on
/// a boundary.
#[verifier::external_body]
pub(crate) fn insert_char(text: &mut String, at: usize, c: char)
    requires
        on_boundary(old(text)@, at as int),
    ensures
        final(text)@ == inserted(old(text)@, at as int, c),
{
    text.insert(at, c);
}

/// `String::remove`: takes out the character that starts at a byte
/// position inside the text.
#[verifier::external_body]
pub(crate) fn remove_char(text: &mut String, at: usize)
    requires
        on_boundary(old(text)@, at as int),
        at < byte_len(old(text)@) as usize,
    ensures
        final(text)@ == removed(old(text)@, at as int),
{
    text.remove(at);
}

/// The characters of a text.
pub fn chars_of(text: &str) -> (v: Vec<char>)
    ensures
        v@ == text@,
{
    let mut out: Vec<char> = Vec::new();
    for c in it: text.chars()
        invariant
            out@ == it.seq().take(it.index() as int),
            it.seq() == text@,
    {
        out.push(c);
    }
    out
}

/// Whether `needle` occurs somewhere in `hay`.
pub fn contains_text(hay: &str, needle: &str) -> (b: bool)
    ensures
        b == has_substring(hay@, needle@),
{
    let h = chars_of(hay);
    let n = chars_of(needle);
    if n.len() > h.len() {
        return false;
    }
    let last = h.len() - n.len();
    let mut i: usize = 0;
    while i <= last
        invariant
            h@ == hay@,
            n@ == needle@,
            last == h.len() - n.len(),
            i <= last + 1,
            forall|k: int| 0 <= k < i ==> #[trigger] h@.subrange(k, k + n.len()) != n@,
        decreases last + 1 - i,
    {
        let mut j: usize = 0;
        while j < n.len() && h[i + j] == n[j]
            invariant
                i <= last,
                last == h.len() - n.len(),
                j <= n.len(),
                forall|m: int| 0 <= m < j ==> h@[i + m] == n@[m],
            decreases n.len() - j,
        {
            j += 1;
        }
        if j == n.len() {
            assert(h@.subrange(i as int, i + n.len()) =~= n@);
            return true;
        }
        assert(h@.subrange(i as int, i + n.len())[j as int] != n@[j as int]);
        i += 1;
    }
    false
}

/// The value of a decimal digit.
fn digit_of(c: char) -> (r: Option<u32>)
    ensures
        r is Some <==> is_digit(c),
        r matches Some(d) ==> d == c as int - '0' as int,
{
    if c == '0' {
        Some(0)
    } else if c == '1' {
        Some(1)
    } else if c == '2' {
        Some(2)
    } else if c == '3' {
        Some(3)
    } else if c == '4' {
        Some(4)
    } else if c == '5' {
        Some(5)
    } else if c == '6' {
        Some(6)
    } else if c == '7' {
        Some(7)
    } else if c == '8' {
        Some(8)
    } else if c == '9' {
        Some(9)
    } else {
        None
    }
}

/// A run of decimal digits spells no less than any of its beginnings.
pub proof fn lemma_digits_value_grows(s: Seq<char>, k: int)
    requires
        0 <= k <= s.len(),
        all_digits(s),
    ensures
        digits_value(s.take(k)) <= digits_value(s),
    decreases s.len() - k,
{
    if k == s.len() {
        assert(s.take(k) =~= s);
    } else {
        assert forall|i: int| 0 <= i < s.drop_last().len() implies is_digit(
            #[trigger] s.drop_last()[i],
        ) by {
            assert(s.drop_last()[i] == s[i]);
        }
        lemma_digits_value_grows(s.drop_last(), k);
        assert(s.drop_last().take(k) =~= s.take(k));
        assert(is_digit(s.last()));
    }
}

/// The 16-bit number that a text spells, if it spells one.
pub fn parse_u16(text: &str) -> (r: Option<u16>)
    ensures
        r == parsed_u16(text@),
{
    let chars = chars_of(text);
    let start: usize = if chars.len() > 0 && chars[0] == '+' {
        1
    } else {
        0
    };
    let ghost body = unsigned_part(text@);
    assert(body =~= chars@.skip(start as int));
    if start == chars.len() {
        return None;
    }
    let mut value: u32 = 0;
    let mut i: usize = start;
    assert(body.take(0) =~= Seq::<char>::empty());
    while i < chars.len()
        invariant
            start <= i <= chars.len(),
            start < chars.len(),
            body == unsigned_part(text@),
            body == chars@.skip(start as int),
            forall|k: int| 0 <= k < i - start ==> is_digit(#[trigger] body[k]),
            value == digits_value(body.take(i - start)),
            value <= u16::MAX,
        decreases chars.len() - i,
    {
        assert(body[i - start] == chars@[i as int]);
        let digit = match digit_of(chars[i]) {
            Some(d) => d,
            None => {
                assert(!is_digit(body[i - start]));
                return None;
            },
        };
        let ghost before = body.take(i - start);
        let ghost after = body.take(i - start + 1);
        assert(after.drop_last() =~= before);
        assert(after.last() == chars@[i as int]);
        value = value * 10 + digit;
        i += 1;
        if value > 65535 {
            proof {
                if all_digits(body) {
                    lemma_digits_value_grows(body, i - start);
                }
            }
            return None;
        }
    }
    assert(body.take(body.len() as int) =~= body);
    assert(all_digits(body));
    Some(value as u16)
}

/// The text of one decimal digit.
fn digit_text(d: u64) -> (r: &'static str)
    requires
        d < 10,
    ensures
        r@ == seq![digits()[d as int]],
{
    proof {
        reveal_strlit("0");
        reveal_strlit("1");
        reveal_strlit("2");
        reveal_strlit("3");
        reveal_strlit("4");
        reveal_strlit("5");
        reveal_strlit("6");
        reveal_strlit("7");
        reveal_strlit("8");
        reveal_strlit("9");
    }
    let r = if d == 0 {
        "0"
    } else if d == 1 {
        "1"
    } else if d == 2 {
        "2"
    } else if d == 3 {
        "3"
    } else if d == 4 {
        "4"
    } else if d == 5 {
        "5"
    } else if d == 6 {
        "6"
    } else if d == 7 {
        "7"
    } else if d == 8 {
        "8"
    } else {
        "9"
    };
    assert(r@ =~= seq![digits()[d as int]]);
    r
}

/// The decimal numeral of a number.
pub fn decimal_text(n: u64) -> (r: String)
    ensures
        r@ == decimal(n as nat),
    decreases n,
{
    if n < 10 {
        String::from_str(digit_text(n))
    } else {
        let mut out = decimal_text(n / 10);
        out.append(digit_text(n % 10));
        assert(out@ =~= decimal((n / 10) as nat).push(digits()[(n % 10) as int]));
        out
    }
}

/// Whether `hay` contains `needle_lower` once `hay` is put in lower case.
pub fn contains_ignoring_case(hay: &str, needle_lower: &str) -> (b: bool)
    ensures
        b == has_substring(lowercase(hay@), needle_lower@),
{
    let lowered = to_lower(hay);
    contains_text(lowered.as_str(), needle_lower)
}

/// Whether a string holds exactly the given text.
pub fn text_is(s: &String, expected: &str) -> (b: bool)
    ensures
        b == (s@ == expected@),
{
    let other = String::from_str(expected);
    *s == other
}

/// Whether a text is empty.
pub fn is_empty_text(s: &str) -> (b: bool)
    ensures
        b == (s@.len() == 0),
{
    s.is_empty()
}

/// A copy of an optional string.
pub fn copy_opt_text(o: &Option<String>) -> (r: Option<String>)
    ensures
        opt_text(r) == opt_text(*o),
{
    match o {
        Some(s) => Some(s.clone()),
        None => None,
    }
}

/// A copy of a list of strings.
pub fn copy_texts(v: &Vec<String>) -> (r: Vec<String>)
    ensures
        texts(r@) == texts(v@),
{
    let mut out: Vec<String> = Vec::new();
    let mut i: usize = 0;
    while i < v.len()
        invariant
            i <= v.len(),
            out@.len() == i,
            forall|k: int| 0 <= k < i ==> out@[k]@ == v@[k]@,
        decreases v.len() - i,
    {
        out.push(v[i].clone());
        i += 1;
    }
    assert(texts(out@) =~= texts(v@));
    out
}

/// The strings from index `from` on, joined with `sep` between neighbours;
/// the empty text where `from` lies beyond the last of them.
pub fn join_from(parts: &Vec<String>, from: usize, sep: &str) -> (r: String)
    ensures
        r@ == if from <= parts.len() {
            joined(texts(parts@).subrange(from as int, parts.len() as int), sep@)
        } else {
            Seq::empty()
        },
{
    let mut out = String::new();
    if from > parts.len() {
        return out;
    }
    let mut i: usize = from;
    let ghost all = texts(parts@);
    assert(joined(all.subrange(from as int, from as int), sep@) == Seq::<char>::empty());
    while i < parts.len()
        invariant
            from <= i <= parts.len(),
            all == texts(parts@),
            out@ == joined(all.subrange(from as int, i as int), sep@),
        decreases parts.len() - i,
    {
        let ghost before = all.subrange(from as int, i as int);
        let ghost after = all.subrange(from as int, i + 1);
        assert(after.drop_last() =~= before);
        assert(after.last() == parts@[i as int]@);
        if i > from {
            out.append(sep);
        } else {
            assert(out@ + parts@[i as int]@ =~= parts@[i as int]@);
        }
        out.append(parts[i].as_str());
        i += 1;
    }
    out
}

} // verus!
