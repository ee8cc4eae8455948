//! Text as sequences of characters: lines, trimming, numbers and columns.

use vstd::prelude::*;

verus! {

/// `String::push` puts the character behind the text and changes nothing else.
pub assume_specification[ String::push ](s: &mut String, ch: char)
    ensures
        final(s)@ == old(s)@.push(ch),
;

/// The characters that have Unicode's `White_Space` property.
pub open spec fn is_blank(c: char) -> bool {
    let n = c as u32;
    ||| 0x09 <= n <= 0x0d
    ||| n == 0x20
    ||| n == 0x85
    ||| n == 0xa0
    ||| n == 0x1680
    ||| 0x2000 <= n <= 0x200a
    ||| n == 0x2028
    ||| n == 0x2029
    ||| n == 0x202f
    ||| n == 0x205f
    ||| n == 0x3000
}

/// A text without the blanks at its start.
pub open spec fn trim_start(s: Seq<char>) -> Seq<char>
    decreases s.len(),
{
    if s.len() > 0 && is_blank(s[0]) {
        trim_start(s.drop_first())
    } else {
        s
    }
}

/// A text without the blanks at its end.
pub open spec fn trim_end(s: Seq<char>) -> Seq<char>
    decreases s.len(),
{
    if s.len() > 0 && is_blank(s.last()) {
        trim_end(s.drop_last())
    } else {
        s
    }
}

/// A text without the blanks around it.
pub open spec fn trim(s: Seq<char>) -> Seq<char> {
    trim_end(trim_start(s))
}

/// A line without the carriage return that belongs to its line feed.
pub open spec fn chop(line: Seq<char>) -> Seq<char> {
    if line.len() > 0 && line.last() == '\r' {
        line.drop_last()
    } else {
        line
    }
}

/// How many characters stand before the first line feed, or in all.
pub open spec fn line_end(s: Seq<char>) -> nat
    decreases s.len(),
{
    if s.len() == 0 || s[0] == '\n' {
        0
    } else {
        1 + line_end(s.drop_first())
    }
}

/// The lines of a text. A line ends at a line feed, a carriage return right
/// before it belongs to the ending, and the last line needs no ending.
pub open spec fn lines(s: Seq<char>) -> Seq<Seq<char>>
    decreases s.len(),
{
    if s.len() == 0 {
        Seq::empty()
    } else if line_end(s) >= s.len() {
        seq![s]
    } else {
        seq![chop(s.take(line_end(s) as int))] + lines(s.skip(line_end(s) as int + 1))
    }
}

/// The texts that strings hold.
pub open spec fn views(v: Seq<String>) -> Seq<Seq<char>> {
    v.map_values(|s: String| s@)
}

/// The decimal digit of a number below ten.
pub open spec fn digit(d: nat) -> char {
    ('0' as u32 + d) as char
}

/// A number in decimal.
pub open spec fn decimal(n: nat) -> Seq<char>
    decreases n,
{
    if n < 10 {
        seq![digit(n)]
    } else {
        decimal(n / 10).push(digit(n % 10))
    }
}

/// A number in decimal, with a minus sign where it is negative.
pub open spec fn decimal_signed(n: int) -> Seq<char> {
    if n < 0 {
        seq!['-'] + decimal((-n) as nat)
    } else {
        decimal(n as nat)
    }
}

/// So many spaces.
pub open spec fn spaces(n: int) -> Seq<char> {
    Seq::new(if n < 0 { 0 } else { n as nat }, |i: int| ' ')
}

/// A text moved to the right end of a column.
pub open spec fn right(s: Seq<char>, width: nat) -> Seq<char> {
    spaces(width - s.len()) + s
}

/// A text at the left end of a column.
pub open spec fn left(s: Seq<char>, width: nat) -> Seq<char> {
    s + spaces(width - s.len())
}

/// Texts one behind the other, with a separator between each two.
pub open spec fn join(parts: Seq<Seq<char>>, separator: Seq<char>) -> Seq<char>
    decreases parts.len(),
{
    if parts.len() == 0 {
        Seq::empty()
    } else if parts.len() == 1 {
        parts[0]
    } else {
        join(parts.drop_last(), separator) + separator + parts.last()
    }
}

/// Tells whether a character has the `White_Space` property.
pub fn blank(c: char) -> (r: bool)
    ensures
        r == is_blank(c),
{
    let n: u32 = c as u32;
    (0x09 <= n && n <= 0x0d) || n == 0x20 || n == 0x85 || n == 0xa0 || n == 0x1680 || (0x2000 <= n
        && n <= 0x200a) || n == 0x2028 || n == 0x2029 || n == 0x202f || n == 0x205f || n == 0x3000
}

/// The characters of a text, one by one.
pub fn chars_of(text: &str) -> (r: Vec<char>)
    ensures
        r@ == text@,
{
    let mut out: Vec<char> = Vec::new();
    for c in it: text.chars()
        invariant
            out@ == it.seq().take(it.index()),
            it.seq() == text@,
    {
        out.push(c);
    }
    out
}

proof fn lemma_line_end(s: Seq<char>, k: int)
    requires
        0 <= k <= s.len(),
        forall|j: int| 0 <= j < k ==> s[j] != '\n',
        k < s.len() ==> s[k] == '\n',
    ensures
        line_end(s) == k,
    decreases k,
{
    if k > 0 {
        assert forall|j: int| 0 <= j < k - 1 implies s.drop_first()[j] != '\n' by {
            assert(s.drop_first()[j] == s[j + 1]);
        }
        lemma_line_end(s.drop_first(), k - 1);
    }
}

proof fn lemma_trim_start(s: Seq<char>, k: int)
    requires
        0 <= k <= s.len(),
        forall|j: int| 0 <= j < k ==> is_blank(s[j]),
        k < s.len() ==> !is_blank(s[k]),
    ensures
        trim_start(s) == s.skip(k),
    decreases k,
{
    if k == 0 {
        assert(s.skip(0) =~= s);
    } else {
        assert forall|j: int| 0 <= j < k - 1 implies is_blank(s.drop_first()[j]) by {
            assert(s.drop_first()[j] == s[j + 1]);
        }
        lemma_trim_start(s.drop_first(), k - 1);
        assert(s.drop_first().skip(k - 1) =~= s.skip(k));
    }
}

proof fn lemma_trim_end(s: Seq<char>, k: int)
    requires
        0 <= k <= s.len(),
        forall|j: int| k <= j < s.len() ==> is_blank(s[j]),
        k > 0 ==> !is_blank(s[k - 1]),
    ensures
        trim_end(s) == s.take(k),
    decreases s.len() - k,
{
    if k == s.len() {
        assert(s.take(k) =~= s);
    } else {
        lemma_trim_end(s.drop_last(), k);
        assert(s.drop_last().take(k) =~= s.take(k));
    }
}

/// The text that a stretch of characters spells.
pub fn spell(chars: &Vec<char>, from: usize, to: usize) -> (r: String)
    requires
        from <= to <= chars.len(),
    ensures
        r@ == chars@.subrange(from as int, to as int),
{
    let mut out = String::new();
    let mut i: usize = from;
    while i < to
        invariant
            from <= i <= to <= chars.len(),
            out@ == chars@.subrange(from as int, i as int),
        decreases to - i,
    {
        out.push(chars[i]);
        i = i + 1;
        assert(chars@.subrange(from as int, i as int) =~= chars@.subrange(
            from as int,
            i - 1,
        ).push(chars@[i - 1]));
    }
    out
}

/// The text without the blanks around it.
pub fn trimmed(text: &str) -> (r: String)
    ensures
        r@ == trim(text@),
{
    let chars = chars_of(text);
    let mut from: usize = 0;
    while from < chars.len() && blank(chars[from])
        invariant
            from <= chars.len(),
            forall|j: int| 0 <= j < from ==> is_blank(#[trigger] chars@[j]),
        decreases chars.len() - from,
    {
        from = from + 1;
    }
    let mut to: usize = chars.len();
    while to > from && blank(chars[to - 1])
        invariant
            from <= to <= chars.len(),
            forall|j: int| to <= j < chars.len() ==> is_blank(#[trigger] chars@[j]),
        decreases to,
    {
        to = to - 1;
    }
    proof {
        lemma_trim_start(chars@, from as int);
        lemma_trim_end(chars@.skip(from as int), to - from);
        assert(chars@.skip(from as int).take(to - from) =~= chars@.subrange(from as int, to as int));
    }
    spell(&chars, from, to)
}

/// The lines of a text, without their endings.
pub fn lines_of(text: &str) -> (r: Vec<String>)
    ensures
        views(r@) == lines(text@),
{
    let chars = chars_of(text);
    let mut out: Vec<String> = Vec::new();
    let mut start: usize = 0;
    let mut i: usize = 0;
    assert(chars@.skip(0) =~= chars@);
    assert(views(out@) + lines(chars@.skip(0)) =~= lines(chars@));
    while i < chars.len()
        invariant
            start <= i <= chars.len(),
            forall|j: int| start <= j < i ==> #[trigger] chars@[j] != '\n',
            views(out@) + lines(chars@.skip(start as int)) == lines(chars@),
        decreases chars.len() - i,
    {
        if chars[i] == '\n' {
            let ghost rest = chars@.skip(start as int);
            let ghost before = out@;
            let end: usize = if i > start && chars[i - 1] == '\r' {
                i - 1
            } else {
                i
            };
            out.push(spell(&chars, start, end));
            proof {
                lemma_line_end(rest, i - start);
                assert(chop(rest.take(i - start)) =~= chars@.subrange(start as int, end as int));
                assert(rest.skip(i - start + 1) =~= chars@.skip(i + 1));
                assert(views(out@) =~= views(before).push(chars@.subrange(start as int, end as int)));
                assert(views(out@) + lines(chars@.skip(i + 1)) =~= views(before) + lines(rest));
            }
            start = i + 1;
        }
        i = i + 1;
    }
    let ghost rest = chars@.skip(start as int);
    if start < chars.len() {
        let ghost before = out@;
        out.push(spell(&chars, start, chars.len()));
        proof {
            lemma_line_end(rest, rest.len() as int);
            assert(chars@.subrange(start as int, chars@.len() as int) =~= rest);
            assert(views(out@) =~= views(before) + seq![rest]);
        }
    } else {
        assert(views(out@) + lines(rest) =~= views(out@));
    }
    out
}

/// Puts a number in decimal behind a text.
pub fn push_decimal(out: &mut String, n: u64)
    ensures
        final(out)@ == old(out)@ + decimal(n as nat),
    decreases n,
{
    let last: u8 = 48 + (n % 10) as u8;
    if n >= 10 {
        push_decimal(out, n / 10);
    }
    out.push(last as char);
    assert(out@ =~= old(out)@ + decimal(n as nat));
}

/// Puts a number in decimal, with its sign, behind a text.
pub fn push_signed(out: &mut String, n: i64)
    ensures
        final(out)@ == old(out)@ + decimal_signed(n as int),
{
    if n < 0 {
        out.push('-');
        let magnitude: u64 = (-(n as i128)) as u64;
        push_decimal(out, magnitude);
        assert(out@ =~= old(out)@ + (seq!['-'] + decimal((-n) as nat)));
    } else {
        push_decimal(out, n as u64);
    }
}

/// Puts spaces behind a text.
fn push_spaces(out: &mut String, n: usize)
    ensures
        final(out)@ == old(out)@ + spaces(n as int),
{
    let mut i: usize = 0;
    assert(out@ =~= old(out)@ + spaces(0));
    while i < n
        invariant
            i <= n,
            out@ == old(out)@ + spaces(i as int),
        decreases n - i,
    {
        out.push(' ');
        i = i + 1;
        assert(out@ =~= old(out)@ + spaces(i as int));
    }
}

/// Puts a text at the right end of a column of the given width.
pub fn push_right(out: &mut String, text: &str, width: usize)
    ensures
        final(out)@ == old(out)@ + right(text@, width as nat),
{
    let len: usize = text.unicode_len();
    if len < width {
        push_spaces(out, width - len);
    }
    out.append(text);
    assert(out@ =~= old(out)@ + right(text@, width as nat));
}

/// Puts a text at the left end of a column of the given width.
pub fn push_left(out: &mut String, text: &str, width: usize)
    ensures
        final(out)@ == old(out)@ + left(text@, width as nat),
{
    let len: usize = text.unicode_len();
    out.append(text);
    if len < width {
        push_spaces(out, width - len);
    }
    assert(out@ =~= old(out)@ + left(text@, width as nat));
}

/// Texts one behind the other, with a separator between each two.
pub fn joined(parts: &Vec<String>, separator: &str) -> (r: String)
    ensures
        r@ == join(views(parts@), separator@),
{
    let mut out = String::new();
    let mut i: usize = 0;
    let ghost all = views(parts@);
    while i < parts.len()
        invariant
            i <= parts.len(),
            all == views(parts@),
            out@ == join(all.take(i as int), separator@),
        decreases parts.len() - i,
    {
        if i > 0 {
            out.append(separator);
        }
        out.append(parts[i].as_str());
        assert(all.take(i + 1).drop_last() =~= all.take(i as int));
        i = i + 1;
    }
    assert(all.take(i as int) =~= all);
    out
}

/// A text between two others.
pub fn between(before: &str, text: &str, after: &str) -> (r: String)
    ensures
        r@ == before@ + text@ + after@,
{
    let mut out = before.to_owned();
    out.append(text);
    out.append(after);
    out
}

/// Two texts, each behind its lead.
pub fn pair(lead: &str, first: &str, link: &str, second: &str) -> (r: String)
    ensures
        r@ == lead@ + first@ + link@ + second@,
{
    let mut out = lead.to_owned();
    out.append(first);
    out.append(link);
    out.append(second);
    out
}

/// A text as `str`'s `Debug` shows it.
pub uninterp spec fn quoted(s: Seq<char>) -> Seq<char>;

/// `Debug` of `str`: the text in quotation marks, with escapes where a character
/// needs one. The result depends on the text alone.
#[verifier::external_body]
pub(crate) fn quote(s: &str) -> (r: String)
    ensures
        r@ == quoted(s@),
{
    format!("{:?}", s)
}

proof fn lemma_line_end_exactly(s: Seq<char>)
    ensures
        line_end(s) <= s.len(),
        forall|j: int| 0 <= j < line_end(s) ==> #[trigger] s[j] != '\n',
        line_end(s) < s.len() ==> s[line_end(s) as int] == '\n',
    decreases s.len(),
{
    if s.len() > 0 && s[0] != '\n' {
        lemma_line_end_exactly(s.drop_first());
        assert forall|j: int| 0 <= j < line_end(s) implies #[trigger] s[j] != '\n' by {
            if j > 0 {
                assert(s[j] == s.drop_first()[j - 1]);
            }
        }
    }
}

/// Lines hold no line feed.
pub proof fn lines_hold_no_break(s: Seq<char>, i: int)
    requires
        0 <= i < lines(s).len(),
    ensures
        !lines(s)[i].contains('\n'),
    decreases s.len(),
{
    lemma_line_end_exactly(s);
    if line_end(s) < s.len() {
        if i > 0 {
            lines_hold_no_break(s.skip(line_end(s) as int + 1), i - 1);
        }
    }
}

/// A line put behind a text that is empty or ends in a line feed becomes its last
/// line.
pub proof fn line_is_put_behind(s: Seq<char>, line: Seq<char>)
    requires
        s.len() > 0 ==> s.last() == '\n',
        !line.contains('\n'),
    ensures
        lines(s + line + seq!['\n']) == lines(s).push(chop(line)),
    decreases s.len(),
{
    let whole = s + line + seq!['\n'];
    if s.len() == 0 {
        assert(forall|j: int| 0 <= j < line.len() ==> line.contains(#[trigger] line[j]));
        lemma_line_end(whole, line.len() as int);
        assert(whole.take(line.len() as int) =~= line);
        assert(whole.skip(line.len() as int + 1) =~= s);
        assert(lines(s) =~= Seq::<Seq<char>>::empty());
        assert(lines(whole) =~= seq![chop(line)] + lines(s));
    } else {
        lemma_line_end_exactly(s);
        let n = line_end(s) as int;
        if n == s.len() {
            assert(s[s.len() - 1] == '\n');
        }
        assert(forall|j: int| 0 <= j < s.len() ==> whole[j] == s[j]);
        lemma_line_end(whole, n);
        let rest = s.skip(n + 1);
        assert(rest.len() > 0 ==> rest.last() == s.last());
        line_is_put_behind(rest, line);
        assert(whole.take(n) =~= s.take(n));
        assert(whole.skip(n + 1) =~= rest + line + seq!['\n']);
        assert(lines(whole) =~= lines(s).push(chop(line)));
    }
}

/// Different numbers are written differently.
pub proof fn decimal_tells_apart(a: nat, b: nat)
    requires
        decimal(a) == decimal(b),
    ensures
        a == b,
    decreases a,
{
    if a >= 10 && b >= 10 {
        assert(decimal(a).drop_last() =~= decimal(a / 10));
        assert(decimal(b).drop_last() =~= decimal(b / 10));
        decimal_tells_apart(a / 10, b / 10);
        assert(decimal(a).last() == digit(a % 10));
        assert(decimal(b).last() == digit(b % 10));
    } else {
        assert(decimal(a).last() == digit(a % 10));
        assert(decimal(b).last() == digit(b % 10));
        lemma_decimal_len(a);
        lemma_decimal_len(b);
    }
}

proof fn lemma_decimal_len(n: nat)
    ensures
        decimal(n).len() >= 1,
        n >= 10 ==> decimal(n).len() >= 2,
    decreases n,
{
    if n >= 10 {
        lemma_decimal_len(n / 10);
    }
}

/// The blanks are these characters and no others: tab, line feed, vertical tab,
/// form feed, carriage return, space, next line, and the spaces and separators
/// beyond ASCII.
pub proof fn blanks_exactly(c: char)
    ensures
        is_blank(c) <==> seq![
            '\t', '\n', '\u{b}', '\u{c}', '\r', ' ', '\u{85}', '\u{a0}', '\u{1680}', '\u{2000}',
            '\u{2001}', '\u{2002}', '\u{2003}', '\u{2004}', '\u{2005}', '\u{2006}', '\u{2007}',
            '\u{2008}', '\u{2009}', '\u{200a}', '\u{2028}', '\u{2029}', '\u{202f}', '\u{205f}',
            '\u{3000}',
        ].contains(c),
{
    let all = seq![
        '\t', '\n', '\u{b}', '\u{c}', '\r', ' ', '\u{85}', '\u{a0}', '\u{1680}', '\u{2000}',
        '\u{2001}', '\u{2002}', '\u{2003}', '\u{2004}', '\u{2005}', '\u{2006}', '\u{2007}',
        '\u{2008}', '\u{2009}', '\u{200a}', '\u{2028}', '\u{2029}', '\u{202f}', '\u{205f}',
        '\u{3000}',
    ];
    let n = c as u32;
    if 0x09 <= n <= 0x0d {
        assert(all[n - 0x09] == c);
    }
    if 0x2000 <= n <= 0x200a {
        assert(all[n - 0x2000 + 9] == c);
    }
    assert(all[5] == ' ' && all[6] == '\u{85}' && all[7] == '\u{a0}' && all[8] == '\u{1680}');
    assert(all[20] == '\u{2028}' && all[21] == '\u{2029}' && all[22] == '\u{202f}');
    assert(all[23] == '\u{205f}' && all[24] == '\u{3000}');
}

/// Trimming takes the blanks off both ends and nothing else: what is left is one
/// stretch of the text, only blanks stand before and behind it, and it neither
/// begins nor ends in one.
pub proof fn trim_exactly(s: Seq<char>)
    ensures
        exists|i: int, j: int|
            {
                &&& 0 <= i <= j <= s.len()
                &&& trim(s) == #[trigger] s.subrange(i, j)
                &&& forall|k: int| 0 <= k < i || j <= k < s.len() ==> is_blank(#[trigger] s[k])
                &&& i < j ==> !is_blank(s[i]) && !is_blank(s[j - 1])
            },
{
    let i = lemma_trim_start_found(s);
    let rest = s.skip(i);
    lemma_trim_start(s, i);
    let n = lemma_trim_end_found(rest);
    lemma_trim_end(rest, n);
    let j = i + n;
    assert(rest.take(n) =~= s.subrange(i, j));
    assert forall|k: int| 0 <= k < i || j <= k < s.len() implies is_blank(#[trigger] s[k]) by {
        if k >= j {
            assert(rest[k - i] == s[k]);
        }
    }
    if i < j {
        assert(rest[n - 1] == s[j - 1]);
    }
}

proof fn lemma_trim_start_found(s: Seq<char>) -> (k: int)
    ensures
        0 <= k <= s.len(),
        forall|j: int| 0 <= j < k ==> is_blank(#[trigger] s[j]),
        k < s.len() ==> !is_blank(s[k]),
    decreases s.len(),
{
    if s.len() > 0 && is_blank(s[0]) {
        let k = lemma_trim_start_found(s.drop_first());
        assert forall|j: int| 0 <= j < k + 1 implies is_blank(#[trigger] s[j]) by {
            if j > 0 {
                assert(s[j] == s.drop_first()[j - 1]);
            }
        }
        k + 1
    } else {
        0
    }
}

proof fn lemma_trim_end_found(s: Seq<char>) -> (k: int)
    ensures
        0 <= k <= s.len(),
        forall|j: int| k <= j < s.len() ==> is_blank(#[trigger] s[j]),
        k > 0 ==> !is_blank(s[k - 1]),
    decreases s.len(),
{
    if s.len() > 0 && is_blank(s.last()) {
        let k = lemma_trim_end_found(s.drop_last());
        assert forall|j: int| k <= j < s.len() implies is_blank(#[trigger] s[j]) by {
            if j < s.len() - 1 {
                assert(s[j] == s.drop_last()[j]);
            }
        }
        if k > 0 {
            assert(s[k - 1] == s.drop_last()[k - 1]);
        }
        k
    } else {
        s.len() as int
    }
}

/// A text that begins and ends in something else than a blank is its own trimmed
/// text, whatever blanks are put around it. So two such texts are the same once
/// trimmed only if they are the same.
pub proof fn blanks_around_are_trimmed(before: Seq<char>, s: Seq<char>, after: Seq<char>)
    requires
        forall|i: int| 0 <= i < before.len() ==> is_blank(#[trigger] before[i]),
        forall|i: int| 0 <= i < after.len() ==> is_blank(#[trigger] after[i]),
        s.len() > 0 ==> !is_blank(s[0]) && !is_blank(s.last()),
    ensures
        trim(before + s + after) == s,
{
    let whole = before + s + after;
    let n = before.len() as int;
    assert forall|j: int| 0 <= j < n implies is_blank(#[trigger] whole[j]) by {
        assert(whole[j] == before[j]);
    }
    if s.len() > 0 {
        assert(whole[n] == s[0]);
        lemma_trim_start(whole, n);
        let rest = whole.skip(n);
        let k = s.len() as int;
        assert forall|j: int| k <= j < rest.len() implies is_blank(#[trigger] rest[j]) by {
            assert(rest[j] == after[j - k]);
        }
        assert(rest[k - 1] == s.last());
        lemma_trim_end(rest, k);
        assert(rest.take(k) =~= s);
    } else {
        assert forall|j: int| 0 <= j < whole.len() implies is_blank(#[trigger] whole[j]) by {
            if j >= n {
                assert(whole[j] == after[j - n]);
            }
        }
        lemma_trim_start(whole, whole.len() as int);
        assert(whole.skip(whole.len() as int) =~= s);
    }
}

/// A text that has no line feed is one line, unless it is empty; an empty text has
/// no lines.
pub proof fn text_without_break_is_one_line(s: Seq<char>)
    requires
        !s.contains('\n'),
    ensures
        s.len() == 0 ==> lines(s).len() == 0,
        s.len() > 0 ==> lines(s) == seq![s],
{
    assert(forall|j: int| 0 <= j < s.len() ==> s.contains(#[trigger] s[j]));
    lemma_line_end(s, s.len() as int);
}

/// What stands before the first line feed is the first line, but for one carriage
/// return right before the line feed. The other lines are those of what stands
/// behind it.
pub proof fn first_line_comes_first(line: Seq<char>, rest: Seq<char>)
    requires
        !line.contains('\n'),
    ensures
        line.len() == 0 || line.last() != '\r' ==> lines(line + seq!['\n'] + rest) == seq![line]
            + lines(rest),
        lines(line + seq!['\r', '\n'] + rest) == seq![line] + lines(rest),
{
    lemma_first_line(line, rest);
    lemma_first_line(line.push('\r'), rest);
    assert(line.push('\r') + seq!['\n'] + rest =~= line + seq!['\r', '\n'] + rest);
    assert(line.push('\r').drop_last() =~= line);
    if line.push('\r').contains('\n') {
        let k = line.push('\r').index_of('\n');
        assert(line[k] == '\n');
    }
}

proof fn lemma_first_line(line: Seq<char>, rest: Seq<char>)
    ensures
        !line.contains('\n') ==> lines(line + seq!['\n'] + rest) == seq![chop(line)] + lines(rest),
{
    if !line.contains('\n') {
        let whole = line + seq!['\n'] + rest;
        assert(forall|j: int| 0 <= j < line.len() ==> line.contains(#[trigger] line[j]));
        assert(forall|j: int| 0 <= j < line.len() ==> whole[j] == line[j]);
        lemma_line_end(whole, line.len() as int);
        assert(whole.take(line.len() as int) =~= line);
        assert(whole.skip(line.len() as int + 1) =~= rest);
    }
}

/// The texts that strings hold, each in its place.
pub proof fn views_exactly(v: Seq<String>, i: int)
    ensures
        views(v).len() == v.len(),
        0 <= i < v.len() ==> views(v)[i] == v[i]@,
{
}

/// A number below ten is its one digit, and a greater one is the number of its
/// tens followed by the digit of its ones.
pub proof fn decimal_digit_by_digit(tens: nat, ones: nat)
    requires
        ones < 10,
    ensures
        decimal(ones) == seq!["0123456789"@[ones as int]],
        tens > 0 ==> decimal(10 * tens + ones) == decimal(tens).push("0123456789"@[ones as int]),
{
    reveal_strlit("0123456789");
    assert("0123456789"@[ones as int] == digit(ones));
    if tens > 0 {
        assert((10 * tens + ones) / 10 == tens);
        assert((10 * tens + ones) % 10 == ones);
    }
}

/// A negative number is its minus sign and the number without it.
pub proof fn sign_comes_first(n: nat)
    ensures
        decimal_signed(n as int) == decimal(n),
        n > 0 ==> decimal_signed(-n) == seq!['-'] + decimal(n),
{
}

/// A column holds the whole text, and spaces on one side of it where the text is
/// shorter than the column.
pub proof fn columns_hold_the_text(s: Seq<char>, width: nat, i: int)
    ensures
        right(s, width).len() == (if s.len() < width { width } else { s.len() }),
        right(s, width).skip(right(s, width).len() - s.len()) == s,
        0 <= i < width - s.len() ==> right(s, width)[i] == ' ',
        left(s, width).len() == right(s, width).len(),
        left(s, width).take(s.len() as int) == s,
        s.len() <= i < width ==> left(s, width)[i] == ' ',
{
    assert(right(s, width).skip(right(s, width).len() - s.len()) =~= s);
    assert(left(s, width).take(s.len() as int) =~= s);
}

/// Joined texts stand whole and in their order, with the separator between the
/// texts of one list and those of the next, and nowhere else.
pub proof fn joined_in_order(
    one: Seq<Seq<char>>,
    other: Seq<Seq<char>>,
    part: Seq<char>,
    separator: Seq<char>,
)
    ensures
        join(Seq::empty(), separator).len() == 0,
        join(seq![part], separator) == part,
        one.len() > 0 && other.len() > 0 ==> join(one + other, separator) == join(one, separator)
            + separator + join(other, separator),
    decreases other.len(),
{
    if one.len() > 0 && other.len() > 0 {
        let all = one + other;
        assert(all.drop_last() =~= one + other.drop_last());
        assert(all.last() == other.last());
        if other.len() == 1 {
            assert(one + other.drop_last() =~= one);
        } else {
            joined_in_order(one, other.drop_last(), part, separator);
            assert(join(all, separator) =~= join(one, separator) + separator + join(other, separator));
        }
    }
}

} // verus!
