//! Text as sequences of characters: the handful of string operations that the
//! provider is written with, each stated over `Seq<char>`.
use vstd::prelude::*;
use vstd::string::*;

verus! {

/// The view of an optional string.
pub open spec fn opt_view(text: Option<String>) -> Option<Seq<char>> {
    match text {
        Some(text) => Some(text@),
        None => None,
    }
}

/// An optional text, taken as absent where it is empty.
pub open spec fn nonempty(text: Option<Seq<char>>) -> Option<Seq<char>> {
    match text {
        Some(text) if text.len() > 0 => Some(text),
        _ => None,
    }
}

/// The views of a list of string pairs.
pub open spec fn pairs_view(pairs: Seq<(String, String)>) -> Seq<(Seq<char>, Seq<char>)> {
    pairs.map_values(|pair: (String, String)| (pair.0@, pair.1@))
}

/// The digit `0 <= n < 10` as a character.
pub open spec fn digit(n: nat) -> char {
    (48 + n) as char
}

/// The decimal numeral of `n`, without leading zeros.
pub open spec fn decimal(n: nat) -> Seq<char>
    decreases n,
{
    if n < 10 {
        seq![digit(n)]
    } else {
        decimal(n / 10).push(digit(n % 10))
    }
}

/// The characters with the Unicode property `White_Space`.
pub open spec fn is_white_space(c: char) -> bool {
    ||| '\u{9}' <= c <= '\u{d}'
    ||| c == '\u{20}'
    ||| c == '\u{85}'
    ||| c == '\u{a0}'
    ||| c == '\u{1680}'
    ||| '\u{2000}' <= c <= '\u{200a}'
    ||| c == '\u{2028}'
    ||| c == '\u{2029}'
    ||| c == '\u{202f}'
    ||| c == '\u{205f}'
    ||| c == '\u{3000}'
}

/// `text` without the characters that satisfy `strip` at its two ends.
pub open spec fn stripped(text: Seq<char>, strip: spec_fn(char) -> bool) -> Seq<char>
    decreases text.len(),
{
    if text.len() == 0 {
        text
    } else if strip(text.first()) {
        stripped(text.drop_first(), strip)
    } else if strip(text.last()) {
        stripped(text.drop_last(), strip)
    } else {
        text
    }
}

/// `text` without white space at its two ends.
pub open spec fn trimmed(text: Seq<char>) -> Seq<char> {
    stripped(text, |c: char| is_white_space(c))
}

/// `text` without slashes at its two ends.
pub open spec fn without_outer_slashes(text: Seq<char>) -> Seq<char> {
    stripped(text, |c: char| c == '/')
}

/// `text` without `prefix` in front, however often it is repeated there.
pub open spec fn without_prefixes(text: Seq<char>, prefix: Seq<char>) -> Seq<char>
    decreases text.len(),
{
    if 0 < prefix.len() && prefix.is_prefix_of(text) {
        without_prefixes(text.skip(prefix.len() as int), prefix)
    } else {
        text
    }
}

/// The position of the last slash of `text`, or -1 where there is none.
pub open spec fn last_slash(text: Seq<char>) -> int
    decreases text.len(),
{
    if text.len() == 0 {
        -1
    } else if text.last() == '/' {
        text.len() - 1
    } else {
        last_slash(text.drop_last())
    }
}

/// The non-empty pieces of `text` between its slashes, in order.
pub open spec fn segments(text: Seq<char>) -> Seq<Seq<char>>
    decreases text.len(),
{
    let slash = last_slash(text);
    let piece = text.skip(slash + 1);
    let before = if 0 <= slash < text.len() {
        segments(text.take(slash))
    } else {
        seq![]
    };
    if piece.len() > 0 {
        before.push(piece)
    } else {
        before
    }
}

/// The texts of `parts` in order, with `separator` between each two of them.
pub open spec fn joined(parts: Seq<Seq<char>>, separator: Seq<char>) -> Seq<char>
    decreases parts.len(),
{
    if parts.len() == 0 {
        seq![]
    } else if parts.len() == 1 {
        parts[0]
    } else {
        joined(parts.drop_last(), separator) + separator + parts.last()
    }
}

/// The views of a list of strings.
pub open spec fn strings_view(strings: Seq<String>) -> Seq<Seq<char>> {
    strings.map_values(|text: String| text@)
}

proof fn lemma_last_slash(text: Seq<char>, start: int, end: int)
    requires
        0 <= start <= end <= text.len(),
        start > 0 ==> text[start - 1] == '/',
        forall|k: int| start <= k < end ==> text[k] != '/',
    ensures
        last_slash(text.take(end)) == start - 1,
    decreases end,
{
    let head = text.take(end);
    if start < end {
        assert(head.drop_last() =~= text.take(end - 1));
        lemma_last_slash(text, start, end - 1);
    } else if start > 0 {
        assert(head.last() == '/');
    }
}

pub(crate) proof fn lemma_segments(text: Seq<char>, start: int, end: int)
    requires
        0 <= start <= end <= text.len(),
        start > 0 ==> text[start - 1] == '/',
        forall|k: int| start <= k < end ==> text[k] != '/',
    ensures
        segments(text.take(end)) == ({
            let before = if start > 0 {
                segments(text.take(start - 1))
            } else {
                seq![]
            };
            if start < end {
                before.push(text.subrange(start, end))
            } else {
                before
            }
        }),
{
    lemma_last_slash(text, start, end);
    let head = text.take(end);
    assert(head.skip(start) =~= text.subrange(start, end));
    if start > 0 {
        assert(head.take(start - 1) =~= text.take(start - 1));
    }
}

pub(crate) proof fn lemma_behind_last_slash(text: Seq<char>)
    ensures
        -1 <= last_slash(text) < text.len(),
        0 <= last_slash(text) ==> text[last_slash(text)] == '/',
        forall|i: int| last_slash(text) < i < text.len() ==> text[i] != '/',
    decreases text.len(),
{
    if text.len() > 0 && text.last() != '/' {
        let shorter = text.drop_last();
        lemma_behind_last_slash(shorter);
        assert forall|i: int| last_slash(text) < i < text.len() implies text[i] != '/' by {
            if i < shorter.len() {
                assert(shorter[i] == text[i]);
            }
        }
    }
}

/// Whether two texts are the same.
pub fn same(left: &str, right: &str) -> (equal: bool)
    ensures
        equal == (left@ == right@),
{
    left.to_owned() == right.to_owned()
}

/// A copy of an optional text, taken as absent where it is empty.
pub fn present(text: &Option<String>) -> (copy: Option<String>)
    ensures
        opt_view(copy) == nonempty(opt_view(*text)),
{
    match text {
        Some(text) if !text.as_str().is_empty() => Some(text.clone()),
        _ => None,
    }
}

/// An optional text, taken as absent where it is empty. The text itself is handed
/// on, and not a copy.
pub fn kept(text: Option<String>) -> (own: Option<String>)
    ensures
        opt_view(own) == nonempty(opt_view(text)),
{
    match text {
        Some(text) => if text.as_str().is_empty() {
            None
        } else {
            Some(text)
        },
        None => None,
    }
}

/// The characters of a text.
fn chars_of(text: &str) -> (chars: Vec<char>)
    ensures
        chars@ == text@,
{
    let mut chars: Vec<char> = Vec::new();
    for c in it: text.chars()
        invariant
            chars@ == it.seq().take(it.index()),
            it.seq() == text@,
    {
        chars.push(c);
    }
    chars
}

/// The decimal numeral of a number.
pub fn decimal_text(n: u16) -> (text: String)
    ensures
        text@ == decimal(n as nat),
    decreases n,
{
    let mut text = if n < 10 {
        String::new()
    } else {
        decimal_text(n / 10)
    };
    let figure = match n % 10 {
        0 => "0",
        1 => "1",
        2 => "2",
        3 => "3",
        4 => "4",
        5 => "5",
        6 => "6",
        7 => "7",
        8 => "8",
        _ => "9",
    };
    proof {
        reveal_strlit("0");
        reveal_strlit("1");
        reveal_strlit("2");
        reveal_strlit("3");
        reveal_strlit("4");
        reveal_strlit("5");
        reveal_strlit("6");
        reveal_strlit("7");
        reveal_strlit("8");
        reveal_strlit("9");
        assert(figure@ =~= seq![digit((n % 10) as nat)]);
    }
    text.append(figure);
    text
}

fn white_space(c: char) -> (white: bool)
    ensures
        white == is_white_space(c),
{
    ('\u{9}' <= c && c <= '\u{d}') || c == '\u{20}' || c == '\u{85}' || c == '\u{a0}'
        || c == '\u{1680}' || ('\u{2000}' <= c && c <= '\u{200a}') || c == '\u{2028}'
        || c == '\u{2029}' || c == '\u{202f}' || c == '\u{205f}' || c == '\u{3000}'
}

fn slash(c: char) -> (equal: bool)
    ensures
        equal == (c == '/'),
{
    c == '/'
}

fn strip_ends<F: Fn(char) -> bool>(
    text: &str,
    f: F,
    Ghost(strip): Ghost<spec_fn(char) -> bool>,
) -> (inner: String)
    requires
        forall|c: char| call_requires(f, (c,)),
        forall|c: char, b: bool| call_ensures(f, (c,), b) ==> b == strip(c),
    ensures
        inner@ == stripped(text@, strip),
{
    let chars = chars_of(text);
    let mut start: usize = 0;
    let mut end: usize = chars.len();
    proof {
        assert(text@.subrange(0, end as int) =~= text@);
    }
    while start < end && f(chars[start])
        invariant
            chars@ == text@,
            0 <= start <= end == chars.len(),
            forall|c: char| call_requires(f, (c,)),
            forall|c: char, b: bool| call_ensures(f, (c,), b) ==> b == strip(c),
            stripped(text@, strip) == stripped(text@.subrange(start as int, end as int), strip),
        ensures
            start < end ==> !strip(text@[start as int]),
        decreases end - start,
    {
        proof {
            let rest = text@.subrange(start as int, end as int);
            assert(rest.drop_first() =~= text@.subrange(start + 1, end as int));
        }
        start = start + 1;
    }
    while start < end && f(chars[end - 1])
        invariant
            chars@ == text@,
            0 <= start <= end <= chars.len(),
            forall|c: char| call_requires(f, (c,)),
            forall|c: char, b: bool| call_ensures(f, (c,), b) ==> b == strip(c),
            stripped(text@, strip) == stripped(text@.subrange(start as int, end as int), strip),
            start < end ==> !strip(text@[start as int]),
        ensures
            start < end ==> !strip(text@[end - 1]),
        decreases end - start,
    {
        proof {
            let rest = text@.subrange(start as int, end as int);
            assert(rest.drop_last() =~= text@.subrange(start as int, end - 1));
        }
        end = end - 1;
    }
    text.substring_char(start, end).to_owned()
}

/// A text without white space at its two ends.
pub fn trim(text: &str) -> (inner: String)
    ensures
        inner@ == trimmed(text@),
{
    strip_ends(text, white_space, Ghost(|c: char| is_white_space(c)))
}

/// A text without slashes at its two ends.
pub fn trim_slashes(text: &str) -> (inner: String)
    ensures
        inner@ == without_outer_slashes(text@),
{
    strip_ends(text, slash, Ghost(|c: char| c == '/'))
}

fn starts_with_at(chars: &Vec<char>, start: usize, prefix: &Vec<char>) -> (found: bool)
    requires
        start <= chars.len(),
    ensures
        found == prefix@.is_prefix_of(chars@.skip(start as int)),
{
    if chars.len() - start < prefix.len() {
        return false;
    }
    let mut i: usize = 0;
    while i < prefix.len()
        invariant
            i <= prefix.len(),
            start + prefix.len() <= chars.len(),
            forall|k: int| 0 <= k < i ==> prefix@[k] == chars@[start + k],
        decreases prefix.len() - i,
    {
        if chars[start + i] != prefix[i] {
            assert(chars@.skip(start as int)[i as int] != prefix@[i as int]);
            return false;
        }
        i = i + 1;
    }
    assert(prefix@ =~= chars@.skip(start as int).subrange(0, prefix@.len() as int));
    true
}

/// A text without `prefix` in front, however often it is repeated there.
pub fn trim_prefixes(text: &str, prefix: &str) -> (rest: String)
    ensures
        rest@ == without_prefixes(text@, prefix@),
{
    let chars = chars_of(text);
    let front = chars_of(prefix);
    let mut start: usize = 0;
    proof {
        assert(text@.skip(0) =~= text@);
    }
    while front.len() > 0 && starts_with_at(&chars, start, &front)
        invariant
            chars@ == text@,
            front@ == prefix@,
            start <= chars.len(),
            without_prefixes(text@, prefix@) == without_prefixes(text@.skip(start as int), prefix@),
        ensures
            without_prefixes(text@, prefix@) == text@.skip(start as int),
        decreases chars.len() - start,
    {
        proof {
            assert(text@.skip(start as int).skip(prefix@.len() as int) =~= text@.skip(
                start + prefix@.len(),
            ));
        }
        start = start + front.len();
    }
    proof {
        assert(text@.skip(start as int) =~= text@.subrange(start as int, chars.len() as int));
    }
    text.substring_char(start, chars.len()).to_owned()
}

/// The non-empty pieces of a text between its slashes, in order.
pub fn split_segments(text: &str) -> (pieces: Vec<String>)
    ensures
        strings_view(pieces@) == segments(text@),
{
    let chars = chars_of(text);
    let mut pieces: Vec<String> = Vec::new();
    let mut start: usize = 0;
    let mut i: usize = 0;
    while i < chars.len()
        invariant
            chars@ == text@,
            start <= i <= chars.len(),
            start > 0 ==> text@[start - 1] == '/',
            forall|k: int| start <= k < i ==> text@[k] != '/',
            strings_view(pieces@) == (if start > 0 {
                segments(text@.take(start - 1))
            } else {
                seq![]
            }),
        decreases chars.len() - i,
    {
        if chars[i] == '/' {
            proof {
                lemma_segments(text@, start as int, i as int);
            }
            if start < i {
                pieces.push(text.substring_char(start, i).to_owned());
            }
            start = i + 1;
        }
        i = i + 1;
    }
    proof {
        lemma_segments(text@, start as int, i as int);
        assert(text@.take(i as int) =~= text@);
    }
    if start < i {
        pieces.push(text.substring_char(start, i).to_owned());
    }
    pieces
}

/// The parts from position `from` on, joined by `separator`.
pub fn join_from(parts: &Vec<String>, from: usize, separator: &str) -> (text: String)
    requires
        from <= parts.len(),
    ensures
        text@ == joined(strings_view(parts@).skip(from as int), separator@),
{
    let mut text = String::new();
    let mut i = from;
    while i < parts.len()
        invariant
            from <= i <= parts.len(),
            text@ == joined(strings_view(parts@).subrange(from as int, i as int), separator@),
        decreases parts.len() - i,
    {
        if i > from {
            text.append(separator);
        }
        text.append(parts[i].as_str());
        proof {
            let next = strings_view(parts@).subrange(from as int, i + 1);
            assert(next.drop_last() =~= strings_view(parts@).subrange(from as int, i as int));
        }
        i = i + 1;
    }
    proof {
        assert(strings_view(parts@).subrange(from as int, i as int) =~= strings_view(parts@).skip(
            from as int,
        ));
    }
    text
}

} // verus!
