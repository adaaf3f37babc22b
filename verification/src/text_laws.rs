//! What holds of the string operations.
use vstd::prelude::*;

use crate::provider_url::lookup;
use crate::text::{
    decimal, digit, is_white_space, joined, last_slash, lemma_behind_last_slash, lemma_segments,
    nonempty, opt_view, pairs_view, segments, stripped, trimmed, without_outer_slashes, without_prefixes,
};

verus! {

/// The number that a row of decimal digits stands for.
pub open spec fn number(text: Seq<char>) -> int
    decreases text.len(),
{
    if text.len() == 0 {
        0
    } else {
        10 * number(text.drop_last()) + (text.last() as int - '0' as int)
    }
}

/// A numeral reads back as its number, is made of digits, and has no leading zero.
pub proof fn decimal_reads_back(n: nat)
    ensures
        number(decimal(n)) == n,
        0 < decimal(n).len(),
        forall|i: int| 0 <= i < decimal(n).len() ==> '0' <= #[trigger] decimal(n)[i] <= '9',
        decimal(n).len() > 1 ==> decimal(n)[0] != '0',
    decreases n,
{
    reveal_with_fuel(number, 2);
    if n >= 10 {
        decimal_reads_back(n / 10);
        let shorter = decimal(n / 10);
        let text = decimal(n);
        assert(text.drop_last() =~= shorter);
        assert(text.last() == digit(n % 10));
        assert(text[0] == shorter[0]);
        if shorter.len() == 1 {
            assert(number(shorter) == shorter.last() as int - '0' as int) by {
                assert(shorter.drop_last().len() == 0);
            }
        }
        assert forall|i: int| 0 <= i < text.len() implies '0' <= #[trigger] text[i] <= '9' by {
            if i < shorter.len() {
                assert(text[i] == shorter[i]);
            }
        }
    } else {
        assert(decimal(n).drop_last() =~= seq![]);
    }
}

/// Whether `inner` is `text` without what it has of one sort at its two ends, all
/// of it and nothing else.
pub open spec fn is_inside(text: Seq<char>, inner: Seq<char>, sort: spec_fn(char) -> bool) -> bool {
    exists|i: int, j: int|
        0 <= i <= j <= text.len() && inner == #[trigger] text.subrange(i, j) && (forall|k: int|
            0 <= k < i || j <= k < text.len() ==> sort(#[trigger] text[k])) && (i < j ==> !sort(
            text[i],
        ) && !sort(text[j - 1]))
}

proof fn lemma_stripped_is_inside(text: Seq<char>, sort: spec_fn(char) -> bool, i: int, j: int)
    requires
        0 <= i <= j <= text.len(),
        forall|k: int| 0 <= k < i || j <= k < text.len() ==> sort(#[trigger] text[k]),
    ensures
        is_inside(text, stripped(text.subrange(i, j), sort), sort),
    decreases j - i,
{
    let middle = text.subrange(i, j);
    if i == j {
        assert(stripped(middle, sort) == text.subrange(i, j));
    } else if sort(middle.first()) {
        assert(middle.drop_first() =~= text.subrange(i + 1, j));
        lemma_stripped_is_inside(text, sort, i + 1, j);
    } else if sort(middle.last()) {
        assert(middle.drop_last() =~= text.subrange(i, j - 1));
        lemma_stripped_is_inside(text, sort, i, j - 1);
    } else {
        assert(stripped(middle, sort) == text.subrange(i, j));
        assert(text[i] == middle.first() && text[j - 1] == middle.last());
    }
}

/// Trimming takes away white space at the two ends, all of it and nothing else.
pub proof fn trimming_keeps_the_inside(text: Seq<char>)
    ensures
        is_inside(text, trimmed(text), |c: char| is_white_space(c)),
{
    assert(text.subrange(0, text.len() as int) =~= text);
    lemma_stripped_is_inside(text, |c: char| is_white_space(c), 0, text.len() as int);
}

/// Taking the slashes off the two ends takes all of them and nothing else.
pub proof fn slashes_are_taken_off_the_ends(text: Seq<char>)
    ensures
        is_inside(text, without_outer_slashes(text), |c: char| c == '/'),
{
    assert(text.subrange(0, text.len() as int) =~= text);
    lemma_stripped_is_inside(text, |c: char| c == '/', 0, text.len() as int);
}

/// No printable ASCII character is white space; the space, the tab and the ends
/// of lines are.
pub proof fn white_space_is_not_printed(c: char)
    ensures
        '!' <= c <= '~' ==> !is_white_space(c),
        c == ' ' || c == '\t' || c == '\n' || c == '\r' ==> is_white_space(c),
{
}

/// A text, some times over.
pub open spec fn repeated(text: Seq<char>, times: nat) -> Seq<char>
    decreases times,
{
    if times == 0 {
        seq![]
    } else {
        text + repeated(text, (times - 1) as nat)
    }
}

/// Taking off a prefix takes off whole copies of it, as many as there are in
/// front.
pub proof fn prefixes_are_taken_off_whole(text: Seq<char>, prefix: Seq<char>) -> (times: nat)
    requires
        prefix.len() > 0,
    ensures
        text == repeated(prefix, times) + without_prefixes(text, prefix),
        !prefix.is_prefix_of(without_prefixes(text, prefix)),
    decreases text.len(),
{
    if prefix.is_prefix_of(text) {
        let rest = text.skip(prefix.len() as int);
        let times = prefixes_are_taken_off_whole(rest, prefix);
        assert(text =~= prefix + rest);
        assert(text =~= repeated(prefix, times + 1) + without_prefixes(text, prefix));
        times + 1
    } else {
        assert(text =~= repeated(prefix, 0) + text);
        0
    }
}

/// The segments of a path: a text without slashes is one segment unless it is
/// empty, and a slash parts the segments before it from those behind it.
pub proof fn slashes_part_the_segments(before: Seq<char>, after: Seq<char>)
    ensures
        segments(before.push('/') + after) == segments(before) + segments(after),
        (forall|i: int| 0 <= i < after.len() ==> after[i] != '/') ==> segments(after) == (
        if after.len() > 0 {
            seq![after]
        } else {
            seq![]
        }),
    decreases after.len(),
{
    let whole = before.push('/') + after;
    let slash = last_slash(after);
    lemma_behind_last_slash(after);
    if slash < 0 {
        let begin: int = before.len() as int + 1;
        lemma_segments(whole, begin, whole.len() as int);
        assert(whole.take(whole.len() as int) =~= whole);
        assert(whole.take(before.len() as int) =~= before);
        assert(whole.subrange(begin, whole.len() as int) =~= after);
        assert(after.skip(0) =~= after);
        assert(segments(after) =~= if after.len() > 0 {
            seq![after]
        } else {
            seq![]
        });
        assert(segments(whole) =~= segments(before) + segments(after));
    } else {
        let begin: int = before.len() as int + 1 + slash + 1;
        slashes_part_the_segments(before, after.take(slash));
        lemma_segments(whole, begin, whole.len() as int);
        assert(whole.take(whole.len() as int) =~= whole);
        assert(whole.take(begin - 1) =~= before.push('/') + after.take(slash));
        assert(whole.subrange(begin, whole.len() as int) =~= after.skip(slash + 1));
        assert(segments(whole) =~= segments(before) + segments(after));
        assert(after[slash] == '/');
    }
}

/// Joining: one part is left as it is, and two rows of parts have one separator
/// between them.
pub proof fn separators_stand_between_the_parts(
    before: Seq<Seq<char>>,
    after: Seq<Seq<char>>,
    separator: Seq<char>,
)
    ensures
        before.len() == 0 ==> joined(before, separator).len() == 0,
        before.len() == 1 ==> joined(before, separator) == before[0],
        before.len() > 0 && after.len() > 0 ==> joined(before + after, separator) == joined(
            before,
            separator,
        ) + separator + joined(after, separator),
    decreases after.len(),
{
    if before.len() > 0 && after.len() > 0 {
        let whole = before + after;
        assert(whole.drop_last() =~= before + after.drop_last());
        assert(whole.last() == after.last());
        if after.len() == 1 {
            assert(before + after.drop_last() =~= before);
        } else {
            separators_stand_between_the_parts(before, after.drop_last(), separator);
            assert(joined(whole, separator) =~= joined(before, separator) + separator + joined(
                after,
                separator,
            ));
        }
    }
}

/// The first parameter of a name counts: it is found whatever stands behind it,
/// and others in front of it make no difference. Without one nothing is found.
pub proof fn first_parameter_counts(
    before: Seq<(Seq<char>, Seq<char>)>,
    key: Seq<char>,
    value: Seq<char>,
    after: Seq<(Seq<char>, Seq<char>)>,
)
    requires
        forall|i: int| 0 <= i < before.len() ==> (#[trigger] before[i]).0 != key,
    ensures
        lookup(before.push((key, value)) + after, key) == Some(value),
        lookup(before, key) is None,
    decreases before.len(),
{
    let whole = before.push((key, value)) + after;
    if before.len() > 0 {
        let rest = before.drop_first();
        assert forall|i: int| 0 <= i < rest.len() implies (#[trigger] rest[i]).0 != key by {
            assert(rest[i] == before[i + 1]);
        }
        first_parameter_counts(rest, key, value, after);
        assert(whole[0] == before[0]);
        assert(whole.drop_first() =~= rest.push((key, value)) + after);
    } else {
        assert(whole[0] == (key, value));
    }
}

/// An empty text counts as absent, any other as it is.
pub proof fn empty_counts_as_absent(text: Seq<char>)
    ensures
        nonempty(None) is None,
        text.len() == 0 ==> nonempty(Some(text)) is None,
        text.len() > 0 ==> nonempty(Some(text)) == Some(text),
{
}

/// The views of strings keep what they hold, and in lists all of them in order.
pub proof fn views_keep_the_texts(text: String, pairs: Seq<(String, String)>, i: int)
    requires
        0 <= i < pairs.len(),
    ensures
        opt_view(None) is None,
        opt_view(Some(text)) == Some(text@),
        pairs_view(pairs).len() == pairs.len(),
        pairs_view(pairs)[i].0 == pairs[i].0@,
        pairs_view(pairs)[i].1 == pairs[i].1@,
{
}

} // verus!
