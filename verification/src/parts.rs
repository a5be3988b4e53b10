//! Text in parts: separated lists, lines, prefixes and passages.

use vstd::prelude::*;

use crate::text;

verus! {

// ---------------------------------------------------------------------------
// Models
// ---------------------------------------------------------------------------

/// The stretches of `s` between separators, in order: one more than it has separators.
pub open spec fn parts(s: Seq<char>, separator: char) -> Seq<Seq<char>>
    decreases s.len(),
{
    if s.len() == 0 {
        seq![Seq::<char>::empty()]
    } else {
        let before = parts(s.drop_last(), separator);
        if s.last() == separator {
            before.push(Seq::<char>::empty())
        } else {
            before.drop_last().push(before.last().push(s.last()))
        }
    }
}

/// Texts in a row with a separator between any two.
pub open spec fn joined(list: Seq<Seq<char>>, separator: char) -> Seq<char>
    decreases list.len(),
{
    if list.len() == 0 {
        Seq::empty()
    } else if list.len() == 1 {
        list[0]
    } else {
        joined(list.drop_last(), separator).push(separator) + list.last()
    }
}

/// Each text of a list without surrounding white space, those left out of which
/// nothing is left.
pub open spec fn kept(list: Seq<Seq<char>>) -> Seq<Seq<char>>
    decreases list.len(),
{
    if list.len() == 0 {
        Seq::empty()
    } else if text::is_blank(list.last()) {
        kept(list.drop_last())
    } else {
        kept(list.drop_last()).push(text::trimmed(list.last()))
    }
}

/// The entries of a comma-separated list.
pub open spec fn comma_separated(s: Seq<char>) -> Seq<Seq<char>> {
    kept(parts(s, ','))
}

/// A line without the carriage return that may stand before its line feed.
pub open spec fn without_return(line: Seq<char>) -> Seq<char> {
    if line.len() > 0 && line.last() == '\r' {
        line.drop_last()
    } else {
        line
    }
}

/// The lines of a text: each ends with a line feed, with or without a carriage return
/// before it; the last one may lack its ending.
pub open spec fn lines(s: Seq<char>) -> Seq<Seq<char>> {
    let stretches = parts(s, '\n');
    let ended = stretches.drop_last().map_values(|line: Seq<char>| without_return(line));
    if stretches.last().len() == 0 {
        ended
    } else {
        ended.push(stretches.last())
    }
}

/// What follows `prefix` in a text that begins with it.
pub open spec fn after_prefix(s: Seq<char>, prefix: Seq<char>) -> Option<Seq<char>> {
    if prefix.is_prefix_of(s) {
        Some(s.skip(prefix.len() as int))
    } else {
        None
    }
}

/// `passage` occurs in `s` from `at` on.
pub open spec fn occurs_at(s: Seq<char>, passage: Seq<char>, at: int) -> bool {
    0 <= at && at + passage.len() <= s.len() && s.subrange(at, at + passage.len()) == passage
}

/// `passage` occurs in `s`.
pub open spec fn occurs(s: Seq<char>, passage: Seq<char>) -> bool {
    exists|at: int| occurs_at(s, passage, at)
}

// ---------------------------------------------------------------------------
// Operations
// ---------------------------------------------------------------------------

/// The characters of `s`.
fn characters(s: &str) -> (list: Vec<char>)
    ensures
        list@ == s@,
{
    let mut list: Vec<char> = Vec::new();
    for c in it: s.chars()
        invariant
            it.seq() == s@,
            list@ == s@.take(it.index() as int),
    {
        list.push(c);
    }
    assert(s@.take(s@.len() as int) =~= s@);
    list
}

/// The stretches of `s` between separators.
pub fn split(s: &str, separator: char) -> (list: Vec<String>)
    ensures
        text::texts(list@) == parts(s@, separator),
{
    let chars: Vec<char> = characters(s);
    let mut list: Vec<String> = Vec::new();
    let mut start: usize = 0;
    let mut at: usize = 0;
    assert(s@.take(0) =~= Seq::<char>::empty());
    assert(text::texts(list@).push(s@.subrange(0, 0)) =~= parts(s@.take(0), separator));
    while at < chars.len()
        invariant
            chars@ == s@,
            start <= at <= chars.len(),
            text::texts(list@).push(s@.subrange(start as int, at as int)) == parts(s@.take(at as int), separator),
        decreases chars.len() - at,
    {
        let ghost before = list@;
        proof {
            assert(s@.take(at + 1).drop_last() =~= s@.take(at as int));
            assert(s@.take(at + 1).last() == s@[at as int]);
        }
        if chars[at] == separator {
            list.push(s.substring_char(start, at).to_owned());
            start = at + 1;
            proof {
                assert(text::texts(list@) =~= text::texts(before).push(list@.last()@));
                assert(s@.subrange(start as int, at + 1) =~= Seq::<char>::empty());
            }
        } else {
            proof {
                let stretch = s@.subrange(start as int, at as int);
                let stretches = parts(s@.take(at as int), separator);
                assert(stretches.drop_last() =~= text::texts(list@));
                assert(stretches.last() == stretch);
                assert(s@.subrange(start as int, at + 1) =~= stretch.push(s@[at as int]));
            }
        }
        at = at + 1;
    }
    let ghost before = list@;
    list.push(s.substring_char(start, at).to_owned());
    proof {
        assert(s@.take(at as int) =~= s@);
        assert(text::texts(list@) =~= text::texts(before).push(list@.last()@));
    }
    list
}

/// The entries of a comma-separated list, without surrounding white space and without
/// the empty ones.
pub fn parse_comma_separated(value: &str) -> (list: Vec<String>)
    ensures
        text::texts(list@) == comma_separated(value@),
{
    let stretches: Vec<String> = split(value, ',');
    let mut list: Vec<String> = Vec::new();
    let mut i: usize = 0;
    assert(text::texts(list@) =~= kept(text::texts(stretches@).take(0)));
    while i < stretches.len()
        invariant
            i <= stretches.len(),
            text::texts(stretches@) == parts(value@, ','),
            text::texts(list@) == kept(text::texts(stretches@).take(i as int)),
        decreases stretches.len() - i,
    {
        let ghost before = list@;
        proof {
            let taken = text::texts(stretches@).take(i + 1);
            assert(taken.drop_last() =~= text::texts(stretches@).take(i as int));
            assert(taken.last() == stretches@[i as int]@);
        }
        let entry: &str = stretches[i].as_str().trim();
        if !entry.is_empty() {
            list.push(entry.to_owned());
            assert(text::texts(list@) =~= text::texts(before).push(list@.last()@));
        }
        i = i + 1;
    }
    assert(text::texts(stretches@).take(i as int) =~= text::texts(stretches@));
    list
}

/// A line without the carriage return that may stand before its line feed.
fn return_stripped(line: &String) -> (stripped: String)
    ensures
        stripped@ == without_return(line@),
{
    let count: usize = line.as_str().unicode_len();
    if count > 0 && line.as_str().get_char(count - 1) == '\r' {
        let kept: &str = line.as_str().substring_char(0, count - 1);
        assert(kept@ =~= line@.drop_last());
        kept.to_owned()
    } else {
        line.clone()
    }
}

/// The lines of `s`.
pub fn split_lines(s: &str) -> (list: Vec<String>)
    ensures
        text::texts(list@) == lines(s@),
{
    let stretches: Vec<String> = split(s, '\n');
    proof {
        lemma_parts(s@, '\n');
        assert(text::texts(stretches@).len() == stretches@.len());
    }
    let last: usize = stretches.len() - 1;
    let mut list: Vec<String> = Vec::new();
    let mut i: usize = 0;
    while i < last
        invariant
            i <= last < stretches.len(),
            list.len() == i,
            forall|j: int| 0 <= j < i ==> (#[trigger] list@[j])@ == without_return(stretches@[j]@),
        decreases last - i,
    {
        list.push(return_stripped(&stretches[i]));
        i = i + 1;
    }
    let ghost ended = text::texts(stretches@).drop_last().map_values(|line: Seq<char>| without_return(line));
    assert(text::texts(list@) =~= ended);
    if !stretches[last].as_str().is_empty() {
        list.push(stretches[last].clone());
        assert(text::texts(list@) =~= ended.push(stretches@[last as int]@));
    }
    list
}

/// What follows `prefix` in a text that begins with it.
pub fn strip_prefix<'a>(s: &'a str, prefix: &str) -> (rest: Option<&'a str>)
    ensures
        text::opt_str(rest) == after_prefix(s@, prefix@),
{
    let length: usize = prefix.unicode_len();
    let count: usize = s.unicode_len();
    if length > count {
        return None;
    }
    let head: &str = s.substring_char(0, length);
    if text::same_text(head, prefix) {
        let rest: &str = s.substring_char(length, count);
        assert(rest@ =~= s@.skip(length as int));
        assert(prefix@.is_prefix_of(s@));
        Some(rest)
    } else {
        assert(prefix@.is_prefix_of(s@) ==> head@ =~= prefix@);
        None
    }
}

/// Whether `passage` occurs in `s` from `at` on.
fn stands_at(s: &Vec<char>, passage: &Vec<char>, at: usize) -> (found: bool)
    requires
        at + passage.len() <= s.len(),
    ensures
        found == occurs_at(s@, passage@, at as int),
{
    let mut i: usize = 0;
    while i < passage.len()
        invariant
            i <= passage.len(),
            at + passage.len() <= s.len(),
            forall|j: int| 0 <= j < i ==> s@[at + j] == #[trigger] passage@[j],
        decreases passage.len() - i,
    {
        if s[at + i] != passage[i] {
            assert(s@.subrange(at as int, at + passage@.len())[i as int] != passage@[i as int]);
            return false;
        }
        i = i + 1;
    }
    assert(s@.subrange(at as int, at + passage@.len()) =~= passage@);
    true
}

/// Whether `passage` occurs in `s`.
pub fn contains(s: &str, passage: &str) -> (found: bool)
    ensures
        found == occurs(s@, passage@),
{
    let chars: Vec<char> = characters(s);
    let wanted: Vec<char> = characters(passage);
    if wanted.len() > chars.len() {
        return false;
    }
    let last: usize = chars.len() - wanted.len();
    let mut at: usize = 0;
    loop
        invariant
            chars@ == s@,
            wanted@ == passage@,
            at <= last,
            last + wanted.len() == chars.len(),
            forall|before: int| 0 <= before < at ==> !occurs_at(s@, passage@, before),
        decreases last - at,
    {
        if stands_at(&chars, &wanted, at) {
            assert(occurs_at(s@, passage@, at as int));
            return true;
        }
        if at == last {
            assert(!occurs(s@, passage@));
            return false;
        }
        at = at + 1;
    }
}

// ---------------------------------------------------------------------------
// Laws
// ---------------------------------------------------------------------------

/// There is always at least one stretch.
proof fn lemma_parts(s: Seq<char>, separator: char)
    ensures
        parts(s, separator).len() >= 1,
    decreases s.len(),
{
    if s.len() > 0 {
        lemma_parts(s.drop_last(), separator);
    }
}

/// Splitting undone: the stretches with the separator between them are the text, and
/// no stretch holds the separator.
pub proof fn law_split_text_joins_back(s: Seq<char>, separator: char)
    ensures
        joined(parts(s, separator), separator) == s,
        forall|i: int| 0 <= i < parts(s, separator).len() ==> !(#[trigger] parts(s, separator)[i]).contains(separator),
    decreases s.len(),
{
    if s.len() > 0 {
        let init = s.drop_last();
        let before = parts(init, separator);
        let after = parts(s, separator);
        lemma_parts(init, separator);
        law_split_text_joins_back(init, separator);
        if s.last() == separator {
            assert(after.drop_last() =~= before);
            assert(joined(after, separator) =~= s);
        } else {
            assert(after.drop_last() =~= before.drop_last());
            assert(after.last() == before.last().push(s.last()));
            if before.len() == 1 {
                assert(joined(after, separator) =~= s);
            } else {
                assert(joined(after, separator) =~= joined(before, separator).push(s.last()));
                assert(joined(after, separator) =~= s);
            }
            assert forall|i: int| 0 <= i < after.len() implies !(#[trigger] after[i]).contains(separator) by {
                if i == after.len() - 1 {
                    assert(!before[before.len() - 1].contains(separator));
                    assert(after[i].contains(separator) ==> before.last().contains(separator)) by {
                        if after[i].contains(separator) {
                            let at = choose|at: int| 0 <= at < after[i].len() && after[i][at] == separator;
                            assert(before.last()[at] == separator);
                        }
                    }
                } else {
                    assert(after[i] == before[i]);
                }
            }
        }
        assert(joined(after, separator) == s);
    }
}

/// Every entry of a comma-separated list is trimmed, not empty and without a comma.
pub proof fn law_entries_are_clean(s: Seq<char>)
    ensures
        forall|i: int|
            0 <= i < comma_separated(s).len() ==> {
                let entry = #[trigger] comma_separated(s)[i];
                entry.len() > 0 && text::trimmed(entry) == entry && !entry.contains(',')
            },
{
    law_split_text_joins_back(s, ',');
    lemma_kept_entries(parts(s, ','));
}

proof fn lemma_kept_entries(list: Seq<Seq<char>>)
    requires
        forall|i: int| 0 <= i < list.len() ==> !(#[trigger] list[i]).contains(','),
    ensures
        forall|i: int|
            0 <= i < kept(list).len() ==> {
                let entry = #[trigger] kept(list)[i];
                entry.len() > 0 && text::trimmed(entry) == entry && !entry.contains(',')
            },
    decreases list.len(),
{
    if list.len() > 0 {
        let init = list.drop_last();
        assert forall|i: int| 0 <= i < init.len() implies !(#[trigger] init[i]).contains(',') by {
            assert(init[i] == list[i]);
        }
        lemma_kept_entries(init);
        let entry = text::trimmed(list.last());
        text::law_trimmed_text(list.last());
        text::law_trimming_is_idempotent(list.last());
        assert(!list[list.len() - 1].contains(','));
        if entry.contains(',') {
            let (from, to) = choose|from: int, to: int|
                0 <= from <= to <= list.last().len() && entry == #[trigger] list.last().subrange(from, to);
            let at = choose|at: int| 0 <= at < entry.len() && entry[at] == ',';
            assert(list.last()[from + at] == ',');
        }
        assert forall|i: int| 0 <= i < kept(list).len() implies {
            let kept_entry = #[trigger] kept(list)[i];
            kept_entry.len() > 0 && text::trimmed(kept_entry) == kept_entry && !kept_entry.contains(',')
        } by {
            if i < kept(init).len() {
                assert(kept(list)[i] == kept(init)[i]);
            } else {
                assert(kept(list)[i] == entry);
            }
        }
    }
}

proof fn lemma_first_stretch(first: Seq<char>, rest: Seq<char>, separator: char)
    requires
        !first.contains(separator),
    ensures
        parts(first, separator) == seq![first],
        parts(first.push(separator) + rest, separator) == seq![first] + parts(rest, separator),
    decreases first.len() + rest.len(),
{
    if rest.len() > 0 {
        let s = first.push(separator) + rest;
        let init = rest.drop_last();
        lemma_first_stretch(first, init, separator);
        lemma_parts(init, separator);
        assert(s.drop_last() =~= first.push(separator) + init);
        assert(s.last() == rest.last());
        let before = seq![first] + parts(init, separator);
        assert(before.drop_last() =~= seq![first] + parts(init, separator).drop_last());
        assert(before.last() == parts(init, separator).last());
        assert(parts(s, separator) =~= seq![first] + parts(rest, separator));
    } else {
        let s = first.push(separator) + rest;
        assert(s =~= first.push(separator));
        if first.len() > 0 {
            let init = first.drop_last();
            assert(!init.contains(separator)) by {
                if init.contains(separator) {
                    let at = choose|at: int| 0 <= at < init.len() && init[at] == separator;
                    assert(first[at] == separator);
                }
            }
            lemma_first_stretch(init, rest, separator);
            assert(first[first.len() - 1] != separator);
            assert(init.push(first.last()) =~= first);
            assert(parts(first, separator) =~= seq![first]);
        } else {
            assert(first =~= Seq::<char>::empty());
        }
        assert(s.drop_last() =~= first);
        assert(s.len() > 0 && s.last() == separator);
        assert(parts(s, separator) == parts(first, separator).push(Seq::<char>::empty()));
        assert(parts(rest, separator) == seq![Seq::<char>::empty()]);
        assert(parts(s, separator) =~= seq![first] + parts(rest, separator));
    }
}

proof fn lemma_kept_first(first: Seq<char>, rest: Seq<Seq<char>>)
    ensures
        kept(seq![first]) == if text::trimmed(first).len() == 0 {
            Seq::<Seq<char>>::empty()
        } else {
            seq![text::trimmed(first)]
        },
        kept(seq![first] + rest) == kept(seq![first]) + kept(rest),
    decreases rest.len(),
{
    assert(seq![first].drop_last() =~= Seq::<Seq<char>>::empty());
    assert(kept(Seq::<Seq<char>>::empty()) =~= Seq::<Seq<char>>::empty());
    assert(kept(seq![first]) =~= if text::trimmed(first).len() == 0 {
        Seq::<Seq<char>>::empty()
    } else {
        seq![text::trimmed(first)]
    });
    if rest.len() > 0 {
        lemma_kept_first(first, rest.drop_last());
        assert((seq![first] + rest).drop_last() =~= seq![first] + rest.drop_last());
        assert(kept(seq![first] + rest) =~= kept(seq![first]) + kept(rest));
    } else {
        assert(seq![first] + rest =~= seq![first]);
        assert(kept(seq![first]) + kept(rest) =~= kept(seq![first]));
    }
}

/// Splitting takes a text apart at every separator: a text without one is its own only
/// stretch, and what stands before the first separator is the first stretch, with those
/// of the rest behind it.
pub proof fn law_split_at_every_separator(
    first: &str,
    rest: &str,
    whole: &str,
    separator: char,
    of_first: Vec<String>,
    of_rest: Vec<String>,
    of_whole: Vec<String>,
)
    requires
        !first@.contains(separator),
        whole@ == first@.push(separator) + rest@,
        call_ensures(split, (first, separator), of_first),
        call_ensures(split, (rest, separator), of_rest),
        call_ensures(split, (whole, separator), of_whole),
    ensures
        text::texts(of_first@) == seq![first@],
        text::texts(of_whole@) == seq![first@] + text::texts(of_rest@),
{
    lemma_first_stretch(first@, rest@, separator);
}

/// The entries of a comma-separated list: what stands before the first comma, trimmed
/// and unless it is blank, and the entries of the rest behind it. No entry is lost, added
/// or moved.
pub proof fn law_every_entry_is_listed(
    first: &str,
    rest: &str,
    whole: &str,
    of_first: Vec<String>,
    of_rest: Vec<String>,
    of_whole: Vec<String>,
)
    requires
        !first@.contains(','),
        whole@ == first@.push(',') + rest@,
        call_ensures(parse_comma_separated, (first,), of_first),
        call_ensures(parse_comma_separated, (rest,), of_rest),
        call_ensures(parse_comma_separated, (whole,), of_whole),
    ensures
        text::texts(of_first@) == if text::trimmed(first@).len() == 0 {
            Seq::<Seq<char>>::empty()
        } else {
            seq![text::trimmed(first@)]
        },
        text::texts(of_whole@) == text::texts(of_first@) + text::texts(of_rest@),
{
    law_entries_are_listed(first@, rest@);
}

/// The same of the entries as values.
pub proof fn law_entries_are_listed(first: Seq<char>, rest: Seq<char>)
    requires
        !first.contains(','),
    ensures
        comma_separated(first) == if text::trimmed(first).len() == 0 {
            Seq::<Seq<char>>::empty()
        } else {
            seq![text::trimmed(first)]
        },
        comma_separated(first.push(',') + rest) == comma_separated(first) + comma_separated(rest),
{
    lemma_first_stretch(first, rest, ',');
    lemma_kept_first(first, parts(rest, ','));
}

/// The lines of a text: nothing has no line, a text without a line feed is one line as it
/// stands, and what stands before the first line feed is a line, less a carriage return
/// at its end, with the lines of the rest behind it.
pub proof fn law_every_line_is_listed(
    first: &str,
    rest: &str,
    whole: &str,
    of_first: Vec<String>,
    of_rest: Vec<String>,
    of_whole: Vec<String>,
)
    requires
        !first@.contains('\n'),
        whole@ == first@.push('\n') + rest@,
        call_ensures(split_lines, (first,), of_first),
        call_ensures(split_lines, (rest,), of_rest),
        call_ensures(split_lines, (whole,), of_whole),
    ensures
        text::texts(of_first@) == if first@.len() == 0 {
            Seq::<Seq<char>>::empty()
        } else {
            seq![first@]
        },
        text::texts(of_whole@) == seq![
            if first@.len() > 0 && first@[first@.len() - 1] == '\r' {
                first@.take(first@.len() - 1)
            } else {
                first@
            },
        ] + text::texts(of_rest@),
{
    law_lines_are_listed(first@, rest@);
}

/// The same of the lines as values.
pub proof fn law_lines_are_listed(first: Seq<char>, rest: Seq<char>)
    requires
        !first.contains('\n'),
    ensures
        lines(first) == if first.len() == 0 {
            Seq::<Seq<char>>::empty()
        } else {
            seq![first]
        },
        lines(first.push('\n') + rest) == seq![
            if first.len() > 0 && first[first.len() - 1] == '\r' {
                first.take(first.len() - 1)
            } else {
                first
            },
        ] + lines(rest),
{
    lemma_first_stretch(first, rest, '\n');
    lemma_parts(rest, '\n');
    let strip = |line: Seq<char>| without_return(line);
    let stretches = parts(rest, '\n');
    let whole = seq![first] + stretches;
    assert(parts(first, '\n').drop_last() =~= Seq::<Seq<char>>::empty());
    assert(lines(first) =~= if first.len() == 0 {
        Seq::<Seq<char>>::empty()
    } else {
        seq![first]
    });
    assert(whole.drop_last() =~= seq![first] + stretches.drop_last());
    assert(whole.last() == stretches.last());
    if first.len() > 0 && first.last() == '\r' {
        assert(first.drop_last() =~= first.take(first.len() - 1));
    }
    assert(whole.drop_last().map_values(strip) =~= seq![without_return(first)] + stretches.drop_last().map_values(
        strip,
    ));
    assert(lines(first.push('\n') + rest) =~= seq![without_return(first)] + lines(rest));
}

/// A prefix comes off exactly where the text is the prefix with the rest behind it.
pub proof fn law_stripped_prefix_puts_the_text_back(s: &str, prefix: &str, stripped: Option<&str>, tail: Seq<char>)
    requires
        call_ensures(strip_prefix, (s, prefix), stripped),
    ensures
        stripped matches Some(rest) ==> prefix@ + rest@ == s@,
        stripped is None ==> s@ != prefix@ + tail,
{
    law_prefix_and_rest_are_the_text(s@, prefix@, tail);
}

/// The same of the rest as a value.
pub proof fn law_prefix_and_rest_are_the_text(s: Seq<char>, prefix: Seq<char>, tail: Seq<char>)
    ensures
        after_prefix(s, prefix) matches Some(rest) ==> prefix + rest == s,
        after_prefix(s, prefix) is None ==> s != prefix + tail,
        after_prefix(prefix + tail, prefix) == Some(tail),
{
    if prefix.is_prefix_of(s) {
        assert(prefix + s.skip(prefix.len() as int) =~= s);
    }
    assert(prefix.is_prefix_of(prefix + tail));
    assert((prefix + tail).skip(prefix.len() as int) =~= tail);
}

/// A passage is found in a text exactly where the text is something, the passage, and
/// something behind it.
pub proof fn law_found_passages_stand_in_the_text(
    s: &str,
    passage: &str,
    found: bool,
    before: Seq<char>,
    behind: Seq<char>,
)
    requires
        call_ensures(contains, (s, passage), found),
    ensures
        s@ == before + passage@ + behind ==> found,
        found ==> exists|at: int| 0 <= at <= s@.len() - passage@.len() && #[trigger] s@.subrange(
            at,
            at + passage@.len(),
        ) == passage@,
{
    if s@ == before + passage@ + behind {
        let at = before.len() as int;
        assert(s@.subrange(at, at + passage@.len()) =~= passage@);
        assert(occurs_at(s@, passage@, at));
    }
    if found {
        let at = choose|at: int| occurs_at(s@, passage@, at);
        assert(s@.subrange(at, at + passage@.len()) == passage@);
    }
}

} // verus!
