use crate::casing::uppercase_text;
use crate::text::{
    chars_of, find_from, find_from_is_least, find_in, find_text, matches_at, occurs_at,
    substring, texts,
};
use vstd::prelude::*;
use vstd::string::*;

verus! {

/// The greatest position at or before `start` where `needle` stands in `hay`.
pub open spec fn rfind_from(hay: Seq<char>, needle: Seq<char>, start: int) -> Option<int>
    decreases start + 1,
{
    if start < 0 {
        None
    } else if occurs_at(hay, needle, start) {
        Some(start)
    } else {
        rfind_from(hay, needle, start - 1)
    }
}

/// The greatest position where `needle` stands in `hay`.
pub open spec fn rfind_text(hay: Seq<char>, needle: Seq<char>) -> Option<int> {
    rfind_from(hay, needle, hay.len() - needle.len())
}

/// `s` with `text` put in at position `at`.
pub open spec fn inserted(s: Seq<char>, at: int, text: Seq<char>) -> Seq<char> {
    s.subrange(0, at) + text + s.subrange(at, s.len() as int)
}

/// `to` before every character of `s` and behind the last.
pub open spec fn spread(s: Seq<char>, to: Seq<char>) -> Seq<char>
    decreases s.len(),
{
    if s.len() == 0 {
        to
    } else {
        spread(s.drop_last(), to) + seq![s.last()] + to
    }
}

/// `s` with `to` in the place of every occurrence of `from`, found from the left and
/// never overlapping. An empty `from` occurs before every character and at the end.
pub open spec fn replaced(s: Seq<char>, from: Seq<char>, to: Seq<char>) -> Seq<char>
    decreases s.len(),
{
    if from.len() == 0 {
        spread(s, to)
    } else {
        match find_text(s, from) {
            Some(i) => if 0 <= i && i + from.len() <= s.len() {
                s.subrange(0, i) + to + replaced(s.subrange(i + from.len(), s.len() as int), from, to)
            } else {
                s
            },
            None => s,
        }
    }
}

/// The parts of `s` between the occurrences of the character `sep`: one more than
/// there are occurrences.
pub open spec fn split_text(s: Seq<char>, sep: char) -> Seq<Seq<char>>
    decreases s.len(),
{
    if s.len() == 0 {
        seq![Seq::empty()]
    } else {
        let parts = split_text(s.drop_last(), sep);
        if s.last() == sep {
            parts.push(Seq::empty())
        } else if parts.len() == 0 {
            seq![seq![s.last()]]
        } else {
            parts.update(parts.len() - 1, parts.last().push(s.last()))
        }
    }
}

/// `word` with its first character in upper case; the empty word stays empty.
pub open spec fn capitalized(word: Seq<char>) -> Seq<char> {
    if word.len() == 0 {
        word
    } else {
        uppercase_text(word.take(1)) + word.skip(1)
    }
}

/// `rfind_from` gives the greatest position up to `start`, and none only where there
/// is none.
pub proof fn rfind_from_is_greatest(hay: Seq<char>, needle: Seq<char>, start: int)
    ensures
        match rfind_from(hay, needle, start) {
            Some(i) => 0 <= i <= start && occurs_at(hay, needle, i) && forall|j: int|
                i < j <= start ==> !occurs_at(hay, needle, j),
            None => forall|j: int| 0 <= j <= start ==> !occurs_at(hay, needle, j),
        },
    decreases start + 1,
{
    if start >= 0 && !occurs_at(hay, needle, start) {
        rfind_from_is_greatest(hay, needle, start - 1);
    }
}

/// `needle` stands in `hay` behind the first `offset` characters exactly where it
/// stands in what follows them.
proof fn find_from_in_rest(hay: Seq<char>, needle: Seq<char>, offset: int)
    requires
        0 <= offset <= hay.len(),
    ensures
        find_from(hay, needle, offset) == match find_text(hay.skip(offset), needle) {
            Some(j) => Some(offset + j),
            None => None,
        },
{
    let rest = hay.skip(offset);
    find_from_is_least(hay, needle, offset);
    find_from_is_least(rest, needle, 0);
    assert forall|j: int| #![trigger occurs_at(rest, needle, j)] 0 <= j implies (occurs_at(
        rest,
        needle,
        j,
    ) <==> occurs_at(hay, needle, offset + j)) by {
        if j + needle.len() <= rest.len() {
            assert(rest.subrange(j, j + needle.len()) =~= hay.subrange(
                offset + j,
                offset + j + needle.len(),
            ));
        }
    }
    match find_from(hay, needle, offset) {
        Some(i) => {
            assert(occurs_at(rest, needle, i - offset));
            match find_text(rest, needle) {
                Some(j) => {
                    assert(occurs_at(hay, needle, offset + j));
                    if offset + j < i {
                        assert(!occurs_at(hay, needle, offset + j));
                    }
                    if i - offset < j {
                        assert(!occurs_at(rest, needle, i - offset));
                    }
                },
                None => {},
            }
        },
        None => {
            match find_text(rest, needle) {
                Some(j) => {
                    assert(occurs_at(hay, needle, offset + j));
                },
                None => {},
            }
        },
    }
}

/// The greatest position where `needle` stands in `hay`.
pub(crate) fn rfind_in(hay: &Vec<char>, needle: &Vec<char>) -> (r: Option<usize>)
    ensures
        match r {
            Some(i) => rfind_text(hay@, needle@) == Some(i as int) && i + needle.len()
                <= hay.len(),
            None => rfind_text(hay@, needle@) is None,
        },
{
    if needle.len() > hay.len() {
        return None;
    }
    let mut i: usize = hay.len() - needle.len();
    loop
        invariant
            i + needle.len() <= hay.len(),
            rfind_text(hay@, needle@) == rfind_from(hay@, needle@, i as int),
        decreases i,
    {
        if matches_at(hay, needle, i) {
            return Some(i);
        }
        if i == 0 {
            assert(rfind_from(hay@, needle@, -1) is None);
            return None;
        }
        i -= 1;
    }
}

/// `s` with `text` put in at position `at`.
pub(crate) fn insert_at(s: &Vec<char>, at: usize, text: &str) -> (r: String)
    requires
        at <= s.len(),
    ensures
        r@ == inserted(s@, at as int, text@),
{
    let mut r = substring(s, 0, at);
    r.append(text);
    let tail = substring(s, at, s.len());
    r.append(tail.as_str());
    r
}

/// `s` with `to` in the place of every occurrence of `from`.
pub fn replace_all(s: &str, from: &str, to: &str) -> (r: String)
    ensures
        r@ == replaced(s@, from@, to@),
{
    let hay = chars_of(s);
    let needle = chars_of(from);
    let mut r = String::new();
    if needle.len() == 0 {
        r.append(to);
        let mut i: usize = 0;
        assert(hay@.take(0) =~= Seq::<char>::empty());
        while i < hay.len()
            invariant
                i <= hay.len(),
                r@ == spread(hay@.take(i as int), to@),
            decreases hay.len() - i,
        {
            assert(hay@.take(i + 1).drop_last() =~= hay@.take(i as int));
            r.push(hay[i]);
            r.append(to);
            i += 1;
            assert(r@ =~= spread(hay@.take(i as int), to@));
        }
        assert(hay@.take(hay.len() as int) =~= hay@);
        return r;
    }
    let mut pos: usize = 0;
    assert(hay@.skip(0) =~= hay@);
    assert(r@ + replaced(hay@, needle@, to@) =~= replaced(hay@, needle@, to@));
    loop
        invariant
            pos <= hay.len(),
            needle.len() > 0,
            needle@ == from@,
            hay@ == s@,
            replaced(s@, from@, to@) == r@ + replaced(hay@.skip(pos as int), needle@, to@),
        decreases hay.len() - pos,
    {
        let ghost rest = hay@.skip(pos as int);
        let ghost before = r@;
        proof {
            find_from_in_rest(hay@, needle@, pos as int);
        }
        match find_in(&hay, &needle, pos) {
            Some(i) => {
                let piece = substring(&hay, pos, i);
                r.append(piece.as_str());
                r.append(to);
                proof {
                    let j = i - pos;
                    assert(find_text(rest, needle@) == Some(j));
                    assert(rest.subrange(0, j) =~= hay@.subrange(pos as int, i as int));
                    assert(rest.subrange(j + needle.len(), rest.len() as int) =~= hay@.skip(
                        i + needle.len(),
                    ));
                    assert(r@ + replaced(hay@.skip(i + needle.len()), needle@, to@) =~= before
                        + replaced(rest, needle@, to@));
                }
                pos = i + needle.len();
            },
            None => {
                let tail = substring(&hay, pos, hay.len());
                r.append(tail.as_str());
                proof {
                    assert(find_text(rest, needle@) is None);
                    assert(hay@.subrange(pos as int, hay.len() as int) =~= rest);
                }
                return r;
            },
        }
    }
}

/// The parts of `s` between the occurrences of the character `sep`.
pub fn split(s: &str, sep: char) -> (parts: Vec<String>)
    ensures
        texts(parts@) == split_text(s@, sep),
{
    let chars = chars_of(s);
    let mut parts: Vec<String> = Vec::new();
    let mut current = String::new();
    let mut i: usize = 0;
    assert(chars@.take(0) =~= Seq::<char>::empty());
    assert(texts(parts@).push(current@) =~= split_text(chars@.take(0), sep));
    while i < chars.len()
        invariant
            i <= chars.len(),
            texts(parts@).push(current@) == split_text(chars@.take(i as int), sep),
        decreases chars.len() - i,
    {
        let ghost done = texts(parts@);
        let ghost word = current@;
        assert(chars@.take(i + 1).drop_last() =~= chars@.take(i as int));
        if chars[i] == sep {
            parts.push(current);
            current = String::new();
            assert(texts(parts@).push(current@) =~= done.push(word).push(Seq::empty()));
        } else {
            current.push(chars[i]);
            assert(texts(parts@).push(current@) =~= done.push(word).update(
                done.len() as int,
                word.push(chars@[i as int]),
            ));
        }
        i += 1;
    }
    assert(chars@.take(chars.len() as int) =~= chars@);
    let ghost done = texts(parts@);
    parts.push(current);
    assert(texts(parts@) =~= done.push(current@));
    parts
}

/// `word` with its first character in upper case.
pub fn capitalize(word: &str) -> (r: String)
    ensures
        r@ == capitalized(word@),
{
    let chars = chars_of(word);
    if chars.len() == 0 {
        return String::new();
    }
    let first = substring(&chars, 0, 1);
    let mut r = first.as_str().to_uppercase();
    let rest = substring(&chars, 1, chars.len());
    r.append(rest.as_str());
    assert(word@.take(1) =~= chars@.subrange(0, 1));
    assert(word@.skip(1) =~= chars@.subrange(1, chars.len() as int));
    r
}

/// What `str::trim` leaves of a text.
pub uninterp spec fn trimmed_text(s: Seq<char>) -> Seq<char>;

/// `str::trim` returns the text without the white space, as Unicode defines it, at
/// its start and at its end; it reads nothing but its argument, so its result is
/// named `trimmed_text(s@)`.
pub assume_specification[ str::trim ](s: &str) -> (r: &str)
    ensures
        r@ == trimmed_text(s@),
;

/// `s` starts with `prefix`.
pub open spec fn starts_with_text(s: Seq<char>, prefix: Seq<char>) -> bool {
    occurs_at(s, prefix, 0)
}

/// `s` starts with `prefix`.
pub fn text_starts_with(s: &str, prefix: &str) -> (r: bool)
    ensures
        r == starts_with_text(s@, prefix@),
{
    let chars = chars_of(s);
    let head = chars_of(prefix);
    if head.len() > chars.len() {
        return false;
    }
    matches_at(&chars, &head, 0)
}

/// The parts of a text between its commas, each without the white space around it.
pub open spec fn listed_names(text: Seq<char>) -> Seq<Seq<char>> {
    split_text(text, ',').map_values(|part: Seq<char>| trimmed_text(part))
}

/// The texts of a list that are not empty, in order.
pub open spec fn nonempty_texts(items: Seq<Seq<char>>) -> Seq<Seq<char>>
    decreases items.len(),
{
    if items.len() == 0 {
        Seq::empty()
    } else if items.last().len() == 0 {
        nonempty_texts(items.drop_last())
    } else {
        nonempty_texts(items.drop_last()).push(items.last())
    }
}

/// The parts of a text between its commas, each without the white space around it.
pub fn split_names(text: &str) -> (names: Vec<String>)
    ensures
        texts(names@) == listed_names(text@),
{
    let parts = split(text, ',');
    let mut names: Vec<String> = Vec::new();
    let mut i: usize = 0;
    while i < parts.len()
        invariant
            i <= parts.len(),
            names.len() == i,
            forall|j: int| 0 <= j < i ==> names@[j]@ == trimmed_text(parts@[j]@),
        decreases parts.len() - i,
    {
        names.push(parts[i].as_str().trim().to_owned());
        i += 1;
    }
    assert(texts(names@) =~= listed_names(text@));
    names
}

/// The texts of a list that are not empty, in order.
pub fn keep_nonempty(items: Vec<String>) -> (kept: Vec<String>)
    ensures
        texts(kept@) == nonempty_texts(texts(items@)),
{
    let ghost all = texts(items@);
    let mut kept: Vec<String> = Vec::new();
    let mut i: usize = 0;
    assert(all.take(0) =~= Seq::<Seq<char>>::empty());
    assert(texts(kept@) =~= Seq::<Seq<char>>::empty());
    while i < items.len()
        invariant
            i <= items.len(),
            all == texts(items@),
            texts(kept@) == nonempty_texts(all.take(i as int)),
        decreases items.len() - i,
    {
        let ghost before = texts(kept@);
        proof {
            let next = all.take(i + 1);
            assert(next.drop_last() =~= all.take(i as int));
            assert(next.last() == items@[i as int]@);
        }
        if items[i].as_str().unicode_len() > 0 {
            kept.push(items[i].clone());
            assert(texts(kept@) =~= before.push(items@[i as int]@));
        }
        i += 1;
    }
    assert(all.take(items.len() as int) =~= all);
    kept
}

} // verus!
