use vstd::prelude::*;
use vstd::string::*;

verus! {

/// `String::push` appends exactly one character to the end of the string.
pub assume_specification[ String::push ](s: &mut String, ch: char)
    ensures
        final(s)@ == old(s)@.push(ch),
;

/// The views of a sequence of strings, in order.
pub open spec fn texts(v: Seq<String>) -> Seq<Seq<char>> {
    v.map_values(|s: String| s@)
}

/// The view of an optional string.
pub open spec fn opt_text(o: Option<String>) -> Option<Seq<char>> {
    match o {
        Some(s) => Some(s@),
        None => None,
    }
}

/// `needle` stands in `hay` at position `i`.
pub open spec fn occurs_at(hay: Seq<char>, needle: Seq<char>, i: int) -> bool {
    &&& 0 <= i
    &&& i + needle.len() <= hay.len()
    &&& hay.subrange(i, i + needle.len()) == needle
}

/// The least position at or after `start` where `needle` stands in `hay`.
pub open spec fn find_from(hay: Seq<char>, needle: Seq<char>, start: int) -> Option<int>
    decreases hay.len() - start + 1,
{
    if start < 0 || start + needle.len() > hay.len() {
        None
    } else if occurs_at(hay, needle, start) {
        Some(start)
    } else {
        find_from(hay, needle, start + 1)
    }
}

/// The least position where `needle` stands in `hay`.
pub open spec fn find_text(hay: Seq<char>, needle: Seq<char>) -> Option<int> {
    find_from(hay, needle, 0)
}

/// `needle` stands somewhere in `hay`.
pub open spec fn contains_text(hay: Seq<char>, needle: Seq<char>) -> bool {
    exists|i: int| occurs_at(hay, needle, i)
}

/// `s` ends with `suffix`.
pub open spec fn ends_with_text(s: Seq<char>, suffix: Seq<char>) -> bool {
    &&& suffix.len() <= s.len()
    &&& s.subrange(s.len() - suffix.len(), s.len() as int) == suffix
}

/// `s` without `suffix` at its end; `s` itself where it does not end with it.
pub open spec fn without_suffix(s: Seq<char>, suffix: Seq<char>) -> Seq<char> {
    if ends_with_text(s, suffix) {
        s.subrange(0, s.len() - suffix.len())
    } else {
        s
    }
}

/// The position just behind the last `/` of `s`, or 0 where `s` holds none.
pub open spec fn segment_start(s: Seq<char>) -> int
    decreases s.len(),
{
    if s.len() == 0 {
        0
    } else if s.last() == '/' {
        s.len() as int
    } else {
        segment_start(s.drop_last())
    }
}

/// What follows the last `/` of `s`; all of `s` where it holds none.
pub open spec fn last_segment(s: Seq<char>) -> Seq<char> {
    s.subrange(segment_start(s), s.len() as int)
}

/// The parts joined, with `sep` between neighbours.
pub open spec fn join_texts(parts: Seq<Seq<char>>, sep: Seq<char>) -> Seq<char>
    decreases parts.len(),
{
    if parts.len() == 0 {
        Seq::empty()
    } else if parts.len() == 1 {
        parts[0]
    } else {
        join_texts(parts.drop_last(), sep) + sep + parts.last()
    }
}

/// `needle` is one of `items`.
pub open spec fn has_text(items: Seq<Seq<char>>, needle: Seq<char>) -> bool {
    exists|i: int| 0 <= i < items.len() && items[i] == needle
}

/// `find_from` gives the least position from `start` on, and none only where there is none.
pub proof fn find_from_is_least(hay: Seq<char>, needle: Seq<char>, start: int)
    requires
        0 <= start,
    ensures
        match find_from(hay, needle, start) {
            Some(i) => start <= i && occurs_at(hay, needle, i) && forall|j: int|
                start <= j < i ==> !occurs_at(hay, needle, j),
            None => forall|j: int| start <= j ==> !occurs_at(hay, needle, j),
        },
    decreases hay.len() - start + 1,
{
    if start + needle.len() > hay.len() {
    } else if occurs_at(hay, needle, start) {
    } else {
        find_from_is_least(hay, needle, start + 1);
    }
}

/// A text is found exactly where it is contained.
pub proof fn find_text_iff_contains(hay: Seq<char>, needle: Seq<char>)
    ensures
        find_text(hay, needle) is Some <==> contains_text(hay, needle),
{
    find_from_is_least(hay, needle, 0);
    if contains_text(hay, needle) {
        let i = choose|i: int| occurs_at(hay, needle, i);
        assert(occurs_at(hay, needle, i));
    }
}

/// The last segment holds no `/`, and stands behind one unless it is the whole text.
pub proof fn last_segment_is_after_last_slash(s: Seq<char>)
    ensures
        0 <= segment_start(s) <= s.len(),
        forall|k: int| segment_start(s) <= k < s.len() ==> s[k] != '/',
        segment_start(s) > 0 ==> s[segment_start(s) - 1] == '/',
    decreases s.len(),
{
    if s.len() == 0 {
    } else if s.last() == '/' {
    } else {
        let front = s.drop_last();
        last_segment_is_after_last_slash(front);
        assert forall|k: int| segment_start(s) <= k < s.len() implies s[k] != '/' by {
            if k < front.len() {
                assert(s[k] == front[k]);
            }
        }
        if segment_start(s) > 0 {
            assert(s[segment_start(s) - 1] == front[segment_start(front) - 1]);
        }
    }
}

/// The characters of a string, in order.
pub(crate) fn chars_of(s: &str) -> (v: Vec<char>)
    ensures
        v@ == s@,
{
    let mut v: Vec<char> = Vec::new();
    for c in it: s.chars()
        invariant
            v@ == it.seq().take(it.index() as int),
            it.seq() == s@,
    {
        v.push(c);
    }
    v
}

/// The string made of the characters of `v` from `from` up to `to`.
pub(crate) fn substring(v: &Vec<char>, from: usize, to: usize) -> (r: String)
    requires
        from <= to <= v.len(),
    ensures
        r@ == v@.subrange(from as int, to as int),
{
    let mut r = String::new();
    let mut i: usize = from;
    while i < to
        invariant
            from <= i <= to <= v.len(),
            r@ == v@.subrange(from as int, i as int),
        decreases to - i,
    {
        r.push(v[i]);
        i += 1;
        assert(r@ =~= v@.subrange(from as int, i as int));
    }
    r
}

/// Two texts are equal.
pub fn text_eq(a: &str, b: &str) -> (r: bool)
    ensures
        r == (a@ == b@),
{
    let x = a.to_owned();
    let y = b.to_owned();
    x == y
}

/// `needle` is one of `items`.
pub fn list_has(items: &Vec<String>, needle: &str) -> (r: bool)
    ensures
        r == has_text(texts(items@), needle@),
{
    let mut i: usize = 0;
    while i < items.len()
        invariant
            i <= items.len(),
            forall|j: int| 0 <= j < i ==> texts(items@)[j] != needle@,
        decreases items.len() - i,
    {
        if text_eq(items[i].as_str(), needle) {
            assert(texts(items@)[i as int] == needle@);
            return true;
        }
        i += 1;
    }
    false
}

/// `needle` stands in `hay` at position `at`.
pub(crate) fn matches_at(hay: &Vec<char>, needle: &Vec<char>, at: usize) -> (r: bool)
    requires
        at + needle.len() <= hay.len(),
    ensures
        r == occurs_at(hay@, needle@, at as int),
{
    let mut k: usize = 0;
    while k < needle.len()
        invariant
            k <= needle.len(),
            at + needle.len() <= hay.len(),
            forall|j: int| 0 <= j < k ==> hay@[at + j] == needle@[j],
        decreases needle.len() - k,
    {
        if hay[at + k] != needle[k] {
            assert(hay@.subrange(at as int, at + needle.len())[k as int] != needle@[k as int]);
            return false;
        }
        k += 1;
    }
    assert(hay@.subrange(at as int, at + needle.len()) =~= needle@);
    true
}

/// The least position at or after `start` where `needle` stands in `hay`.
pub(crate) fn find_in(hay: &Vec<char>, needle: &Vec<char>, start: usize) -> (r: Option<usize>)
    ensures
        match r {
            Some(i) => find_from(hay@, needle@, start as int) == Some(i as int) && start <= i
                && i + needle.len() <= hay.len(),
            None => find_from(hay@, needle@, start as int) is None,
        },
{
    proof {
        find_from_is_least(hay@, needle@, start as int);
    }
    if needle.len() > hay.len() || start > hay.len() - needle.len() {
        return None;
    }
    let last: usize = hay.len() - needle.len();
    let mut i: usize = start;
    while i < last
        invariant
            start <= i <= last,
            last == hay.len() - needle.len(),
            find_from(hay@, needle@, start as int) == find_from(hay@, needle@, i as int),
        decreases last - i,
    {
        if matches_at(hay, needle, i) {
            return Some(i);
        }
        i += 1;
    }
    if matches_at(hay, needle, last) {
        Some(last)
    } else {
        assert(find_from(hay@, needle@, last + 1) is None);
        None
    }
}

/// `needle` stands somewhere in `hay`.
pub fn text_contains(hay: &str, needle: &str) -> (r: bool)
    ensures
        r == contains_text(hay@, needle@),
{
    let h = chars_of(hay);
    let n = chars_of(needle);
    proof {
        find_text_iff_contains(hay@, needle@);
    }
    find_in(&h, &n, 0).is_some()
}

/// `s` without `suffix` at its end; a copy of `s` where it does not end with it.
pub fn strip_suffix(s: &str, suffix: &str) -> (r: String)
    ensures
        r@ == without_suffix(s@, suffix@),
{
    let h = chars_of(s);
    let n = chars_of(suffix);
    if n.len() <= h.len() && matches_at(&h, &n, h.len() - n.len()) {
        substring(&h, 0, h.len() - n.len())
    } else {
        s.to_owned()
    }
}

/// What follows the last `/` of `s`; all of `s` where it holds none.
pub fn last_path_segment(s: &str) -> (r: String)
    ensures
        r@ == last_segment(s@),
{
    let v = chars_of(s);
    let mut i: usize = v.len();
    assert(v@.take(v.len() as int) =~= v@);
    while i > 0 && v[i - 1] != '/'
        invariant
            i <= v.len(),
            segment_start(v@) == segment_start(v@.take(i as int)),
        decreases i,
    {
        assert(v@.take(i as int).drop_last() =~= v@.take(i - 1));
        assert(v@.take(i as int).last() == v@[i - 1]);
        i -= 1;
    }
    proof {
        let head = v@.take(i as int);
        if i > 0 {
            assert(head.last() == v@[i - 1]);
        }
        assert(segment_start(head) == i);
    }
    substring(&v, i, v.len())
}

/// The parts joined, with `sep` between neighbours.
pub fn join(parts: &Vec<String>, sep: &str) -> (r: String)
    ensures
        r@ == join_texts(texts(parts@), sep@),
{
    let mut r = String::new();
    let mut i: usize = 0;
    while i < parts.len()
        invariant
            i <= parts.len(),
            r@ == join_texts(texts(parts@).take(i as int), sep@),
        decreases parts.len() - i,
    {
        if i > 0 {
            r.append(sep);
        }
        r.append(parts[i].as_str());
        proof {
            let before = texts(parts@).take(i as int);
            let after = texts(parts@).take(i + 1);
            assert(after.drop_last() =~= before);
            assert(after.last() == parts@[i as int]@);
            if i == 0 {
                assert(r@ =~= parts@[0]@);
            }
        }
        i += 1;
    }
    assert(texts(parts@).take(parts.len() as int) =~= texts(parts@));
    r
}

/// The first position of `name` in `names`.
pub open spec fn index_of_text(names: Seq<Seq<char>>, name: Seq<char>) -> Option<int>
    decreases names.len(),
{
    if names.len() == 0 {
        None
    } else {
        match index_of_text(names.drop_last(), name) {
            Some(i) => Some(i),
            None => if names.last() == name {
                Some(names.len() - 1)
            } else {
                None
            },
        }
    }
}

/// The last position of `name` in `names`.
pub open spec fn last_index_of_text(names: Seq<Seq<char>>, name: Seq<char>) -> Option<int>
    decreases names.len(),
{
    if names.len() == 0 {
        None
    } else if names.last() == name {
        Some(names.len() - 1)
    } else {
        last_index_of_text(names.drop_last(), name)
    }
}

/// No text occurs twice in `names`.
pub open spec fn distinct_texts(names: Seq<Seq<char>>) -> bool {
    forall|i: int, j: int| 0 <= i < j < names.len() ==> names[i] != names[j]
}

/// `index_of_text` gives the least position that holds `name`, and none only where
/// no position holds it.
pub proof fn index_of_text_is_first(names: Seq<Seq<char>>, name: Seq<char>)
    ensures
        match index_of_text(names, name) {
            Some(i) => 0 <= i < names.len() && names[i] == name && forall|j: int|
                0 <= j < i ==> names[j] != name,
            None => forall|j: int| 0 <= j < names.len() ==> names[j] != name,
        },
        index_of_text(names, name) is Some <==> has_text(names, name),
    decreases names.len(),
{
    if names.len() > 0 {
        let front = names.drop_last();
        index_of_text_is_first(front, name);
        assert forall|j: int| 0 <= j < front.len() implies front[j] == names[j] by {}
        match index_of_text(front, name) {
            Some(i) => {
                assert(names[i] == front[i]);
            },
            None => {},
        }
    }
}

/// `last_index_of_text` gives the greatest position that holds `name`, and none only
/// where no position holds it.
pub proof fn last_index_of_text_is_last(names: Seq<Seq<char>>, name: Seq<char>)
    ensures
        match last_index_of_text(names, name) {
            Some(i) => 0 <= i < names.len() && names[i] == name && forall|j: int|
                i < j < names.len() ==> names[j] != name,
            None => forall|j: int| 0 <= j < names.len() ==> names[j] != name,
        },
    decreases names.len(),
{
    if names.len() > 0 && names.last() != name {
        let front = names.drop_last();
        last_index_of_text_is_last(front, name);
        assert forall|j: int| 0 <= j < front.len() implies front[j] == names[j] by {}
        match last_index_of_text(front, name) {
            Some(i) => {
                assert(names[i] == front[i]);
            },
            None => {},
        }
    }
}

/// The texts that `f` gives for the items, one behind the other.
pub open spec fn concat_map<T>(items: Seq<T>, f: spec_fn(T) -> Seq<char>) -> Seq<char>
    decreases items.len(),
{
    if items.len() == 0 {
        Seq::empty()
    } else {
        concat_map(items.drop_last(), f) + f(items.last())
    }
}

/// The text for the first `i + 1` items is the text for the first `i`, followed by
/// the text of item `i`.
pub proof fn concat_map_step<T>(items: Seq<T>, f: spec_fn(T) -> Seq<char>, i: int)
    requires
        0 <= i < items.len(),
    ensures
        concat_map(items.take(i + 1), f) == concat_map(items.take(i), f) + f(items[i]),
        concat_map(items.take(0), f) == Seq::<char>::empty(),
        concat_map(items.take(items.len() as int), f) == concat_map(items, f),
{
    assert(items.take(i + 1).drop_last() =~= items.take(i));
    assert(items.take(items.len() as int) =~= items);
}

/// The path `rel` under the directory `base`, as a text with `/` between the parts:
/// `rel` alone where it starts at the root, else `base`, a `/` unless `base` is empty
/// or ends with one, and `rel`.
pub open spec fn joined_path(base: Seq<char>, rel: Seq<char>) -> Seq<char> {
    if rel.len() > 0 && rel[0] == '/' {
        rel
    } else if base.len() == 0 || base.last() == '/' {
        base + rel
    } else {
        base + "/"@ + rel
    }
}

/// The path `rel` under the directory `base`.
pub fn join_path(base: &str, rel: &str) -> (r: String)
    ensures
        r@ == joined_path(base@, rel@),
{
    let b = chars_of(base);
    let p = chars_of(rel);
    if p.len() > 0 && p[0] == '/' {
        rel.to_owned()
    } else if b.len() == 0 || b[b.len() - 1] == '/' {
        let mut r = base.to_owned();
        r.append(rel);
        r
    } else {
        let mut r = base.to_owned();
        r.append("/");
        r.append(rel);
        r
    }
}

/// The views of a sequence of values, in order.
pub open spec fn views<T: View>(items: Seq<T>) -> Seq<T::V> {
    items.map_values(|t: T| t@)
}

/// Appends the text that `line` gives for each item, in order.
pub(crate) fn push_each<T: View, F: Fn(&T) -> String>(
    content: &mut String,
    items: &Vec<T>,
    line: F,
    Ghost(f): Ghost<spec_fn(T::V) -> Seq<char>>,
)
    requires
        forall|x: &T| line.requires((x,)),
        forall|x: &T, r: String| line.ensures((x,), r) ==> r@ == f(x@),
    ensures
        final(content)@ == old(content)@ + concat_map(views(items@), f),
{
    let ghost start = content@;
    let ghost all = views(items@);
    let mut i: usize = 0;
    assert(all.take(0) =~= Seq::<T::V>::empty());
    assert(content@ =~= start + Seq::<char>::empty());
    while i < items.len()
        invariant
            i <= items.len(),
            all == views(items@),
            forall|x: &T| line.requires((x,)),
            forall|x: &T, r: String| line.ensures((x,), r) ==> r@ == f(x@),
            content@ == start + concat_map(all.take(i as int), f),
        decreases items.len() - i,
    {
        proof {
            concat_map_step(all, f, i as int);
        }
        let text = line(&items[i]);
        content.append(text.as_str());
        assert(content@ =~= start + (concat_map(all.take(i as int), f) + f(all[i as int])));
        i += 1;
    }
    assert(all.take(items.len() as int) =~= all);
}

/// Putting sequences one behind the other does not depend on where one starts.
pub proof fn concat_assoc<T>(a: Seq<T>, b: Seq<T>, c: Seq<T>)
    ensures
        (a + b) + c == a + (b + c),
{
    assert((a + b) + c =~= a + (b + c));
}

/// `head` followed by `tail`.
pub fn concat(head: &str, tail: &str) -> (r: String)
    ensures
        r@ == head@ + tail@,
{
    let mut r = head.to_owned();
    r.append(tail);
    r
}

} // verus!
