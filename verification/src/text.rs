//! Sequences of characters: the view of every string in this crate, and the
//! few operations on them that the rest of the library is stated with.

use vstd::prelude::*;
use vstd::string::*;

verus! {

/// The views of a sequence of values, in order.
pub open spec fn views<T: View>(s: Seq<T>) -> Seq<T::V> {
    s.map_values(|x: T| x@)
}

/// The view of an optional string.
pub open spec fn opt_view(s: Option<String>) -> Option<Seq<char>> {
    match s {
        Some(t) => Some(t@),
        None => None,
    }
}

/// `parts` written one after another with `sep` between neighbours.
pub open spec fn joined(parts: Seq<Seq<char>>, sep: Seq<char>) -> Seq<char>
    decreases parts.len(),
{
    if parts.len() == 0 {
        Seq::empty()
    } else if parts.len() == 1 {
        parts[0]
    } else {
        joined(parts.drop_last(), sep) + sep + parts.last()
    }
}

/// Joins `parts` with `sep` between neighbours.
pub fn join(parts: &Vec<String>, sep: &str) -> (r: String)
    ensures
        r@ == joined(views(parts@), sep@),
{
    let mut out = String::new();
    let mut i: usize = 0;
    while i < parts.len()
        invariant
            i <= parts.len(),
            out@ == joined(views(parts@).take(i as int), sep@),
        decreases parts.len() - i,
    {
        let ghost before = views(parts@).take(i as int);
        let ghost after = views(parts@).take(i as int + 1);
        assert(after.drop_last() =~= before);
        assert(after.last() == parts@[i as int]@);
        if i > 0 {
            out.append(sep);
        }
        out.append(parts[i].as_str());
        assert(out@ =~= joined(after, sep@));
        i += 1;
    }
    assert(views(parts@).take(parts.len() as int) =~= views(parts@));
    out
}

/// `head` followed by `tail`.
pub fn chain(head: &str, tail: &str) -> (r: String)
    ensures
        r@ == head@ + tail@,
{
    let mut out = head.to_owned();
    out.append(tail);
    out
}

/// Whether `k` is the first place in `keys` that holds `key`.
pub open spec fn is_first_at(keys: Seq<Seq<char>>, key: Seq<char>, k: int) -> bool {
    &&& 0 <= k < keys.len()
    &&& keys[k] == key
    &&& forall|j: int| 0 <= j < k ==> keys[j] != key
}

/// The first place in `keys` that holds `key`, if any does.
pub open spec fn first_place(keys: Seq<Seq<char>>, key: Seq<char>) -> Option<int> {
    if exists|k: int| is_first_at(keys, key, k) {
        Some(choose|k: int| is_first_at(keys, key, k))
    } else {
        None
    }
}

/// A place that is the first to hold `key` is the one [`first_place`] names.
pub proof fn lemma_first_place_is(keys: Seq<Seq<char>>, key: Seq<char>, k: int)
    requires
        is_first_at(keys, key, k),
    ensures
        first_place(keys, key) == Some(k),
{
    let c = choose|c: int| is_first_at(keys, key, c);
    assert(is_first_at(keys, key, c));
    if c < k {
        assert(keys[c] != key);
    }
    if k < c {
        assert(keys[k] != key);
    }
}

/// Where no place holds `key`, [`first_place`] names none.
pub proof fn lemma_first_place_none(keys: Seq<Seq<char>>, key: Seq<char>)
    requires
        forall|j: int| 0 <= j < keys.len() ==> keys[j] != key,
    ensures
        first_place(keys, key) is None,
{
}

/// Where [`first_place`] names a place, that place is the first to hold
/// `key`; where it names none, no place holds it.
pub proof fn lemma_first_place(keys: Seq<Seq<char>>, key: Seq<char>)
    ensures
        match first_place(keys, key) {
            Some(k) => is_first_at(keys, key, k),
            None => forall|j: int| 0 <= j < keys.len() ==> keys[j] != key,
        },
{
    if first_place(keys, key) is None {
        assert forall|j: int| 0 <= j < keys.len() implies keys[j] != key by {
            if keys[j] == key {
                lemma_some_first(keys, key, j);
            }
        }
    }
}

/// A key that occurs has a first occurrence.
proof fn lemma_some_first(keys: Seq<Seq<char>>, key: Seq<char>, j: int)
    requires
        0 <= j < keys.len(),
        keys[j] == key,
    ensures
        exists|k: int| is_first_at(keys, key, k),
    decreases j,
{
    if exists|i: int| 0 <= i < j && keys[i] == key {
        let i = choose|i: int| 0 <= i < j && keys[i] == key;
        lemma_some_first(keys, key, i);
    } else {
        assert(is_first_at(keys, key, j));
    }
}

/// Filtering and mapping a concatenation is concatenating what each part
/// gives.
pub proof fn lemma_filter_map_concat<A, B>(a: Seq<A>, b: Seq<A>, f: spec_fn(A) -> Option<B>)
    ensures
        (a + b).filter_map(f) == a.filter_map(f) + b.filter_map(f),
    decreases b.len(),
{
    if b.len() == 0 {
        assert(a + b =~= a);
        assert(a.filter_map(f) + b.filter_map(f) =~= a.filter_map(f));
    } else {
        assert((a + b).drop_last() =~= a + b.drop_last());
        assert((a + b).last() == b.last());
        lemma_filter_map_concat(a, b.drop_last(), f);
        match f(b.last()) {
            Some(x) => {
                assert((a.filter_map(f) + b.drop_last().filter_map(f)) + seq![x] =~= a.filter_map(
                    f,
                ) + (b.drop_last().filter_map(f) + seq![x]));
            },
            None => {},
        }
    }
}

/// What filtering and mapping a sequence gives, seen around one place `i`:
/// what the items before `i` give, then what the item at `i` gives, if
/// anything, then what the items after `i` give.
pub proof fn lemma_filter_map_around<A, B>(s: Seq<A>, f: spec_fn(A) -> Option<B>, i: int)
    requires
        0 <= i < s.len(),
    ensures
        s.filter_map(f) == s.take(i).filter_map(f) + (match f(s[i]) {
            Some(x) => seq![x],
            None => Seq::empty(),
        }) + s.skip(i + 1).filter_map(f),
        s.remove(i).filter_map(f) == s.take(i).filter_map(f) + s.skip(i + 1).filter_map(f),
{
    assert(s =~= s.take(i + 1) + s.skip(i + 1));
    lemma_filter_map_concat(s.take(i + 1), s.skip(i + 1), f);
    s.lemma_filter_map_take_succ(f, i);
    assert(s.remove(i) =~= s.take(i) + s.skip(i + 1));
    lemma_filter_map_concat(s.take(i), s.skip(i + 1), f);
}

/// Whether `sep` stands in `text` at place `i`.
pub open spec fn occurs_at(text: Seq<char>, sep: Seq<char>, i: int) -> bool {
    &&& 0 <= i
    &&& i + sep.len() <= text.len()
    &&& text.subrange(i, i + sep.len()) == sep
}

/// Whether `i` is the first place in `text` at which `sep` stands.
pub open spec fn is_first_occurrence(text: Seq<char>, sep: Seq<char>, i: int) -> bool {
    &&& occurs_at(text, sep, i)
    &&& forall|j: int| 0 <= j < i ==> !occurs_at(text, sep, j)
}

/// The pieces of `text` between the occurrences of `sep`, which are looked
/// for from left to right and do not overlap. A text without an occurrence
/// is one piece, and so is any text where `sep` is empty.
pub open spec fn split_text(text: Seq<char>, sep: Seq<char>) -> Seq<Seq<char>>
    decreases text.len(),
{
    if sep.len() > 0 && exists|i: int| is_first_occurrence(text, sep, i) {
        let i = choose|i: int| is_first_occurrence(text, sep, i);
        seq![text.take(i)] + split_text(text.skip(i + sep.len()), sep)
    } else {
        seq![text]
    }
}

/// A text is split at the first occurrence of the separator.
proof fn lemma_split_at_first(text: Seq<char>, sep: Seq<char>, i: int)
    requires
        sep.len() > 0,
        is_first_occurrence(text, sep, i),
    ensures
        split_text(text, sep) == seq![text.take(i)] + split_text(text.skip(i + sep.len()), sep),
{
    let c = choose|c: int| is_first_occurrence(text, sep, c);
    assert(is_first_occurrence(text, sep, c));
    if c < i {
        assert(!occurs_at(text, sep, c));
    }
    if i < c {
        assert(!occurs_at(text, sep, i));
    }
}

/// Splitting gives at least one piece.
pub proof fn lemma_split_has_a_piece(text: Seq<char>, sep: Seq<char>)
    ensures
        split_text(text, sep).len() >= 1,
{
}

/// A text without an occurrence of the separator is one piece.
proof fn lemma_split_without(text: Seq<char>, sep: Seq<char>)
    requires
        forall|j: int| 0 <= j ==> !occurs_at(text, sep, j),
    ensures
        split_text(text, sep) == seq![text],
{
}

/// An occurrence in what is left of a text after `from` is an occurrence in
/// the text, `from` places further on.
proof fn lemma_occurs_in_rest(text: Seq<char>, sep: Seq<char>, from: int, k: int)
    requires
        0 <= from <= text.len(),
        0 <= k,
    ensures
        occurs_at(text.skip(from), sep, k) == occurs_at(text, sep, from + k),
{
    if k + sep.len() <= text.len() - from {
        assert(text.skip(from).subrange(k, k + sep.len()) =~= text.subrange(
            from + k,
            from + k + sep.len(),
        ));
    }
}

/// The characters of a text.
pub fn chars_of(text: &str) -> (r: Vec<char>)
    ensures
        r@ == text@,
{
    let n = text.unicode_len();
    let mut out: Vec<char> = Vec::new();
    let mut i: usize = 0;
    while i < n
        invariant
            i <= n,
            n == text@.len(),
            out@ == text@.take(i as int),
        decreases n - i,
    {
        out.push(text.get_char(i));
        assert(out@ =~= text@.take(i as int + 1));
        i += 1;
    }
    assert(text@.take(n as int) =~= text@);
    out
}

/// Whether `sep` stands in `text` at place `i`.
fn stands_at(text: &Vec<char>, sep: &Vec<char>, i: usize) -> (r: bool)
    requires
        i + sep@.len() <= text@.len(),
    ensures
        r == occurs_at(text@, sep@, i as int),
{
    let n = text.len();
    let mut j: usize = 0;
    while j < sep.len()
        invariant
            j <= sep@.len(),
            n == text@.len(),
            i + sep@.len() <= text@.len(),
            forall|k: int| 0 <= k < j ==> text@[i + k] == sep@[k],
        decreases sep.len() - j,
    {
        if text[i + j] != sep[j] {
            assert(text@.subrange(i as int, i + sep@.len())[j as int] == text@[i + j]);
            return false;
        }
        j += 1;
    }
    assert(text@.subrange(i as int, i + sep@.len()) =~= sep@);
    true
}

/// Splits `text` at the occurrences of `sep`.
pub fn split(text: &str, sep: &str) -> (r: Vec<String>)
    ensures
        views(r@) == split_text(text@, sep@),
{
    let chars = chars_of(text);
    let mark = chars_of(sep);
    let n = chars.len();
    let m = mark.len();
    let mut out: Vec<String> = Vec::new();
    assert(views(out@) =~= Seq::<Seq<char>>::empty());
    if m == 0 || m > n {
        out.push(text.to_owned());
        assert(views(out@) =~= seq![text@]);
        return out;
    }
    let mut start: usize = 0;
    let mut i: usize = 0;
    assert(text@.skip(0) =~= text@);
    while i <= n - m
        invariant
            start <= i <= n,
            0 < m <= n,
            n == text@.len(),
            m == sep@.len(),
            chars@ == text@,
            mark@ == sep@,
            split_text(text@, sep@) == views(out@) + split_text(text@.skip(start as int), sep@),
            forall|j: int| start <= j < i ==> !occurs_at(text@, sep@, j),
        decreases n - i,
    {
        if stands_at(&chars, &mark, i) {
            let ghost rest = text@.skip(start as int);
            let ghost before = out@;
            proof {
                assert forall|j: int| 0 <= j < i - start implies !occurs_at(rest, sep@, j) by {
                    lemma_occurs_in_rest(text@, sep@, start as int, j);
                }
                lemma_occurs_in_rest(text@, sep@, start as int, i - start);
                lemma_split_at_first(rest, sep@, i - start);
                assert(rest.take(i - start) =~= text@.subrange(start as int, i as int));
                assert(rest.skip(i - start + m) =~= text@.skip(i + m));
            }
            out.push(text.substring_char(start, i).to_owned());
            assert(views(out@) =~= views(before) + seq![text@.subrange(start as int, i as int)]);
            assert(views(before) + (seq![rest.take(i - start)] + split_text(
                text@.skip(i + m),
                sep@,
            )) =~= views(out@) + split_text(text@.skip(i + m), sep@));
            start = i + m;
            i = start;
        } else {
            i += 1;
        }
    }
    let ghost rest = text@.skip(start as int);
    let ghost before = out@;
    proof {
        assert forall|j: int| 0 <= j implies !occurs_at(rest, sep@, j) by {
            lemma_occurs_in_rest(text@, sep@, start as int, j);
        }
        lemma_split_without(rest, sep@);
        assert(rest =~= text@.subrange(start as int, n as int));
    }
    out.push(text.substring_char(start, n).to_owned());
    assert(views(out@) =~= views(before) + seq![rest]);
    out
}

} // verus!
