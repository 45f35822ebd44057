//! Character-level helpers shared by the vector parsers and renderers.

use vstd::prelude::*;

verus! {

/// The ASCII upper-case form of a character; characters outside `a..=z` are unchanged.
pub open spec fn upper_char(c: char) -> char {
    if 'a' <= c && c <= 'z' {
        ((c as u8) - 32) as char
    } else {
        c
    }
}

/// The text with every character replaced by its ASCII upper-case form.
pub open spec fn upper(s: Seq<char>) -> Seq<char> {
    Seq::new(s.len(), |i: int| upper_char(s[i]))
}

/// Position of the first occurrence of `sep` in `s`, or `s.len()` when there is none.
pub open spec fn first_index(s: Seq<char>, sep: char) -> int
    decreases s.len(),
{
    if s.len() == 0 || s[0] == sep {
        0
    } else {
        1 + first_index(s.drop_first(), sep)
    }
}

/// The pieces of `s` between occurrences of `sep`. There is always at least one piece;
/// `n` separators give `n + 1` pieces, some of which may be empty.
pub open spec fn split(s: Seq<char>, sep: char) -> Seq<Seq<char>>
    decreases s.len(),
{
    let i = first_index(s, sep);
    if 0 <= i < s.len() {
        seq![s.take(i)] + split(s.skip(i + 1), sep)
    } else {
        seq![s]
    }
}

/// Whether `sep` occurs nowhere in `s`.
pub open spec fn free_of(s: Seq<char>, sep: char) -> bool {
    forall|i: int| 0 <= i < s.len() ==> s[i] != sep
}

/// The pieces joined with `sep` between neighbours.
pub open spec fn join(parts: Seq<Seq<char>>, sep: char) -> Seq<char>
    decreases parts.len(),
{
    if parts.len() == 0 {
        Seq::empty()
    } else if parts.len() == 1 {
        parts[0]
    } else {
        join(parts.drop_last(), sep) + seq![sep] + parts.last()
    }
}

/// Whether no piece holds `sep`.
pub open spec fn all_free_of(parts: Seq<Seq<char>>, sep: char) -> bool {
    forall|i: int| 0 <= i < parts.len() ==> free_of(#[trigger] parts[i], sep)
}

pub proof fn lemma_first_index_bounds(s: Seq<char>, sep: char)
    ensures
        0 <= first_index(s, sep) <= s.len(),
    decreases s.len(),
{
    if s.len() == 0 || s[0] == sep {
    } else {
        lemma_first_index_bounds(s.drop_first(), sep);
    }
}

/// `first_index` is the unique position before which `sep` does not occur and at which it
/// does (or the text ends).
pub proof fn lemma_first_index_is(s: Seq<char>, sep: char, i: int)
    requires
        0 <= i <= s.len(),
        forall|j: int| 0 <= j < i ==> s[j] != sep,
        i == s.len() || s[i] == sep,
    ensures
        first_index(s, sep) == i,
    decreases s.len(),
{
    if s.len() == 0 || s[0] == sep {
    } else {
        let t = s.drop_first();
        assert forall|j: int| 0 <= j < i - 1 implies t[j] != sep by {
            assert(t[j] == s[j + 1]);
        }
        lemma_first_index_is(t, sep, i - 1);
    }
}

/// A text without the separator is its own single piece.
pub proof fn lemma_split_free(s: Seq<char>, sep: char)
    requires
        free_of(s, sep),
    ensures
        split(s, sep) == seq![s],
{
    lemma_first_index_is(s, sep, s.len() as int);
}

/// Splitting `a + [sep] + b`, where `a` is free of `sep`, gives `a` followed by the pieces of `b`.
pub proof fn lemma_split_cons(a: Seq<char>, b: Seq<char>, sep: char)
    requires
        free_of(a, sep),
    ensures
        split(a + seq![sep] + b, sep) == seq![a] + split(b, sep),
{
    let s = a + seq![sep] + b;
    lemma_first_index_is(s, sep, a.len() as int);
    assert(s.take(a.len() as int) =~= a);
    assert(s.skip(a.len() as int + 1) =~= b);
}

/// Splitting `a + [sep] + b`, where `b` is free of `sep`, gives the pieces of `a` followed by `b`.
pub proof fn lemma_split_snoc(a: Seq<char>, b: Seq<char>, sep: char)
    requires
        free_of(b, sep),
    ensures
        split(a + seq![sep] + b, sep) == split(a, sep).push(b),
    decreases a.len(),
{
    let s = a + seq![sep] + b;
    let i = first_index(a, sep);
    lemma_first_index_bounds(a, sep);
    if i < a.len() {
        lemma_first_index_witness(a, sep);
        lemma_first_index_is(s, sep, i);
        let rest = a.skip(i + 1);
        lemma_split_snoc(rest, b, sep);
        assert(s.skip(i + 1) =~= rest + seq![sep] + b);
        assert(s.take(i) =~= a.take(i));
        assert(seq![a.take(i)] + split(rest, sep).push(b) =~= (seq![a.take(i)] + split(
            rest,
            sep,
        )).push(b));
    } else {
        lemma_first_index_witness(a, sep);
        lemma_split_cons(a, b, sep);
        lemma_split_free(b, sep);
        lemma_split_free(a, sep);
        assert(seq![a] + seq![b] =~= seq![a].push(b));
    }
}

/// Before `first_index` the separator does not occur, and at it the separator stands
/// unless the text ends there.
pub proof fn lemma_first_index_witness(s: Seq<char>, sep: char)
    ensures
        forall|j: int| 0 <= j < first_index(s, sep) ==> s[j] != sep,
        first_index(s, sep) < s.len() ==> s[first_index(s, sep)] == sep,
        first_index(s, sep) >= s.len() ==> free_of(s, sep),
    decreases s.len(),
{
    lemma_first_index_bounds(s, sep);
    if s.len() == 0 || s[0] == sep {
    } else {
        let t = s.drop_first();
        lemma_first_index_witness(t, sep);
        lemma_first_index_bounds(t, sep);
        assert forall|j: int| 0 <= j < first_index(s, sep) implies s[j] != sep by {
            if j > 0 {
                assert(s[j] == t[j - 1]);
            }
        }
        if first_index(s, sep) >= s.len() {
            assert forall|j: int| 0 <= j < s.len() implies s[j] != sep by {
                if j > 0 {
                    assert(s[j] == t[j - 1]);
                }
            }
        } else {
            assert(s[first_index(s, sep)] == t[first_index(t, sep)]);
        }
    }
}

/// Splitting undoes joining when no piece holds the separator.
pub proof fn lemma_split_join(parts: Seq<Seq<char>>, sep: char)
    requires
        parts.len() >= 1,
        all_free_of(parts, sep),
    ensures
        split(join(parts, sep), sep) == parts,
    decreases parts.len(),
{
    if parts.len() == 1 {
        lemma_split_free(parts[0], sep);
        assert(seq![parts[0]] =~= parts);
    } else {
        let front = parts.drop_last();
        assert forall|i: int| 0 <= i < front.len() implies free_of(#[trigger] front[i], sep) by {
            assert(front[i] == parts[i]);
        }
        lemma_split_join(front, sep);
        lemma_split_snoc(join(front, sep), parts.last(), sep);
        assert(front.push(parts.last()) =~= parts);
    }
}

/// Pieces free of the separator stay so when put together.
pub proof fn lemma_all_free_concat(a: Seq<Seq<char>>, b: Seq<Seq<char>>, sep: char)
    requires
        all_free_of(a, sep),
        all_free_of(b, sep),
    ensures
        all_free_of(a + b, sep),
{
    assert forall|i: int| 0 <= i < (a + b).len() implies free_of(#[trigger] (a + b)[i], sep) by {
        if i < a.len() {
            assert((a + b)[i] == a[i]);
        } else {
            assert((a + b)[i] == b[i - a.len()]);
        }
    }
}

/// There is always at least one piece.
pub proof fn lemma_split_len(s: Seq<char>, sep: char)
    ensures
        split(s, sep).len() >= 1,
    decreases s.len(),
{
    let i = first_index(s, sep);
    lemma_first_index_bounds(s, sep);
    if 0 <= i < s.len() {
        lemma_split_len(s.skip(i + 1), sep);
    }
}

/// The pieces of the text from `start` on, given the position `end` of the next separator:
/// the text between the two, then the pieces of what follows the separator.
pub proof fn lemma_split_at(s: Seq<char>, start: int, end: int, sep: char)
    requires
        0 <= start <= end <= s.len(),
        first_index(s.skip(start), sep) == end - start,
    ensures
        end < s.len() ==> split(s.skip(start), sep) == seq![s.subrange(start, end)] + split(
            s.skip(end + 1),
            sep,
        ),
        end == s.len() ==> split(s.skip(start), sep) == seq![s.subrange(start, end)],
{
    let t = s.skip(start);
    assert(t.take(end - start) =~= s.subrange(start, end));
    if end < s.len() {
        assert(t.skip(end - start + 1) =~= s.skip(end + 1));
    } else {
        assert(t =~= s.subrange(start, end));
    }
}

/// Every piece with `sep` before it, one after the other.
pub open spec fn chain(parts: Seq<Seq<char>>, sep: char) -> Seq<char>
    decreases parts.len(),
{
    if parts.len() == 0 {
        Seq::empty()
    } else {
        chain(parts.drop_last(), sep) + seq![sep] + parts.last()
    }
}

/// Chaining one more piece appends the separator and the piece.
pub proof fn lemma_chain_push(parts: Seq<Seq<char>>, piece: Seq<char>, sep: char)
    ensures
        chain(parts + seq![piece], sep) == chain(parts, sep) + seq![sep] + piece,
{
    let all = parts + seq![piece];
    assert(all.drop_last() =~= parts);
    assert(all.last() == piece);
}

/// The chain of `a + b` is the chain of `a` followed by that of `b`.
pub proof fn lemma_chain_concat(a: Seq<Seq<char>>, b: Seq<Seq<char>>, sep: char)
    ensures
        chain(a + b, sep) == chain(a, sep) + chain(b, sep),
    decreases b.len(),
{
    if b.len() == 0 {
        assert(a + b =~= a);
        assert(chain(a, sep) + chain(b, sep) =~= chain(a, sep));
    } else {
        lemma_chain_concat(a, b.drop_last(), sep);
        assert((a + b).drop_last() =~= a + b.drop_last());
        assert((a + b).last() == b.last());
        assert(chain(a + b, sep) =~= chain(a, sep) + chain(b, sep));
    }
}

/// Joining a first piece and further pieces gives the first piece and the chain of the others.
pub proof fn lemma_join_chain(first: Seq<char>, parts: Seq<Seq<char>>, sep: char)
    ensures
        join(seq![first] + parts, sep) == first + chain(parts, sep),
    decreases parts.len(),
{
    let all = seq![first] + parts;
    if parts.len() == 0 {
        assert(all =~= seq![first]);
        assert(first + chain(parts, sep) =~= first);
    } else {
        lemma_join_chain(first, parts.drop_last(), sep);
        assert(all.drop_last() =~= seq![first] + parts.drop_last());
        assert(all.last() == parts.last());
        assert(join(all, sep) =~= first + chain(parts, sep));
    }
}

/// The chain of at least one piece is the separator followed by the pieces joined.
pub proof fn lemma_chain_join(parts: Seq<Seq<char>>, sep: char)
    requires
        parts.len() >= 1,
    ensures
        chain(parts, sep) == seq![sep] + join(parts, sep),
    decreases parts.len(),
{
    if parts.len() == 1 {
        assert(parts.drop_last().len() == 0);
        assert(chain(parts.drop_last(), sep) =~= Seq::<char>::empty());
        assert(chain(parts, sep) =~= seq![sep] + parts[0]);
    } else {
        lemma_chain_join(parts.drop_last(), sep);
        assert(chain(parts, sep) =~= seq![sep] + join(parts, sep));
    }
}

/// The characters of a string slice, in order.
pub fn to_chars(s: &str) -> (v: Vec<char>)
    ensures
        v@ == s@,
{
    let mut v: Vec<char> = Vec::new();
    let mut it = s.chars();
    for c in iter: it
        invariant
            iter.seq() == s@,
            v@ == iter.seq().take(iter.index() as int),
    {
        v.push(c);
        assert(v@ =~= iter.seq().take(iter.index() + 1));
    }
    assert(v@ =~= s@);
    v
}

/// Position of the first `sep` at or after `start`, or the length when there is none.
pub fn find(v: &Vec<char>, start: usize, sep: char) -> (end: usize)
    requires
        start <= v.len(),
    ensures
        start <= end <= v.len(),
        forall|j: int| start <= j < end ==> v@[j] != sep,
        end == v.len() || v@[end as int] == sep,
        first_index(v@.skip(start as int), sep) == end - start,
{
    let mut end: usize = start;
    while end < v.len() && v[end] != sep
        invariant
            start <= end <= v.len(),
            forall|j: int| start <= j < end ==> v@[j] != sep,
        decreases v.len() - end,
    {
        end = end + 1;
    }
    proof {
        lemma_first_index_is(v@.skip(start as int), sep, end - start);
    }
    end
}

/// A copy of the characters at positions `start..end`.
pub fn copy_range(v: &Vec<char>, start: usize, end: usize) -> (r: Vec<char>)
    requires
        start <= end <= v.len(),
    ensures
        r@ == v@.subrange(start as int, end as int),
{
    let mut r: Vec<char> = Vec::new();
    let mut i: usize = start;
    while i < end
        invariant
            start <= i <= end <= v.len(),
            r@ == v@.subrange(start as int, i as int),
        decreases end - i,
    {
        r.push(v[i]);
        i = i + 1;
        assert(r@ =~= v@.subrange(start as int, i as int));
    }
    r
}

/// The ASCII upper-case form of one character.
pub fn to_upper_char(c: char) -> (r: char)
    ensures
        r == upper_char(c),
{
    if 'a' <= c && c <= 'z' {
        ((c as u8) - 32) as char
    } else {
        c
    }
}

/// The ASCII upper-case form of a text.
pub fn to_upper(v: &Vec<char>) -> (r: Vec<char>)
    ensures
        r@ == upper(v@),
{
    let mut r: Vec<char> = Vec::new();
    let mut i: usize = 0;
    while i < v.len()
        invariant
            i <= v.len(),
            r@.len() == i,
            forall|j: int| 0 <= j < i ==> r@[j] == upper_char(v@[j]),
        decreases v.len() - i,
    {
        r.push(to_upper_char(v[i]));
        i = i + 1;
    }
    assert(r@ =~= upper(v@));
    r
}

/// Appends one character to a string. Stands for `String::push`, which adds exactly the
/// given character at the end and leaves the rest of the string as it was.
#[verifier::external_body]
fn push_char(s: &mut String, c: char)
    ensures
        final(s)@ == old(s)@.push(c),
{
    s.push(c)
}

/// The string holding the given characters.
pub fn to_string(v: &Vec<char>) -> (s: String)
    ensures
        s@ == v@,
{
    let mut s = String::new();
    let mut i: usize = 0;
    while i < v.len()
        invariant
            i <= v.len(),
            s@ == v@.take(i as int),
        decreases v.len() - i,
    {
        push_char(&mut s, v[i]);
        i = i + 1;
        assert(s@ =~= v@.take(i as int));
    }
    assert(s@ =~= v@);
    s
}

/// Whether the text is exactly the one character `a`.
pub open spec fn spells1(s: Seq<char>, a: char) -> bool {
    s.len() == 1 && s[0] == a
}

/// Whether the text is exactly the two characters `a`, `b`.
pub open spec fn spells2(s: Seq<char>, a: char, b: char) -> bool {
    s.len() == 2 && s[0] == a && s[1] == b
}

/// Whether the text is exactly the three characters `a`, `b`, `c`.
pub open spec fn spells3(s: Seq<char>, a: char, b: char, c: char) -> bool {
    s.len() == 3 && s[0] == a && s[1] == b && s[2] == c
}

/// Whether the text is exactly the four characters `a`, `b`, `c`, `d`.
pub open spec fn spells4(s: Seq<char>, a: char, b: char, c: char, d: char) -> bool {
    s.len() == 4 && s[0] == a && s[1] == b && s[2] == c && s[3] == d
}

/// Whether the text is exactly the five characters `a`, `b`, `c`, `d`, `e`.
pub open spec fn spells5(s: Seq<char>, a: char, b: char, c: char, d: char, e: char) -> bool {
    s.len() == 5 && s[0] == a && s[1] == b && s[2] == c && s[3] == d && s[4] == e
}

/// Whether the text is exactly the one character `a`.
pub fn is1(v: &Vec<char>, a: char) -> (r: bool)
    ensures
        r == spells1(v@, a),
{
    v.len() == 1 && v[0] == a
}

/// Whether the text is exactly the two characters `a`, `b`.
pub fn is2(v: &Vec<char>, a: char, b: char) -> (r: bool)
    ensures
        r == spells2(v@, a, b),
{
    v.len() == 2 && v[0] == a && v[1] == b
}

/// Whether the text is exactly the three characters `a`, `b`, `c`.
pub fn is3(v: &Vec<char>, a: char, b: char, c: char) -> (r: bool)
    ensures
        r == spells3(v@, a, b, c),
{
    v.len() == 3 && v[0] == a && v[1] == b && v[2] == c
}

/// Whether the text is exactly the four characters `a`, `b`, `c`, `d`.
pub fn is4(v: &Vec<char>, a: char, b: char, c: char, d: char) -> (r: bool)
    ensures
        r == spells4(v@, a, b, c, d),
{
    v.len() == 4 && v[0] == a && v[1] == b && v[2] == c && v[3] == d
}

/// Whether the text is exactly the five characters `a`, `b`, `c`, `d`, `e`.
pub fn is5(v: &Vec<char>, a: char, b: char, c: char, d: char, e: char) -> (r: bool)
    ensures
        r == spells5(v@, a, b, c, d, e),
{
    v.len() == 5 && v[0] == a && v[1] == b && v[2] == c && v[3] == d && v[4] == e
}

/// Appends the characters of `s` to `out`.
pub fn push_str(out: &mut Vec<char>, s: &str)
    ensures
        final(out)@ == old(out)@ + s@,
{
    let mut it = s.chars();
    let ghost before = out@;
    for c in iter: it
        invariant
            iter.seq() == s@,
            out@ == before + iter.seq().take(iter.index() as int),
    {
        out.push(c);
        assert(out@ =~= before + iter.seq().take(iter.index() + 1));
    }
    assert(out@ =~= before + s@);
}

} // verus!
