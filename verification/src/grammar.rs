//! The parts of the vector grammar that all versions share: the `CVSS:<version>` token
//! and the `KEY:VALUE` shape of a component.

use vstd::prelude::*;
use crate::text::{
    all_free_of, chain, copy_range, find, free_of, is4, lemma_chain_push, lemma_first_index_is,
    lemma_split_at, lemma_split_cons, lemma_split_free, lemma_split_len, push_str, spells4, split,
    to_string, to_upper, upper,
};
use crate::{ParseError, ParseErrorView};

verus! {

/// Whether an executable parse result is the one that the grammar prescribes.
pub open spec fn agrees<M>(r: Result<M, ParseError>, expected: Result<M, ParseErrorView>) -> bool {
    match r {
        Ok(m) => expected == Ok::<M, ParseErrorView>(m),
        Err(e) => expected == Err::<M, ParseErrorView>(e@),
    }
}

/// Whether an error is of a kind that parsing raises. The kinds for a metric that is missing
/// or given twice are reserved: a missing metric shows when a score is asked for, and of a
/// metric given twice the last value counts.
pub open spec fn raised(e: ParseErrorView) -> bool {
    e is InvalidPrefix || e is InvalidVersion || e is InvalidComponent || e is UnknownMetric
        || e is InvalidMetricValue
}

/// Key and value of a component, both in upper case, when it holds exactly one `:`.
pub open spec fn key_value(component: Seq<char>) -> Option<(Seq<char>, Seq<char>)> {
    let parts = split(component, ':');
    if parts.len() == 2 {
        Some((upper(parts[0]), upper(parts[1])))
    } else {
        None
    }
}

/// The version literal of the first segment of a vector. The segment must hold a `:`,
/// and the text before its first `:` must read `CVSS` in any mix of cases; the version
/// literal is the text between the first `:` and the next one (or the end).
pub open spec fn prefix_version(first: Seq<char>) -> Result<Seq<char>, ParseErrorView> {
    let parts = split(first, ':');
    if parts.len() < 2 || !spells4(upper(parts[0]), 'C', 'V', 'S', 'S') {
        Err(ParseErrorView::InvalidPrefix { found: parts[0] })
    } else {
        Ok(parts[1])
    }
}

/// Whether a segment is no version prefix: whether it is an ordinary component.
pub open spec fn plain(segment: Seq<char>) -> bool {
    prefix_version(segment) is Err
}

/// Whether no segment is a version prefix.
pub open spec fn all_plain(segments: Seq<Seq<char>>) -> bool {
    forall|i: int| 0 <= i < segments.len() ==> plain(#[trigger] segments[i])
}

/// Segments that are no version prefix stay so when put together.
pub proof fn lemma_all_plain_concat(a: Seq<Seq<char>>, b: Seq<Seq<char>>)
    requires
        all_plain(a),
        all_plain(b),
    ensures
        all_plain(a + b),
{
    assert forall|i: int| 0 <= i < (a + b).len() implies plain(#[trigger] (a + b)[i]) by {
        if i < a.len() {
            assert((a + b)[i] == a[i]);
        } else {
            assert((a + b)[i] == b[i - a.len()]);
        }
    }
}

/// A component whose key is not four characters long is no version prefix.
pub proof fn lemma_component_plain(key: Seq<char>, code: Seq<char>)
    requires
        free_of(key, ':'),
        key.len() != 4,
    ensures
        plain(component(key, code)),
{
    lemma_first_index_is(component(key, code), ':', key.len() as int);
    assert(component(key, code).take(key.len() as int) =~= key);
    lemma_split_len(component(key, code).skip(key.len() as int + 1), ':');
}

/// A component `key:value` whose key and value hold no `:` splits into just these two.
pub proof fn lemma_key_value_of(key: Seq<char>, value: Seq<char>)
    requires
        free_of(key, ':'),
        free_of(value, ':'),
    ensures
        key_value(key + seq![':'] + value) == Some((upper(key), upper(value))),
{
    lemma_split_cons(key, value, ':');
    lemma_split_free(value, ':');
}

/// Splits a component into its upper-cased key and value.
pub fn read_key_value(component: &Vec<char>) -> (r: Option<(Vec<char>, Vec<char>)>)
    ensures
        match r {
            Some((k, v)) => key_value(component@) == Some((k@, v@)),
            None => key_value(component@) is None,
        },
{
    let n = component.len();
    let i = find(component, 0, ':');
    proof {
        assert(component@.skip(0) =~= component@);
        lemma_split_at(component@, 0, i as int, ':');
    }
    if i == n {
        return None;
    }
    let j = find(component, i + 1, ':');
    proof {
        lemma_split_at(component@, i + 1, j as int, ':');
        if j < n {
            lemma_split_len(component@.skip(j + 1), ':');
        }
    }
    if j < n {
        return None;
    }
    let key = copy_range(component, 0, i);
    let value = copy_range(component, i + 1, n);
    let key = to_upper(&key);
    let value = to_upper(&value);
    Some((key, value))
}

/// Checks the first segment of a vector and hands out its version literal.
pub fn read_prefix_version(first: &Vec<char>) -> (r: Result<Vec<char>, ParseError>)
    ensures
        match r {
            Ok(v) => prefix_version(first@) == Ok::<Seq<char>, ParseErrorView>(v@),
            Err(e) => prefix_version(first@) == Err::<Seq<char>, ParseErrorView>(e@),
        },
{
    let n = first.len();
    let i = find(first, 0, ':');
    proof {
        assert(first@.skip(0) =~= first@);
        lemma_split_at(first@, 0, i as int, ':');
        if i < n {
            lemma_split_len(first@.skip(i + 1), ':');
        }
    }
    let literal = copy_range(first, 0, i);
    let folded = to_upper(&literal);
    if i == n || !is4(&folded, 'C', 'V', 'S', 'S') {
        return Err(ParseError::InvalidPrefix { found: to_string(&literal) });
    }
    let j = find(first, i + 1, ':');
    proof {
        lemma_split_at(first@, i + 1, j as int, ':');
    }
    let version = copy_range(first, i + 1, j);
    Ok(version)
}

/// The component that renders one metric: key, `:`, code.
pub open spec fn component(key: Seq<char>, code: Seq<char>) -> Seq<char> {
    key + seq![':'] + code
}

/// The components that render one metric slot: one when the metric is present, none otherwise.
pub open spec fn opt_part(key: Seq<char>, code: Option<Seq<char>>) -> Seq<Seq<char>> {
    match code {
        Some(c) => seq![component(key, c)],
        None => Seq::empty(),
    }
}

/// Appends `key:code` to `out`.
pub fn push_component(out: &mut Vec<char>, key: &str, code: &str)
    ensures
        final(out)@ == old(out)@ + component(key@, code@),
{
    push_str(out, key);
    out.push(':');
    push_str(out, code);
    assert(out@ =~= old(out)@ + component(key@, code@));
}

/// The characters of a code that may be absent.
pub open spec fn str_view(code: Option<&'static str>) -> Option<Seq<char>> {
    match code {
        Some(c) => Some(c@),
        None => None,
    }
}

/// Appends `/key:code` to `out` where the slot holds a code, and nothing where it does not.
/// `out` holds `before` and the chain of `parts` so far.
pub(crate) fn push_slot(
    out: &mut Vec<char>,
    key: &str,
    code: Option<&'static str>,
    Ghost(before): Ghost<Seq<char>>,
    Ghost(parts): Ghost<Seq<Seq<char>>>,
)
    requires
        old(out)@ == before + chain(parts, '/'),
    ensures
        final(out)@ == before + chain(parts + opt_part(key@, str_view(code)), '/'),
{
    match code {
        Some(c) => {
            out.push('/');
            push_component(out, key, c);
            proof {
                let piece = component(key@, c@);
                lemma_chain_push(parts, piece, '/');
                assert(out@ =~= before + chain(parts + seq![piece], '/'));
            }
        },
        None => {
            proof {
                assert(parts + Seq::<Seq<char>>::empty() =~= parts);
            }
        },
    }
}

} // verus!
