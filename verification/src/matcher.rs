//! Matching a request path against a route pattern.

use vstd::prelude::*;
use vstd::hash_map::StringHashMap;
use crate::path::{segments, split_segments};
use crate::pattern::{has_marker, parse_pattern, RoutePattern, Segment, SegmentView};

verus! {

/// The parameters bound by a successful match: parameter name to the request
/// segment that stood in its place.
pub struct MatchResult {
    bound: StringHashMap<String>,
}

impl View for MatchResult {
    type V = Map<Seq<char>, Seq<char>>;

    closed spec fn view(&self) -> Map<Seq<char>, Seq<char>> {
        Map::new(|name: Seq<char>| self.bound@.contains_key(name), |name: Seq<char>| self.bound@[name]@)
    }
}

impl MatchResult {
    /// A result that binds nothing.
    pub fn new() -> (r: MatchResult)
        ensures
            r@ == Map::<Seq<char>, Seq<char>>::empty(),
    {
        let r = MatchResult { bound: StringHashMap::new() };
        assert(r@ =~= Map::<Seq<char>, Seq<char>>::empty());
        r
    }

    /// Binds `name` to `value`; an earlier binding of `name` is replaced.
    pub fn insert(&mut self, name: String, value: String)
        ensures
            final(self)@ == old(self)@.insert(name@, value@),
    {
        self.bound.insert(name, value);
        assert(self@ =~= old(self)@.insert(name@, value@));
    }

    /// The value bound to `name`, if any.
    pub fn get(&self, name: &str) -> (r: Option<&String>)
        ensures
            self@.contains_key(name@) ==> r is Some && r->0@ == self@[name@],
            !self@.contains_key(name@) ==> r is None,
    {
        self.bound.get(name)
    }

    /// Whether `name` is bound.
    pub fn contains_key(&self, name: &str) -> (r: bool)
        ensures
            r == self@.contains_key(name@),
    {
        self.bound.contains_key(name)
    }

    /// The number of bound names.
    pub fn len(&self) -> (n: usize)
        ensures
            n == self@.len(),
    {
        assert(self@.dom() =~= self.bound@.dom());
        self.bound.len()
    }

    /// Whether nothing is bound.
    pub fn is_empty(&self) -> (r: bool)
        ensures
            r == (self@ == Map::<Seq<char>, Seq<char>>::empty()),
    {
        let r = self.bound.is_empty();
        proof {
            if r {
                assert(self@ =~= Map::<Seq<char>, Seq<char>>::empty());
            } else {
                assert(self@.dom() =~= self.bound@.dom());
            }
        }
        r
    }
}

/// Whether one segment specifier admits the request segment `value`: a
/// literal admits exactly its own text, a parameter admits anything, the
/// empty segment included.
pub open spec fn segment_accepts(segment: SegmentView, value: Seq<char>) -> bool {
    match segment {
        SegmentView::Literal(text) => text == value,
        SegmentView::Parameter(_) => true,
    }
}

/// Whether a pattern admits a path, both given by their segments: the two
/// have the same number of segments, and each specifier admits the request
/// segment at its position.
pub open spec fn accepts(pattern: Seq<SegmentView>, path: Seq<Seq<char>>) -> bool {
    &&& pattern.len() == path.len()
    &&& forall|i: int| 0 <= i < pattern.len() ==> #[trigger] segment_accepts(pattern[i], path[i])
}

/// The bindings made by the first `n` segments of a pattern, read left to
/// right: each parameter binds its name to the request segment at its
/// position, replacing what an earlier parameter of the same name bound.
pub open spec fn bindings(pattern: Seq<SegmentView>, path: Seq<Seq<char>>, n: nat) -> Map<
    Seq<char>,
    Seq<char>,
>
    decreases n,
{
    if n == 0 {
        Map::empty()
    } else {
        let earlier = bindings(pattern, path, (n - 1) as nat);
        match pattern[n - 1] {
            SegmentView::Parameter(name) => earlier.insert(name, path[n - 1]),
            SegmentView::Literal(_) => earlier,
        }
    }
}

/// The outcome of matching on segments: the bindings of the whole pattern
/// where it admits the path, nothing otherwise.
pub open spec fn match_segments(pattern: Seq<SegmentView>, path: Seq<Seq<char>>) -> Option<
    Map<Seq<char>, Seq<char>>,
> {
    if accepts(pattern, path) {
        Some(bindings(pattern, path, pattern.len()))
    } else {
        None
    }
}

/// The outcome of matching the request path `path` against the pattern
/// `pattern`, both as written.
pub open spec fn route_match(path: Seq<char>, pattern: Seq<char>) -> Option<
    Map<Seq<char>, Seq<char>>,
> {
    match_segments(parse_pattern(pattern), segments(path))
}

/// The bindings that an executable match result stands for.
pub open spec fn bound_by(result: Option<MatchResult>) -> Option<Map<Seq<char>, Seq<char>>> {
    match result {
        Some(m) => Some(m@),
        None => None,
    }
}

/// Whether the segment specifier at position `i` is a parameter.
pub open spec fn is_parameter(pattern: Seq<SegmentView>, i: int) -> bool {
    pattern[i] is Parameter
}

/// The number of parameter segments among the first `n` segments.
pub open spec fn parameter_count(pattern: Seq<SegmentView>, n: nat) -> nat
    decreases n,
{
    if n == 0 {
        0
    } else {
        parameter_count(pattern, (n - 1) as nat) + if is_parameter(pattern, n - 1) {
            1nat
        } else {
            0nat
        }
    }
}

/// Whether no two parameter segments of the pattern carry the same name.
pub open spec fn distinct_parameter_names(pattern: Seq<SegmentView>) -> bool {
    forall|i: int, j: int|
        0 <= i < j < pattern.len() && #[trigger] is_parameter(pattern, i) && #[trigger] is_parameter(
            pattern,
            j,
        ) ==> pattern[i]->Parameter_0 != pattern[j]->Parameter_0
}

impl RoutePattern {
    /// Matches a request path, already split into its segments, against
    /// this pattern.
    pub fn matches_segments(&self, values: &Vec<String>) -> (r: Option<MatchResult>)
        ensures
            bound_by(r) == match_segments(self@, values.deep_view()),
    {
        let n = self.len();
        if values.len() != n {
            return None;
        }
        let mut result = MatchResult::new();
        for i in 0..n
            invariant
                n == self@.len(),
                n == values@.len(),
                forall|j: int|
                    0 <= j < i ==> #[trigger] segment_accepts(self@[j], values.deep_view()[j]),
                result@ == bindings(self@, values.deep_view(), i as nat),
        {
            assert(values.deep_view()[i as int] == values@[i as int]@);
            match self.segment(i) {
                Some(Segment::Parameter(name)) => {
                    result.insert(name.clone(), values[i].clone());
                },
                Some(Segment::Literal(text)) => {
                    if !(*text == values[i]) {
                        assert(!segment_accepts(self@[i as int], values.deep_view()[i as int]));
                        return None;
                    }
                },
                None => {},
            }
        }
        Some(result)
    }

    /// Matches a request path against this pattern.
    pub fn matches(&self, path: &str) -> (r: Option<MatchResult>)
        ensures
            bound_by(r) == match_segments(self@, segments(path@)),
    {
        let values = split_segments(path);
        self.matches_segments(&values)
    }

    /// Whether no two parameter segments of this pattern carry the same
    /// name.
    pub fn has_distinct_parameters(&self) -> (r: bool)
        ensures
            r == distinct_parameter_names(self@),
    {
        let n = self.len();
        for j in 0..n
            invariant
                n == self@.len(),
                forall|a: int, b: int|
                    0 <= a < b < j && #[trigger] is_parameter(self@, a) && #[trigger] is_parameter(
                        self@,
                        b,
                    ) ==> self@[a]->Parameter_0 != self@[b]->Parameter_0,
        {
            match self.segment(j) {
                Some(Segment::Parameter(later)) => {
                    for i in 0..j
                        invariant
                            n == self@.len(),
                            j < n,
                            self@[j as int] == SegmentView::Parameter(later@),
                            forall|a: int|
                                0 <= a < i && #[trigger] is_parameter(self@, a)
                                    ==> self@[a]->Parameter_0 != later@,
                    {
                        match self.segment(i) {
                            Some(Segment::Parameter(earlier)) => {
                                if *earlier == *later {
                                    assert(is_parameter(self@, i as int) && is_parameter(
                                        self@,
                                        j as int,
                                    ));
                                    return false;
                                }
                            },
                            _ => {},
                        }
                    }
                },
                _ => {},
            }
        }
        true
    }
}

/// Matches the request path `path` against the pattern `pattern`.
///
/// At most one leading `/` is dropped from each, both are split at `/`, and
/// the match succeeds when they have equally many segments and every literal
/// pattern segment equals the request segment at its position. The result
/// binds each parameter name to the request segment at its position.
pub fn match_route(path: &str, pattern: &str) -> (r: Option<MatchResult>)
    ensures
        bound_by(r) == route_match(path@, pattern@),
{
    RoutePattern::parse(pattern).matches(path)
}

/// The bindings of the first `n` segments hold exactly the names of the
/// parameters among them, and each name is bound to the request segment at
/// the last position where it occurs.
pub proof fn lemma_bindings_hold_parameters(
    pattern: Seq<SegmentView>,
    path: Seq<Seq<char>>,
    n: nat,
)
    requires
        n <= pattern.len(),
    ensures
        bindings(pattern, path, n).dom().finite(),
        bindings(pattern, path, n).dom().len() <= parameter_count(pattern, n),
        forall|name: Seq<char>| #[trigger]
            bindings(pattern, path, n).contains_key(name) <==> exists|i: int|
                0 <= i < n && #[trigger] is_parameter(pattern, i) && pattern[i]->Parameter_0 == name,
        forall|i: int|
            0 <= i < n && #[trigger] is_parameter(pattern, i) && (forall|j: int|
                i < j < n && #[trigger] is_parameter(pattern, j) ==> pattern[j]->Parameter_0
                    != pattern[i]->Parameter_0) ==> bindings(pattern, path, n)[pattern[i]->Parameter_0]
                == path[i],
    decreases n,
{
    if n > 0 {
        let m = (n - 1) as nat;
        lemma_bindings_hold_parameters(pattern, path, m);
        let earlier = bindings(pattern, path, m);
        let all = bindings(pattern, path, n);
        assert forall|name: Seq<char>| #[trigger]
            all.contains_key(name) <==> exists|i: int|
                0 <= i < n && #[trigger] is_parameter(pattern, i) && pattern[i]->Parameter_0
                    == name by {
            if all.contains_key(name) {
                if earlier.contains_key(name) {
                    let i = choose|i: int|
                        0 <= i < m && #[trigger] is_parameter(pattern, i) && pattern[i]->Parameter_0
                            == name;
                    assert(0 <= i < n && is_parameter(pattern, i));
                } else {
                    assert(is_parameter(pattern, n - 1));
                }
            }
            if exists|i: int|
                0 <= i < n && #[trigger] is_parameter(pattern, i) && pattern[i]->Parameter_0
                    == name {
                let i = choose|i: int|
                    0 <= i < n && #[trigger] is_parameter(pattern, i) && pattern[i]->Parameter_0
                        == name;
                if i < m {
                    assert(earlier.contains_key(name));
                }
            }
        }
        assert forall|i: int|
            0 <= i < n && #[trigger] is_parameter(pattern, i) && (forall|j: int|
                i < j < n && #[trigger] is_parameter(pattern, j) ==> pattern[j]->Parameter_0
                    != pattern[i]->Parameter_0) implies all[pattern[i]->Parameter_0] == path[i] by {
            if i < m {
                assert forall|j: int| i < j < m && #[trigger] is_parameter(pattern, j) implies pattern[j]->Parameter_0
                    != pattern[i]->Parameter_0 by {}
                if is_parameter(pattern, n - 1) {
                    assert(pattern[n - 1]->Parameter_0 != pattern[i]->Parameter_0);
                }
            }
        }
    }
}

/// With pairwise distinct parameter names, the bindings of the first `n`
/// segments hold one entry for each parameter among them.
pub proof fn lemma_bindings_count(pattern: Seq<SegmentView>, path: Seq<Seq<char>>, n: nat)
    requires
        n <= pattern.len(),
        distinct_parameter_names(pattern),
    ensures
        bindings(pattern, path, n).dom().finite(),
        bindings(pattern, path, n).dom().len() == parameter_count(pattern, n),
    decreases n,
{
    lemma_bindings_hold_parameters(pattern, path, n);
    if n > 0 {
        let m = (n - 1) as nat;
        lemma_bindings_count(pattern, path, m);
        lemma_bindings_hold_parameters(pattern, path, m);
        if is_parameter(pattern, n - 1) {
            let name = pattern[n - 1]->Parameter_0;
            if bindings(pattern, path, m).contains_key(name) {
                let i = choose|i: int|
                    0 <= i < m && #[trigger] is_parameter(pattern, i) && pattern[i]->Parameter_0
                        == name;
                assert(is_parameter(pattern, n - 1));
                assert(false);
            }
        }
    }
}

/// A pattern without parameter segments matches a path with equally many
/// segments exactly when the two agree segment by segment, and the match
/// then binds nothing.
pub proof fn lemma_literal_match(path: Seq<char>, pattern: Seq<char>)
    requires
        segments(path).len() == segments(pattern).len(),
        forall|i: int| 0 <= i < segments(pattern).len() ==> !has_marker(#[trigger] segments(pattern)[i]),
    ensures
        route_match(path, pattern) is Some <==> (forall|i: int|
            0 <= i < segments(pattern).len() ==> #[trigger] segments(path)[i] == segments(
                pattern,
            )[i]),
        route_match(path, pattern) is Some ==> route_match(path, pattern) == Some(
            Map::<Seq<char>, Seq<char>>::empty(),
        ),
{
    let specifiers = parse_pattern(pattern);
    let raw = segments(pattern);
    let values = segments(path);
    assert forall|i: int| 0 <= i < raw.len() implies specifiers[i] == SegmentView::Literal(
        raw[i],
    ) by {
        assert(!has_marker(raw[i]));
    }
    if accepts(specifiers, values) {
        assert forall|i: int| 0 <= i < raw.len() implies #[trigger] values[i] == raw[i] by {
            assert(segment_accepts(specifiers[i], values[i]));
        }
        lemma_literals_bind_nothing(specifiers, values, specifiers.len());
    }
}

/// Literal segments bind nothing.
proof fn lemma_literals_bind_nothing(pattern: Seq<SegmentView>, path: Seq<Seq<char>>, n: nat)
    requires
        n <= pattern.len(),
        forall|i: int| 0 <= i < pattern.len() ==> !is_parameter(pattern, i),
    ensures
        bindings(pattern, path, n) == Map::<Seq<char>, Seq<char>>::empty(),
    decreases n,
{
    if n > 0 {
        lemma_literals_bind_nothing(pattern, path, (n - 1) as nat);
        assert(!is_parameter(pattern, n - 1));
    }
}

/// A successful match against a pattern whose parameter names are pairwise
/// distinct binds one entry for each parameter segment: the name after the
/// marker is bound to the request segment at that position, as it stands,
/// and nothing else is bound.
pub proof fn lemma_match_binds_parameters(path: Seq<char>, pattern: Seq<char>)
    requires
        route_match(path, pattern) is Some,
        distinct_parameter_names(parse_pattern(pattern)),
    ensures
        ({
            let bound = route_match(path, pattern)->0;
            let raw = segments(pattern);
            let values = segments(path);
            &&& bound.dom().finite()
            &&& bound.dom().len() == parameter_count(parse_pattern(pattern), raw.len())
            &&& forall|i: int|
                0 <= i < raw.len() && has_marker(#[trigger] raw[i]) ==> bound.contains_key(
                    raw[i].drop_first(),
                ) && bound[raw[i].drop_first()] == values[i]
            &&& forall|name: Seq<char>| #[trigger]
                bound.contains_key(name) ==> exists|i: int|
                    0 <= i < raw.len() && has_marker(#[trigger] raw[i]) && raw[i].drop_first()
                        == name
        }),
{
    let specifiers = parse_pattern(pattern);
    let raw = segments(pattern);
    let values = segments(path);
    let bound = route_match(path, pattern)->0;
    lemma_bindings_hold_parameters(specifiers, values, specifiers.len());
    lemma_bindings_count(specifiers, values, specifiers.len());
    assert forall|i: int| 0 <= i < raw.len() && has_marker(#[trigger] raw[i]) implies bound.contains_key(
        raw[i].drop_first(),
    ) && bound[raw[i].drop_first()] == values[i] by {
        assert(is_parameter(specifiers, i));
        assert(specifiers[i]->Parameter_0 == raw[i].drop_first());
        assert forall|j: int| i < j < raw.len() && #[trigger] is_parameter(specifiers, j) implies specifiers[j]->Parameter_0
            != specifiers[i]->Parameter_0 by {}
    }
    assert forall|name: Seq<char>| #[trigger] bound.contains_key(name) implies exists|i: int|
        0 <= i < raw.len() && has_marker(#[trigger] raw[i]) && raw[i].drop_first() == name by {
        let i = choose|i: int|
            0 <= i < specifiers.len() && #[trigger] is_parameter(specifiers, i)
                && specifiers[i]->Parameter_0 == name;
        assert(has_marker(raw[i]) && raw[i].drop_first() == name);
    }
}

/// A path and a pattern with different numbers of segments never match,
/// whatever the segments hold.
pub proof fn lemma_segment_count_mismatch(path: Seq<char>, pattern: Seq<char>)
    requires
        segments(path).len() != segments(pattern).len(),
    ensures
        route_match(path, pattern) is None,
{
}

/// Matching depends on nothing but the path and the pattern: any two results
/// that [`match_route`] gives for the same inputs succeed or fail together
/// and bind the same names to the same values.
pub proof fn lemma_repeated_match_agrees(
    path: Seq<char>,
    pattern: Seq<char>,
    first: Option<MatchResult>,
    second: Option<MatchResult>,
)
    requires
        bound_by(first) == route_match(path, pattern),
        bound_by(second) == route_match(path, pattern),
    ensures
        first is Some <==> second is Some,
        first is Some ==> first->0@ == second->0@,
{
}

} // verus!
