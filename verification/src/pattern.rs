//! Route patterns: a fixed number of segments, each a literal or a parameter.

use vstd::prelude::*;
use crate::path::{segments, split_segments};

verus! {

/// The mathematical value of a [`Segment`].
pub enum SegmentView {
    /// Matches a request segment that is equal to this text.
    Literal(Seq<char>),
    /// Matches any request segment and binds it to this name.
    Parameter(Seq<char>),
}

/// One segment specifier of a route pattern.
#[derive(Clone, Debug, PartialEq, Eq)]
pub enum Segment {
    /// Matches a request segment that is equal to this text.
    Literal(String),
    /// Matches any request segment and binds it to this name.
    Parameter(String),
}

impl View for Segment {
    type V = SegmentView;

    open spec fn view(&self) -> SegmentView {
        match self {
            Segment::Literal(text) => SegmentView::Literal(text@),
            Segment::Parameter(name) => SegmentView::Parameter(name@),
        }
    }
}

/// Whether a raw pattern segment begins with the parameter marker `:`.
pub open spec fn has_marker(raw: Seq<char>) -> bool {
    raw.len() > 0 && raw[0] == ':'
}

/// Reads one raw pattern segment: text after a leading `:` is a parameter
/// name, anything else is a literal.
pub open spec fn parse_segment(raw: Seq<char>) -> SegmentView {
    if has_marker(raw) {
        SegmentView::Parameter(raw.drop_first())
    } else {
        SegmentView::Literal(raw)
    }
}

/// Reads a whole pattern: its segments, each read by [`parse_segment`].
pub open spec fn parse_pattern(pattern: Seq<char>) -> Seq<SegmentView> {
    segments(pattern).map_values(|raw: Seq<char>| parse_segment(raw))
}

impl Segment {
    /// Reads one raw pattern segment.
    pub fn parse(raw: &str) -> (r: Segment)
        ensures
            r@ == parse_segment(raw@),
    {
        let mut name = String::new();
        let mut first = true;
        let mut marked = false;
        let chars = raw.chars();
        for c in it: chars
            invariant
                it.seq() == raw@,
                first == (it.index() == 0),
                first ==> !marked && name@ == Seq::<char>::empty(),
                !first ==> marked == has_marker(raw@),
                !first && marked ==> name@ == raw@.subrange(1, it.index()),
        {
            if first {
                marked = c == ':';
                assert(raw@.subrange(1, 1) =~= Seq::empty());
            } else if marked {
                name.push(c);
                assert(raw@.subrange(1, it.index() + 1) =~= raw@.subrange(1, it.index()).push(c));
            }
            first = false;
        }
        if marked {
            assert(raw@.subrange(1, raw@.len() as int) =~= raw@.drop_first());
            Segment::Parameter(name)
        } else {
            Segment::Literal(raw.to_owned())
        }
    }
}

/// A route pattern: an ordered sequence of segment specifiers.
///
/// The number of segments is fixed when the pattern is read, and the pattern
/// matches only request paths with exactly that many segments.
#[derive(Debug)]
pub struct RoutePattern {
    segments: Vec<Segment>,
}

impl View for RoutePattern {
    type V = Seq<SegmentView>;

    closed spec fn view(&self) -> Seq<SegmentView> {
        self.segments@.map_values(|segment: Segment| segment@)
    }
}

impl RoutePattern {
    /// Reads a pattern such as `/post/:slug`. Every string is a pattern.
    pub fn parse(pattern: &str) -> (r: RoutePattern)
        ensures
            r@ == parse_pattern(pattern@),
    {
        let raw = split_segments(pattern);
        let mut segments: Vec<Segment> = Vec::new();
        for i in 0..raw.len()
            invariant
                raw.deep_view() == crate::path::segments(pattern@),
                segments@.len() == i,
                forall|j: int| 0 <= j < i ==> (#[trigger] segments@[j])@ == parse_segment(raw@[j]@),
        {
            segments.push(Segment::parse(raw[i].as_str()));
        }
        let r = RoutePattern { segments };
        assert(r@ =~= parse_pattern(pattern@)) by {
            assert forall|j: int| 0 <= j < raw@.len() implies raw.deep_view()[j] == raw@[j]@ by {}
        }
        r
    }

    /// The number of segments.
    pub fn len(&self) -> (n: usize)
        ensures
            n == self@.len(),
    {
        self.segments.len()
    }

    /// The segment at position `index`, if the pattern has that many.
    pub fn segment(&self, index: usize) -> (s: Option<&Segment>)
        ensures
            index < self@.len() ==> s is Some && s->0@ == self@[index as int],
            index >= self@.len() ==> s is None,
    {
        if index < self.segments.len() {
            Some(&self.segments[index])
        } else {
            None
        }
    }
}

} // verus!
