//! Paths, as a base and the names under it.

use crate::text;
use vstd::prelude::*;

verus! {

/// The path that comes of joining the segments to the base, one after another.
///
/// How a platform writes that down is left to the platform; the base is
/// whatever names a directory there.
pub struct JoinedPath<B> {
    pub base: B,
    pub segments: Vec<String>,
}

impl<B> JoinedPath<B> {
    /// The names under the base.
    pub open spec fn names(self) -> Seq<Seq<char>> {
        text::each(self.segments@)
    }

    /// The base itself.
    pub fn at(base: B) -> (path: JoinedPath<B>)
        ensures
            path.base == base,
            path.names() == Seq::<Seq<char>>::empty(),
    {
        let path = JoinedPath { base, segments: Vec::new() };
        assert(path.names() =~= Seq::<Seq<char>>::empty());
        path
    }

    /// What has this name under the path.
    pub fn join(self, name: &str) -> (path: JoinedPath<B>)
        ensures
            path.base == self.base,
            path.names() == self.names().push(name@),
    {
        let JoinedPath { base, segments } = self;
        let mut segments = segments;
        segments.push(name.to_owned());
        let path = JoinedPath { base, segments };
        assert(path.names() =~= self.names().push(name@));
        path
    }
}

/// A name that is joined comes last, as it is, and nothing before it changes.
pub proof fn law_join_adds_a_name<B>(
    base: B,
    start: JoinedPath<B>,
    path: JoinedPath<B>,
    name: &str,
    joined: JoinedPath<B>,
)
    requires
        call_ensures(JoinedPath::<B>::at, (base,), start),
        call_ensures(JoinedPath::<B>::join, (path, name), joined),
    ensures
        start.base == base,
        start.segments@.len() == 0,
        path.names().len() == path.segments@.len(),
        forall|i: int|
            0 <= i < path.segments@.len() ==> #[trigger] path.names()[i] == path.segments@[i]@,
        joined.base == path.base,
        joined.segments@.len() == path.segments@.len() + 1,
        joined.segments@.last()@ == name@,
        forall|i: int|
            0 <= i < path.segments@.len() ==> (#[trigger] joined.segments@[i])@
                == path.segments@[i]@,
{
    assert(start.names().len() == start.segments@.len());
    assert(joined.names().len() == joined.segments@.len());
    assert(path.names().len() == path.segments@.len());
    assert(joined.names().last() == joined.segments@.last()@);
    assert forall|i: int| 0 <= i < path.segments@.len() implies (#[trigger] joined.segments@[i])@
        == path.segments@[i]@ by {
        assert(joined.names()[i] == path.names()[i]);
    }
}

} // verus!
