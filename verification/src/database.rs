use crate::stable::Stable;
use vstd::prelude::*;

verus! {

/// Marker for a value that queries run against. A type takes it by
/// declaration.
pub trait DatabaseResource: Stable {
}

/// A unit of logic that runs against a single resource of type `T`.
pub trait Query<T: DatabaseResource>: Stable {
    /// Success case the query returns.
    type Success;

    /// Failure the query can return.
    type Failure;

    /// What the query yields on a resource. It depends on the query's own
    /// fields and on the resource and on nothing else.
    spec fn outcome(&self, resource: &T) -> Result<Self::Success, Self::Failure>;

    /// Runs the query. Equal queries on equal resources give equal results.
    fn call(&self, resource: &T) -> (r: Result<Self::Success, Self::Failure>)
        ensures
            r == self.outcome(resource),
    ;
}

/// Dispatch of queries against a resource of type `T`.
pub trait Database<T: DatabaseResource>: Stable {
    /// The resource that this database hands to a query.
    spec fn target(&self) -> &T;

    /// The resource of one dispatch.
    fn dispatch_input(&self) -> (input: &T)
        ensures
            input == self.target(),
    ;

    /// Runs `query` on this database's resource and returns its result
    /// untouched.
    fn query<Q>(&self, query: &Q) -> (r: Result<Q::Success, Q::Failure>) where Q: Query<T>
        ensures
            r == query.outcome(self.target()),
    ;
}

} // verus!
