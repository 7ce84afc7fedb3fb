use crate::database::{Database, DatabaseResource, Query};
use crate::resource::Resource;
use std::marker::PhantomData;
use vstd::prelude::*;

verus! {

/// A database over any value that exposes a `T`. The second field records the
/// resource type and holds nothing.
#[derive(Debug)]
pub struct Db<T: DatabaseResource, D: Resource<T>>(D, PhantomData<T>);

impl<T: DatabaseResource, D: Resource<T>> Db<T, D> {
    /// The value that this database wraps.
    pub closed spec fn source(&self) -> &D {
        &self.0
    }

    /// Wraps `resource`.
    pub fn new(resource: D) -> (db: Self)
        ensures
            db.source() == resource,
    {
        Self(resource, PhantomData)
    }
}

impl<T: DatabaseResource, D: Resource<T>> Clone for Db<T, D> {
    /// A database over a clone of the wrapped value.
    fn clone(&self) -> (copy: Self)
        ensures
            cloned(*self.source(), *copy.source()),
    {
        Self(self.0.clone(), PhantomData)
    }
}

impl<T: DatabaseResource, D: Resource<T>> Database<T> for Db<T, D> {
    open spec fn target(&self) -> &T {
        self.source().resolved()
    }

    fn dispatch_input(&self) -> (input: &T) {
        self.0.resource()
    }

    fn query<Q>(&self, query: &Q) -> (r: Result<Q::Success, Q::Failure>) where Q: Query<T> {
        query.call(self.0.resource())
    }
}

/// A query through the database is the query on the resource that the
/// wrapped value exposes: `db.query(q)` returns what `q.call(d.resource())`
/// returns, where `d` is the wrapped value.
pub proof fn lemma_query_forwards<T: DatabaseResource, D: Resource<T>, Q: Query<T>>(
    db: Db<T, D>,
    query: Q,
    resource: &T,
    answer: Result<Q::Success, Q::Failure>,
    direct: Result<Q::Success, Q::Failure>,
)
    requires
        call_ensures(<D as Resource<T>>::resource, (db.source(),), resource),
        call_ensures(<Db<T, D> as Database<T>>::query::<Q>, (&db, &query), answer),
        call_ensures(<Q as Query<T>>::call, (&query, resource), direct),
    ensures
        answer == direct,
{
}

} // verus!
