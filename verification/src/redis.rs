//! Connections of the pool of cache connections, which note when a failure shows
//! them broken.
use vstd::prelude::*;

verus! {

/// What the cache client reports of a failure.
#[derive(Clone, Debug)]
pub struct RedisErrorInfo {
    /// The connection was dropped.
    pub connection_dropped: bool,
    /// The connection was refused.
    pub connection_refusal: bool,
    /// The request timed out.
    pub timeout: bool,
    /// An I/O error occurred.
    pub io_error: bool,
    /// The error's message.
    pub message: String,
}

/// An error of a cache query.
#[derive(Clone, Debug)]
pub enum QueryError {
    /// The cache client failed.
    Redis(RedisErrorInfo),
}

/// Whether a failure shows the connection broken.
pub open spec fn breaks_connection(e: RedisErrorInfo) -> bool {
    e.connection_dropped || e.connection_refusal || e.timeout || e.io_error
}

/// A pooled connection: the client's connection, and whether it is known broken.
pub struct Connection<C> {
    inner: C,
    broken: bool,
}

impl<C> Connection<C> {
    /// The client's connection.
    pub closed spec fn spec_inner(&self) -> C {
        self.inner
    }

    /// Whether the connection is known broken.
    pub closed spec fn spec_broken(&self) -> bool {
        self.broken
    }

    /// A fresh connection, not broken.
    pub fn new(inner: C) -> (c: Connection<C>)
        ensures
            c.spec_inner() == inner,
            !c.spec_broken(),
    {
        let broken = false;
        Connection { inner, broken }
    }

    /// The client's connection, to send it queries.
    pub fn inner_mut(&mut self) -> (r: &mut C)
        ensures
            *r == old(self).spec_inner(),
            final(self).spec_inner() == *final(r),
            final(self).spec_broken() == old(self).spec_broken(),
    {
        &mut self.inner
    }

    /// Whether the connection is known broken.
    pub fn is_broken(&self) -> (b: bool)
        ensures
            b == self.spec_broken(),
    {
        self.broken
    }

    /// Passes on the outcome of a query, noting the connection broken where the
    /// failure shows it. A broken connection stays broken.
    pub fn handle<T>(&mut self, result: Result<T, RedisErrorInfo>) -> (r: Result<T, QueryError>)
        ensures
            final(self).spec_inner() == old(self).spec_inner(),
            final(self).spec_broken() == (old(self).spec_broken() || (result matches Err(e) && breaks_connection(e))),
            match result {
                Ok(v) => r == Ok::<T, QueryError>(v),
                Err(e) => r == Err::<T, QueryError>(QueryError::Redis(e)),
            },
    {
        match result {
            Ok(v) => Ok(v),
            Err(e) => {
                if e.connection_dropped || e.connection_refusal || e.timeout || e.io_error {
                    self.broken = true;
                }
                Err(QueryError::Redis(e))
            },
        }
    }
}

} // verus!
