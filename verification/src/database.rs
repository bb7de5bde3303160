//! What a query's rows become: the first row of a lookup or of a creation.
use vstd::prelude::*;

verus! {

/// An error of a lookup.
#[derive(Clone, Debug)]
pub enum FetchError {
    /// The query failed, with the database's message.
    QueryFail(String),
    /// No record matched.
    NoSuchRecord,
    /// The record may not be seen.
    NoPermission,
}

/// An error of a creation.
#[derive(Clone, Debug)]
pub enum CreationError {
    /// The query failed, with the database's message.
    QueryFail(String),
    /// The query gave no row: the record already exists.
    EmptyResult,
    /// A validation failed, with its message.
    ValidationFail(String),
}

/// The record of a lookup: the first row, where the query gave any.
pub fn fetch_first<R>(rows: Result<Vec<R>, String>) -> (r: Result<R, FetchError>)
    ensures
        match rows {
            Err(m) => r is Err && r->Err_0 is QueryFail && r->Err_0->QueryFail_0@ == m@,
            Ok(v) => if v@.len() == 0 {
                r is Err && r->Err_0 is NoSuchRecord
            } else {
                r == Ok::<R, FetchError>(v@[0])
            },
        },
{
    match rows {
        Err(m) => Err(FetchError::QueryFail(m)),
        Ok(mut v) => if v.len() == 0 {
            Err(FetchError::NoSuchRecord)
        } else {
            Ok(v.remove(0))
        },
    }
}

/// The record of a creation: the first row, where the query gave any.
pub fn create_first<R>(rows: Result<Vec<R>, String>) -> (r: Result<R, CreationError>)
    ensures
        match rows {
            Err(m) => r is Err && r->Err_0 is QueryFail && r->Err_0->QueryFail_0@ == m@,
            Ok(v) => if v@.len() == 0 {
                r is Err && r->Err_0 is EmptyResult
            } else {
                r == Ok::<R, CreationError>(v@[0])
            },
        },
{
    match rows {
        Err(m) => Err(CreationError::QueryFail(m)),
        Ok(mut v) => if v.len() == 0 {
            Err(CreationError::EmptyResult)
        } else {
            Ok(v.remove(0))
        },
    }
}

/// What the pool knows of a database connection: whether it is broken, so that
/// the pool replaces it.
#[derive(Clone, Copy, Debug)]
pub struct ClientHealth {
    broken: bool,
}

impl ClientHealth {
    /// Whether the connection is known broken.
    pub closed spec fn spec_broken(&self) -> bool {
        self.broken
    }

    /// A fresh connection: not broken.
    pub fn new() -> (h: ClientHealth)
        ensures
            !h.spec_broken(),
    {
        ClientHealth { broken: false }
    }

    /// Whether the connection is known broken.
    pub fn is_broken(&self) -> (b: bool)
        ensures
            b == self.spec_broken(),
    {
        self.broken
    }

    /// Notes the outcome of a query: a failed query on a closed connection shows it
    /// broken. A broken connection stays broken.
    pub fn after_query(&mut self, failed: bool, closed: bool)
        ensures
            final(self).spec_broken() == (old(self).spec_broken() || (failed && closed)),
    {
        if failed && closed {
            self.broken = true;
        }
    }

    /// Notes, before a transaction starts, whether the connection is closed: a
    /// closed one is broken.
    pub fn before_transaction(&mut self, closed: bool)
        ensures
            final(self).spec_broken() == (old(self).spec_broken() || closed),
    {
        if closed {
            self.broken = true;
        }
    }
}

/// The name of a prepared query, by which its statement is found again.
#[derive(Clone, Copy, Debug, PartialEq, Eq, Hash)]
pub struct Key(pub &'static str);

/// The CRC-32 hasher of the `crc32fast` crate.
#[verifier::external_type_specification]
#[verifier::external_body]
pub struct ExCrcHasher(crc32fast::Hasher);

/// The bytes that a CRC-32 hasher has been fed since it was made.
pub uninterp spec fn crc_hashed_input(hasher: crc32fast::Hasher) -> Seq<u8>;

/// Calls `crc32fast::Hasher::new`. The contract claims that the new hasher has been
/// fed nothing: the crate's source starts it from the initial CRC state with a
/// length of zero.
#[verifier::external_body]
fn crc_hasher() -> (hasher: crc32fast::Hasher)
    ensures
        crc_hashed_input(hasher) == Seq::<u8>::empty(),
{
    crc32fast::Hasher::new()
}

/// Builds the CRC-32 hashers of the map of prepared statements.
#[derive(Clone, Copy, Debug)]
pub struct CrcBuilder;

impl std::hash::BuildHasher for CrcBuilder {
    type Hasher = crc32fast::Hasher;

    /// A fresh CRC-32 hasher, fed nothing yet.
    fn build_hasher(&self) -> (hasher: crc32fast::Hasher)
        ensures
            crc_hashed_input(hasher) == Seq::<u8>::empty(),
    {
        crc_hasher()
    }
}

} // verus!
