//! The database "pool": it keeps the connection URL and opens a fresh
//! connection for each request, so it holds at most one connection at a
//! time.

use vstd::prelude::*;

verus! {

/// What a pool reports about itself.
#[derive(Clone, Copy, Debug)]
pub struct PoolState {
    pub max_size: usize,
}

impl Default for PoolState {
    fn default() -> (r: Self)
        ensures
            r.max_size == 0,
    {
        PoolState { max_size: 0 }
    }
}

/// Opens connections to the database at a URL.
#[derive(Clone, Debug)]
pub struct AsyncConnectionPool {
    connection_url: String,
}

impl View for AsyncConnectionPool {
    type V = Seq<char>;

    /// The database URL.
    closed spec fn view(&self) -> Seq<char> {
        self.connection_url@
    }
}

impl AsyncConnectionPool {
    /// The pool's state: it holds at most one connection.
    pub fn state(&self) -> (r: PoolState)
        ensures
            r.max_size == 1,
    {
        PoolState { max_size: 1 }
    }

    /// Borrows the database URL.
    pub fn connection_url(&self) -> (r: &str)
        ensures
            r@ == self@,
    {
        self.connection_url.as_str()
    }
}

/// A pool for the database at `url`. No connection is opened.
pub fn new_async_pool(url: &str) -> (r: AsyncConnectionPool)
    ensures
        r@ == url@,
{
    AsyncConnectionPool { connection_url: url.to_owned() }
}

} // verus!
