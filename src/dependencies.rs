use vstd::prelude::*;

use crate::database_client::DatabaseClient;
use crate::http_client::HttpClient;

verus! {

/// A bundle of dependencies: it owns one store and one HTTP client, whose types the bundle fixes.
pub trait Dependencies: Sized {
    type DatabaseClient: DatabaseClient;

    type HttpClient: HttpClient;

    /// The store this bundle owns.
    spec fn database(&self) -> Self::DatabaseClient;

    /// The HTTP client this bundle owns.
    spec fn http(&self) -> Self::HttpClient;

    /// A bundle whose store holds nothing.
    fn new() -> (r: Self)
        ensures
            r.database().contents() == Map::<Seq<char>, Seq<char>>::empty(),
    ;

    /// The store, to write to; what is done through it stays in the bundle.
    fn database_client(&mut self) -> (r: &mut Self::DatabaseClient)
        ensures
            *r == old(self).database(),
            final(self).database() == *final(r),
            final(self).http() == old(self).http(),
    ;

    /// The HTTP client.
    fn http_client(&self) -> (r: &Self::HttpClient)
        ensures
            *r == self.http(),
    ;
}

} // verus!
