use vstd::prelude::*;

use crate::database_client::{DatabaseClient, Key, Value};
use crate::entries::{entries_view, lookup, upsert, written};

verus! {

/// The staging and development store: an in-memory map from key to the value last put
/// under it.
pub struct HashMapDatabaseClient {
    database: Vec<(String, String)>,
}

impl HashMapDatabaseClient {
    /// An empty store.
    pub fn new() -> (r: HashMapDatabaseClient)
        ensures
            r.contents() == Map::<Seq<char>, Seq<char>>::empty(),
    {
        let r = HashMapDatabaseClient { database: Vec::new() };
        assert(written(entries_view(r.database@)) =~= Map::empty());
        r
    }

    /// The value stored under `key`, if any.
    pub fn get(&self, key: &Key) -> (r: Option<&String>)
        ensures
            r.is_some() == self.contents().contains_key(key@),
            r.is_some() ==> r.unwrap()@ == self.contents()[key@],
    {
        lookup(&self.database, &key.0)
    }
}

impl DatabaseClient for HashMapDatabaseClient {
    closed spec fn contents(&self) -> Map<Seq<char>, Seq<char>> {
        written(entries_view(self.database@))
    }

    fn put(&mut self, key: Key, value: Value) {
        upsert(&mut self.database, key.0, value.0);
    }
}

} // verus!
