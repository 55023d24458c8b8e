use vstd::prelude::*;

use crate::database_client::{DatabaseClient, Key, Value};
use crate::entries::{entries_view, lookup, written};

verus! {

/// The store of test runs: it records every write, in order, as a key-value pair.
pub struct TestDatabaseClient {
    database: Vec<(String, String)>,
}

impl TestDatabaseClient {
    /// The writes recorded so far, oldest first.
    pub closed spec fn log(&self) -> Seq<(Seq<char>, Seq<char>)> {
        entries_view(self.database@)
    }

    /// A store that has recorded nothing.
    pub fn new() -> (r: TestDatabaseClient)
        ensures
            r.log() == Seq::<(Seq<char>, Seq<char>)>::empty(),
            r.contents() == Map::<Seq<char>, Seq<char>>::empty(),
    {
        let r = TestDatabaseClient { database: Vec::new() };
        assert(r.log() =~= Seq::empty());
        r
    }

    /// Every write recorded so far, oldest first.
    pub fn entries(&self) -> (r: &Vec<(String, String)>)
        ensures
            entries_view(r@) == self.log(),
    {
        &self.database
    }

    /// The value most recently written under `key`, if any.
    pub fn get(&self, key: &Key) -> (r: Option<&String>)
        ensures
            r.is_some() == self.contents().contains_key(key@),
            r.is_some() ==> r.unwrap()@ == self.contents()[key@],
    {
        lookup(&self.database, &key.0)
    }
}

impl DatabaseClient for TestDatabaseClient {
    /// What reads find: the last recorded write of each key.
    open spec fn contents(&self) -> Map<Seq<char>, Seq<char>> {
        written(self.log())
    }

    fn put(&mut self, key: Key, value: Value) {
        let ghost before = self.log();
        self.database.push((key.0, value.0));
        assert(self.log().drop_last() =~= before);
    }
}

} // verus!
