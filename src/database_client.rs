use vstd::prelude::*;

verus! {

/// The key of one write to a store.
pub struct Key(pub String);

/// The value of one write to a store.
pub struct Value(pub String);

impl View for Key {
    type V = Seq<char>;

    open spec fn view(&self) -> Seq<char> {
        self.0@
    }
}

impl View for Value {
    type V = Seq<char>;

    open spec fn view(&self) -> Seq<char> {
        self.0@
    }
}

/// The key-value store capability that a service writes to.
pub trait DatabaseClient {
    /// What a read of `k` finds in the store: the value most recently put under `k`.
    spec fn contents(&self) -> Map<Seq<char>, Seq<char>>;

    /// Writes `value` under `key`, replacing what was there.
    fn put(&mut self, key: Key, value: Value)
        ensures
            final(self).contents() == old(self).contents().insert(key@, value@),
    ;
}

} // verus!

verus! {

/// A read right after a put (whose effect on a store `put` states) finds the value put
/// under its key, and what it found before under every other key.
pub proof fn lemma_read_after_put<C: DatabaseClient>(
    before: C,
    after: C,
    key: Seq<char>,
    value: Seq<char>,
)
    requires
        after.contents() == before.contents().insert(key, value),
    ensures
        after.contents().contains_key(key),
        after.contents()[key] == value,
        forall|k: Seq<char>|
            k != key ==> #[trigger] after.contents().contains_key(k) == before.contents().contains_key(k)
                && after.contents()[k] == before.contents()[k],
{
}

} // verus!
