//! The ledger as mathematics: what the persistent store of one contract holds
//! under its symbol keys, and what each operation of the contract does to it.

use vstd::prelude::*;

verus! {

/// What one persistent entry holds.
pub enum Entry {
    /// An address, by its strkey.
    Addr(Seq<char>),
    /// A scalar, which is a symbol, by its characters.
    Scalar(Seq<char>),
    /// A vector, first to last, each item by its characters. An item that is
    /// no symbol counts as the empty text.
    List(Seq<Seq<char>>),
    /// A value of any other kind.
    Other,
}

/// The persistent entries of one contract that sit under a symbol key, by the
/// characters of the key. All operations share this one key space.
pub type Store = Map<Seq<char>, Entry>;

/// The characters of the key under which the owner is kept.
pub open spec fn owner_key() -> Seq<char> {
    "owner"@
}

/// The store after the owner was set. An owner that was there before is gone.
pub open spec fn set_owner(store: Store, owner: Seq<char>) -> Store {
    store.insert(owner_key(), Entry::Addr(owner))
}

/// An owner is recorded.
pub open spec fn has_owner(store: Store) -> bool {
    store.contains_key(owner_key()) && store[owner_key()] is Addr
}

/// The recorded owner.
pub open spec fn owner(store: Store) -> Seq<char>
    recommends
        has_owner(store),
{
    store[owner_key()]->Addr_0
}

/// Nothing but a scalar sits under `key`, so that it can be read as one.
pub open spec fn reads_as_data(store: Store, key: Seq<char>) -> bool {
    store.contains_key(key) ==> store[key] is Scalar
}

/// The scalar under `key`, if there is one.
pub open spec fn data(store: Store, key: Seq<char>) -> Option<Seq<char>> {
    if store.contains_key(key) && store[key] is Scalar {
        Some(store[key]->Scalar_0)
    } else {
        None
    }
}

/// The store after `value` was put under `key`, whatever sat there before.
pub open spec fn set_data(store: Store, key: Seq<char>, value: Seq<char>) -> Store {
    store.insert(key, Entry::Scalar(value))
}

/// Nothing but a list sits under `key`, so that it can be read as one.
pub open spec fn reads_as_entries(store: Store, key: Seq<char>) -> bool {
    store.contains_key(key) ==> store[key] is List
}

/// The list under `key`, oldest item first; empty where there is none.
pub open spec fn entries(store: Store, key: Seq<char>) -> Seq<Seq<char>> {
    if store.contains_key(key) && store[key] is List {
        store[key]->List_0
    } else {
        Seq::empty()
    }
}

/// The store after `value` was appended to the list under `key`. The first
/// append to a key starts its list.
pub open spec fn add_entry(store: Store, key: Seq<char>, value: Seq<char>) -> Store {
    store.insert(key, Entry::List(entries(store, key).push(value)))
}

} // verus!
