//! What holds of the ledger whatever it held before: the facts that callers of
//! the contract rely on, proved from the definitions of its operations.

use crate::ledger::{
    add_entry, data, entries, has_owner, owner, owner_key, reads_as_data, reads_as_entries,
    set_data, set_owner, Store,
};
use vstd::prelude::*;

verus! {

/// The owner is the address that was written last: after one `initialize` it
/// is the address given, and a second `initialize` replaces it.
pub proof fn lemma_owner_is_last_written(store: Store, first: Seq<char>, second: Seq<char>)
    ensures
        has_owner(set_owner(store, first)),
        owner(set_owner(store, first)) == first,
        has_owner(set_owner(set_owner(store, first), second)),
        owner(set_owner(set_owner(store, first), second)) == second,
{
}

/// A store with nothing under the owner's key has no owner, so `get_owner`
/// cannot be called on it.
pub proof fn lemma_no_owner_before_initialize(store: Store)
    requires
        !store.contains_key(owner_key()),
    ensures
        !has_owner(store),
{
}

/// A key that was never written reads as absent.
pub proof fn lemma_data_absent_before_set(store: Store, key: Seq<char>)
    requires
        !store.contains_key(key),
    ensures
        reads_as_data(store, key),
        data(store, key).is_none(),
{
}

/// A key reads as the value that was written to it last.
pub proof fn lemma_data_is_last_written(
    store: Store,
    key: Seq<char>,
    first: Seq<char>,
    second: Seq<char>,
)
    ensures
        reads_as_data(set_data(store, key, first), key),
        data(set_data(store, key, first), key) == Some(first),
        reads_as_data(set_data(set_data(store, key, first), key, second), key),
        data(set_data(set_data(store, key, first), key, second), key) == Some(second),
{
}

/// A key to which nothing was ever appended reads as the empty list.
pub proof fn lemma_entries_empty_before_add(store: Store, key: Seq<char>)
    requires
        !store.contains_key(key),
    ensures
        reads_as_entries(store, key),
        entries(store, key) == Seq::<Seq<char>>::empty(),
{
}

/// An append puts the value behind all that the list held, so a list reads in
/// the order in which it was appended to.
pub proof fn lemma_entries_keep_insertion_order(
    store: Store,
    key: Seq<char>,
    first: Seq<char>,
    second: Seq<char>,
)
    ensures
        reads_as_entries(add_entry(store, key, first), key),
        entries(add_entry(store, key, first), key) == entries(store, key).push(first),
        entries(add_entry(add_entry(store, key, first), key, second), key) == entries(
            store,
            key,
        ).push(first).push(second),
        !store.contains_key(key) ==> entries(
            add_entry(add_entry(store, key, first), key, second),
            key,
        ) == seq![first, second],
{
    if !store.contains_key(key) {
        assert(Seq::<Seq<char>>::empty().push(first).push(second) =~= seq![first, second]);
    }
}

/// Keys do not interfere: a write under one key leaves what sits under every
/// other key, and so what any read of another key returns.
pub proof fn lemma_writes_touch_one_key(
    store: Store,
    key: Seq<char>,
    value: Seq<char>,
    other: Seq<char>,
)
    requires
        other != key,
    ensures
        set_data(store, key, value).contains_key(other) == store.contains_key(other),
        set_data(store, key, value)[other] == store[other],
        reads_as_data(set_data(store, key, value), other) == reads_as_data(store, other),
        data(set_data(store, key, value), other) == data(store, other),
        reads_as_entries(set_data(store, key, value), other) == reads_as_entries(store, other),
        entries(set_data(store, key, value), other) == entries(store, other),
        add_entry(store, key, value).contains_key(other) == store.contains_key(other),
        add_entry(store, key, value)[other] == store[other],
        reads_as_data(add_entry(store, key, value), other) == reads_as_data(store, other),
        data(add_entry(store, key, value), other) == data(store, other),
        reads_as_entries(add_entry(store, key, value), other) == reads_as_entries(store, other),
        entries(add_entry(store, key, value), other) == entries(store, other),
{
}

/// `initialize` writes under the owner's key alone.
pub proof fn lemma_initialize_touches_owner_key(store: Store, address: Seq<char>, other: Seq<char>)
    requires
        other != owner_key(),
    ensures
        set_owner(store, address).contains_key(other) == store.contains_key(other),
        set_owner(store, address)[other] == store[other],
        reads_as_data(set_owner(store, address), other) == reads_as_data(store, other),
        data(set_owner(store, address), other) == data(store, other),
        reads_as_entries(set_owner(store, address), other) == reads_as_entries(store, other),
        entries(set_owner(store, address), other) == entries(store, other),
{
}

/// The key space is shared: a scalar or a list written under the owner's key
/// takes the owner's place.
pub proof fn lemma_owner_key_is_not_reserved(store: Store, value: Seq<char>)
    ensures
        !has_owner(set_data(store, owner_key(), value)),
        !has_owner(add_entry(store, owner_key(), value)),
{
}

} // verus!
