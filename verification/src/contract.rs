//! The entry points of the contract. Each one reads or writes the persistent
//! store of the running contract and does nothing else.
//!
//! Every entry point asks that a contract is running in `env` and that the
//! handles it is given belong to the host of `env`. The host sees to both
//! whenever it invokes a contract. A read asks besides that the entry under
//! the key is of the kind it reads: the three kinds share one key space, and on
//! an entry of another kind the host would abort the call.

use crate::host::{
    accepts_address, accepts_list, accepts_symbol, address_strkey, in_contract, list_items,
    list_new, list_push_back, persistent_entries, persistent_get_address,
    persistent_get_list, persistent_get_symbol, persistent_set_address, persistent_set_list,
    persistent_set_symbol, same_session, symbol_text,
};
use crate::ledger;
use soroban_sdk::{Address, Env, Symbol};
use vstd::prelude::*;

verus! {

/// The contract. It holds no state of its own: everything lives in the host's
/// persistent store.
pub struct YourContract;

impl YourContract {
    /// The key under which the owner is kept.
    pub fn owner_key(env: &Env) -> (key: Symbol)
        ensures
            symbol_text(key) == ledger::owner_key(),
            accepts_symbol(*env, key),
    {
        proof {
            reveal_strlit("owner");
        }
        Symbol::new(env, "owner")
    }

    /// Records `owner` as the owner of the contract. Nothing guards the call:
    /// an owner recorded earlier is replaced, whoever calls.
    pub fn initialize(env: &mut Env, owner: Address)
        requires
            in_contract(*old(env)),
            accepts_address(*old(env), owner),
        ensures
            same_session(*old(env), *final(env)),
            persistent_entries(*final(env)) == ledger::set_owner(
                persistent_entries(*old(env)),
                address_strkey(owner),
            ),
    {
        let key = Self::owner_key(env);
        persistent_set_address(env, &key, &owner);
    }

    /// The recorded owner. There must be one: without it the host would abort
    /// the call.
    pub fn get_owner(env: &Env) -> (owner: Address)
        requires
            in_contract(*env),
            ledger::has_owner(persistent_entries(*env)),
        ensures
            address_strkey(owner) == ledger::owner(persistent_entries(*env)),
            accepts_address(*env, owner),
    {
        let key = Self::owner_key(env);
        persistent_get_address(env, &key).unwrap()
    }

    /// Puts `value` under `key`, in place of whatever was there.
    pub fn set_data(env: &mut Env, key: Symbol, value: Symbol)
        requires
            in_contract(*old(env)),
            accepts_symbol(*old(env), key),
            accepts_symbol(*old(env), value),
        ensures
            same_session(*old(env), *final(env)),
            persistent_entries(*final(env)) == ledger::set_data(
                persistent_entries(*old(env)),
                symbol_text(key),
                symbol_text(value),
            ),
    {
        persistent_set_symbol(env, &key, &value);
    }

    /// The scalar under `key`, or `None` where nothing was ever put there.
    pub fn get_data(env: &Env, key: Symbol) -> (value: Option<Symbol>)
        requires
            in_contract(*env),
            accepts_symbol(*env, key),
            ledger::reads_as_data(persistent_entries(*env), symbol_text(key)),
        ensures
            match value {
                Some(symbol) => ledger::data(persistent_entries(*env), symbol_text(key)) == Some(
                    symbol_text(symbol),
                ) && accepts_symbol(*env, symbol),
                None => ledger::data(persistent_entries(*env), symbol_text(key)).is_none(),
            },
    {
        persistent_get_symbol(env, &key)
    }

    /// Appends `value` to the list under `key`. The first append to a key
    /// starts its list. The whole list is read, extended and written back.
    pub fn add_entry(env: &mut Env, key: Symbol, value: Symbol)
        requires
            in_contract(*old(env)),
            accepts_symbol(*old(env), key),
            accepts_symbol(*old(env), value),
            ledger::reads_as_entries(persistent_entries(*old(env)), symbol_text(key)),
            ledger::entries(persistent_entries(*old(env)), symbol_text(key)).len() < u32::MAX,
        ensures
            same_session(*old(env), *final(env)),
            persistent_entries(*final(env)) == ledger::add_entry(
                persistent_entries(*old(env)),
                symbol_text(key),
                symbol_text(value),
            ),
    {
        let fresh = list_new(env);
        let mut list = persistent_get_list(env, &key).unwrap_or(fresh);
        list_push_back(&mut list, value);
        persistent_set_list(env, &key, &list);
    }

    /// The list under `key`, oldest item first; empty where nothing was ever
    /// appended there.
    pub fn get_entries(env: &Env, key: Symbol) -> (list: soroban_sdk::Vec<Symbol>)
        requires
            in_contract(*env),
            accepts_symbol(*env, key),
            ledger::reads_as_entries(persistent_entries(*env), symbol_text(key)),
        ensures
            list_items(list) == ledger::entries(persistent_entries(*env), symbol_text(key)),
            accepts_list(*env, list),
    {
        let fresh = list_new(env);
        persistent_get_list(env, &key).unwrap_or(fresh)
    }
}

} // verus!
