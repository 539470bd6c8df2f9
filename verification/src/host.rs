//! The boundary to the Soroban host: the handle types of `soroban_sdk`, what
//! each of them stands for, and the calls that the contract makes. Nothing in
//! this file is proved; every contract here is taken from the SDK's source.
//!
//! Three things are taken for granted throughout.
//!
//! - The store changes only through the `&mut Env` at hand. An `Env` can be
//!   cloned, and a clone reaches the same host; a caller that writes through
//!   one handle must not go on reading through another.
//! - A handle is used with the host that made it. The SDK hands a handle of one
//!   host to another without a check, so this is asked of the caller, by
//!   `accepts_symbol` and its like.
//! - The host has the means to go on. It may end a whole invocation when the
//!   budget is used up or when the transaction did not declare an entry that is
//!   touched. That is outside this model, as running out of memory is.

use crate::ledger::Entry;
use soroban_sdk::{Address, Env, Symbol};
use vstd::prelude::*;

verus! {

/// `soroban_sdk::Env`, a handle to a host. Opaque.
#[verifier::external_type_specification]
#[verifier::external_body]
pub struct ExEnv(Env);

/// `soroban_sdk::Symbol`, a short text, packed into the handle or kept by a
/// host. Opaque.
#[verifier::external_type_specification]
#[verifier::external_body]
pub struct ExSymbol(Symbol);

/// `soroban_sdk::Address`, a handle to an address that a host keeps. Opaque.
#[verifier::external_type_specification]
#[verifier::external_body]
pub struct ExAddress(Address);

/// `soroban_sdk::Vec`, a handle to a vector that a host keeps. Opaque.
#[verifier::external_type_specification]
#[verifier::external_body]
#[verifier::reject_recursive_types(T)]
pub struct ExVec<T>(soroban_sdk::Vec<T>);

/// The persistent entries of the contract that runs in `env`, as far as they
/// sit under a symbol key, by the characters of the key.
pub uninterp spec fn persistent_entries(env: Env) -> Map<Seq<char>, Entry>;

/// A contract is running in `env`, so that its storage can be reached.
pub uninterp spec fn in_contract(env: Env) -> bool;

/// Which host `env` is a handle to. Two handles agree exactly when they share
/// one host.
pub uninterp spec fn host_of(env: Env) -> int;

/// The characters of a symbol.
pub uninterp spec fn symbol_text(symbol: Symbol) -> Seq<char>;

/// The host that keeps a symbol. A symbol of nine characters or fewer is
/// packed into the handle itself and may be kept by none: every host takes it.
pub uninterp spec fn symbol_host(symbol: Symbol) -> Option<int>;

/// The strkey of an address, the text that `Address::to_string` gives: `G...`
/// for an account, `C...` for a contract.
pub uninterp spec fn address_strkey(address: Address) -> Seq<char>;

/// The host that keeps an address.
pub uninterp spec fn address_host(address: Address) -> int;

/// The items of a vector, first to last, each by its characters. The type does
/// not rule out an item that is no symbol; such an item counts as the empty
/// text.
pub uninterp spec fn list_items(list: soroban_sdk::Vec<Symbol>) -> Seq<Seq<char>>;

/// The host that keeps a vector.
pub uninterp spec fn list_host(list: soroban_sdk::Vec<Symbol>) -> int;

/// One of the characters `a-z`, `A-Z`, `0-9` and `_`.
pub open spec fn is_symbol_char(c: char) -> bool {
    ('a' <= c && c <= 'z') || ('A' <= c && c <= 'Z') || ('0' <= c && c <= '9') || c == '_'
}

/// A text that a symbol can hold: at most 32 characters, each a symbol
/// character.
pub open spec fn is_symbol_text(text: Seq<char>) -> bool {
    text.len() <= 32 && forall|i: int| 0 <= i < text.len() ==> is_symbol_char(#[trigger] text[i])
}

/// The host behind `env` can take `symbol` as an argument.
pub open spec fn accepts_symbol(env: Env, symbol: Symbol) -> bool {
    symbol_host(symbol) matches Some(host) ==> host == host_of(env)
}

/// The host behind `env` can take `address` as an argument.
pub open spec fn accepts_address(env: Env, address: Address) -> bool {
    address_host(address) == host_of(env)
}

/// The host behind `env` can take `list` as an argument.
pub open spec fn accepts_list(env: Env, list: soroban_sdk::Vec<Symbol>) -> bool {
    list_host(list) == host_of(env)
}

/// `after` is a handle to the same host as `before`, with the same contract
/// running or none.
pub open spec fn same_session(before: Env, after: Env) -> bool {
    host_of(after) == host_of(before) && in_contract(after) == in_contract(before)
}

/// `Symbol::new` panics on a text that no symbol can hold. Otherwise the new
/// symbol has exactly the given characters and is kept, if by any host, by the
/// host of `env`.
pub assume_specification[ Symbol::new ](env: &Env, s: &str) -> (symbol: Symbol)
    requires
        is_symbol_text(s@),
    ensures
        symbol_text(symbol) == s@,
        symbol_host(symbol) matches Some(host) ==> host == host_of(*env),
;

/// `Persistent::set` with an address as the value. The SDK panics outside a
/// contract. Inside one, the host puts the value under the key, in place of
/// whatever was there, and leaves every other entry as it was.
#[verifier::external_body]
pub(crate) fn persistent_set_address(env: &mut Env, key: &Symbol, value: &Address)
    requires
        in_contract(*old(env)),
        accepts_symbol(*old(env), *key),
        accepts_address(*old(env), *value),
    ensures
        host_of(*final(env)) == host_of(*old(env)),
        in_contract(*final(env)) == in_contract(*old(env)),
        persistent_entries(*final(env)) == persistent_entries(*old(env)).insert(
            symbol_text(*key),
            Entry::Addr(address_strkey(*value)),
        ),
{
    env.storage().persistent().set(key, value)
}

/// `Persistent::set` with a symbol as the value. The SDK panics outside a
/// contract. Inside one, the host puts the value under the key, in place of
/// whatever was there, and leaves every other entry as it was.
#[verifier::external_body]
pub(crate) fn persistent_set_symbol(env: &mut Env, key: &Symbol, value: &Symbol)
    requires
        in_contract(*old(env)),
        accepts_symbol(*old(env), *key),
        accepts_symbol(*old(env), *value),
    ensures
        host_of(*final(env)) == host_of(*old(env)),
        in_contract(*final(env)) == in_contract(*old(env)),
        persistent_entries(*final(env)) == persistent_entries(*old(env)).insert(
            symbol_text(*key),
            Entry::Scalar(symbol_text(*value)),
        ),
{
    env.storage().persistent().set(key, value)
}

/// `Persistent::set` with a vector of symbols as the value. The SDK panics
/// outside a contract. Inside one, the host puts the value under the key, in
/// place of whatever was there, and leaves every other entry as it was.
#[verifier::external_body]
pub(crate) fn persistent_set_list(env: &mut Env, key: &Symbol, value: &soroban_sdk::Vec<Symbol>)
    requires
        in_contract(*old(env)),
        accepts_symbol(*old(env), *key),
        accepts_list(*old(env), *value),
    ensures
        host_of(*final(env)) == host_of(*old(env)),
        in_contract(*final(env)) == in_contract(*old(env)),
        persistent_entries(*final(env)) == persistent_entries(*old(env)).insert(
            symbol_text(*key),
            Entry::List(list_items(*value)),
        ),
{
    env.storage().persistent().set(key, value)
}

/// `Persistent::get`, read as an address. The SDK panics outside a contract,
/// and on a value that is no address. It returns `None` where nothing sits
/// under the key, else the value, as a handle that the host of `env` keeps.
#[verifier::external_body]
pub(crate) fn persistent_get_address(env: &Env, key: &Symbol) -> (value: Option<Address>)
    requires
        in_contract(*env),
        accepts_symbol(*env, *key),
        persistent_entries(*env).contains_key(symbol_text(*key)) ==> persistent_entries(
            *env,
        )[symbol_text(*key)] is Addr,
    ensures
        match value {
            Some(address) => {
                &&& persistent_entries(*env).contains_key(symbol_text(*key))
                &&& persistent_entries(*env)[symbol_text(*key)] == Entry::Addr(
                    address_strkey(address),
                )
                &&& address_host(address) == host_of(*env)
            },
            None => !persistent_entries(*env).contains_key(symbol_text(*key)),
        },
{
    env.storage().persistent().get(key)
}

/// `Persistent::get`, read as a symbol. The SDK panics outside a contract, and
/// on a value that is no symbol. It returns `None` where nothing sits under the
/// key, else the value, as a handle that the host of `env` keeps, if any does.
#[verifier::external_body]
pub(crate) fn persistent_get_symbol(env: &Env, key: &Symbol) -> (value: Option<Symbol>)
    requires
        in_contract(*env),
        accepts_symbol(*env, *key),
        persistent_entries(*env).contains_key(symbol_text(*key)) ==> persistent_entries(
            *env,
        )[symbol_text(*key)] is Scalar,
    ensures
        match value {
            Some(symbol) => {
                &&& persistent_entries(*env).contains_key(symbol_text(*key))
                &&& persistent_entries(*env)[symbol_text(*key)] == Entry::Scalar(
                    symbol_text(symbol),
                )
                &&& (symbol_host(symbol) matches Some(host) ==> host == host_of(*env))
            },
            None => !persistent_entries(*env).contains_key(symbol_text(*key)),
        },
{
    env.storage().persistent().get(key)
}

/// `Persistent::get`, read as a vector of symbols. The SDK panics outside a
/// contract, and on a value that is no vector. It returns `None` where nothing
/// sits under the key, else the value, as a handle that the host of `env`
/// keeps.
#[verifier::external_body]
pub(crate) fn persistent_get_list(env: &Env, key: &Symbol) -> (value: Option<
    soroban_sdk::Vec<Symbol>,
>)
    requires
        in_contract(*env),
        accepts_symbol(*env, *key),
        persistent_entries(*env).contains_key(symbol_text(*key)) ==> persistent_entries(
            *env,
        )[symbol_text(*key)] is List,
    ensures
        match value {
            Some(list) => {
                &&& persistent_entries(*env).contains_key(symbol_text(*key))
                &&& persistent_entries(*env)[symbol_text(*key)] == Entry::List(list_items(list))
                &&& list_host(list) == host_of(*env)
            },
            None => !persistent_entries(*env).contains_key(symbol_text(*key)),
        },
{
    env.storage().persistent().get(key)
}

/// `Vec::new`: an empty vector, kept by the host of `env`.
#[verifier::external_body]
pub(crate) fn list_new(env: &Env) -> (list: soroban_sdk::Vec<Symbol>)
    ensures
        list_items(list) == Seq::<Seq<char>>::empty(),
        list_host(list) == host_of(*env),
{
    soroban_sdk::Vec::new(env)
}

/// `Vec::push_back`: the item goes behind the last one, in the host that keeps
/// the vector. The host refuses a vector that already holds `u32::MAX` items.
#[verifier::external_body]
pub(crate) fn list_push_back(list: &mut soroban_sdk::Vec<Symbol>, item: Symbol)
    requires
        list_items(*old(list)).len() < u32::MAX,
        symbol_host(item) matches Some(host) ==> host == list_host(*old(list)),
    ensures
        list_items(*final(list)) == list_items(*old(list)).push(symbol_text(item)),
        list_host(*final(list)) == list_host(*old(list)),
{
    list.push_back(item)
}

} // verus!
