//! Environments: persistent maps from names to values.
//!
//! An environment is never changed. Binding a name gives a new environment
//! and leaves the old one as it was, so that one environment can serve
//! several branches of an evaluation. The map itself is the hash array mapped
//! trie of the `rpds` crate; what this library knows of it is stated in the
//! contracts of the four functions below that call it.

use crate::value::{empty_env, EnvView, Value, ValueView};
use rpds::HashTrieMap;
use std::rc::Rc;
use vstd::prelude::*;

verus! {

/// A persistent map from names to values. It serves as the environment of
/// evaluation, from a name to its value, and as the typing context, from a
/// name to its type.
///
/// The verifier does not look inside the trie. All it knows of an
/// environment is the map [`env_entries`] of its bindings, and of that map
/// only what the contracts of the functions below state.
#[verifier::external_body]
pub struct Env {
    map: HashTrieMap<String, Rc<Value>>,
}

/// The bindings that an environment holds: each bound name, as a sequence
/// of characters, with the model of the value bound to it.
pub uninterp spec fn env_entries(env: Env) -> Map<Seq<char>, ValueView>;

/// Calls `HashTrieMap::new`. The map it returns holds no binding.
#[verifier::external_body]
fn trie_new() -> (r: Env)
    ensures
        env_entries(r) == empty_env(),
{
    Env { map: HashTrieMap::new() }
}

/// Calls `HashTrieMap::insert`. The map it returns holds the bindings of
/// `env`, but for `key`, which it binds to `value`; `env` itself is left as
/// it was.
#[verifier::external_body]
fn trie_insert(env: &Env, key: String, value: Rc<Value>) -> (r: Env)
    ensures
        env_entries(r) == env_entries(*env).insert(key@, value@),
{
    Env { map: env.map.insert(key, value) }
}

/// Calls `HashTrieMap::get`. It returns the value bound to `key`, if `key`
/// is bound, and nothing otherwise.
#[verifier::external_body]
fn trie_get<'a>(env: &'a Env, key: &String) -> (r: Option<&'a Rc<Value>>)
    ensures
        match r {
            Some(v) => env_entries(*env).contains_key(key@) && env_entries(*env)[key@] == v@,
            None => !env_entries(*env).contains_key(key@),
        },
{
    env.map.get(key)
}

/// Calls `HashTrieMap::clone`. The copy holds the same bindings and shares
/// its structure with `env`.
#[verifier::external_body]
fn trie_clone(env: &Env) -> (r: Env)
    ensures
        env_entries(r) == env_entries(*env),
{
    Env { map: env.map.clone() }
}

/// Calls `Rc::clone`. The new pointer shares the allocation of `p`, so it
/// points to the same value.
#[verifier::external_body]
pub(crate) fn share<T>(p: &Rc<T>) -> (r: Rc<T>)
    ensures
        r == *p,
{
    Rc::clone(p)
}

impl View for Env {
    type V = EnvView;

    open spec fn view(&self) -> EnvView {
        env_entries(*self)
    }
}

impl Env {
    /// The environment that binds no name.
    pub fn new() -> (r: Env)
        ensures
            r@ == empty_env(),
    {
        trie_new()
    }

    /// This environment with `key` bound to `value`. A binding that `key`
    /// had before is shadowed.
    pub fn insert(&self, key: String, value: Rc<Value>) -> (r: Env)
        ensures
            r@ == self@.insert(key@, value@),
    {
        trie_insert(self, key, value)
    }

    /// The value bound to `key`, if there is one.
    pub fn get(&self, key: &String) -> (r: Option<Rc<Value>>)
        ensures
            match r {
                Some(v) => self@.contains_key(key@) && self@[key@] == v@,
                None => !self@.contains_key(key@),
            },
    {
        match trie_get(self, key) {
            Some(v) => Some(share(v)),
            None => None,
        }
    }
}

impl Clone for Env {
    fn clone(&self) -> (r: Env)
        ensures
            r@ == self@,
    {
        trie_clone(self)
    }
}

} // verus!
