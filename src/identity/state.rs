//! The identity tier's token registry: which user each issued bearer token
//! belongs to.

use std::collections::HashMap;
use vstd::prelude::*;

verus! {

broadcast use vstd::std_specs::hash::group_hash_axioms;

/// Relies on `rand::random`: a value drawn from the thread-local generator.
/// Nothing is known of it.
pub assume_specification<T>[ rand::random::<T> ]() -> (r: T)
    where
        rand::distributions::Standard: rand::distributions::Distribution<T>,
;

pub struct State {
    token_map: HashMap<u128, i32>,
}

impl State {
    /// The user of each issued token.
    pub closed spec fn tokens(&self) -> Map<u128, i32> {
        self.token_map@
    }

    /// A registry with no token issued.
    pub fn new() -> (r: State)
        ensures
            r.tokens() == Map::<u128, i32>::empty(),
    {
        State { token_map: HashMap::new() }
    }

    /// Associates `token` with the user `user_id`, replacing any earlier
    /// association of the token.
    pub fn register_token(&mut self, token: u128, user_id: i32)
        ensures
            final(self).tokens() == old(self).tokens().insert(token, user_id),
    {
        self.token_map.insert(token, user_id);
    }

    /// The user that `token` was issued to, if any.
    pub fn user_from_token(&self, token: u128) -> (r: Option<i32>)
        ensures
            r == if self.tokens().contains_key(token) {
                Some(self.tokens()[token])
            } else {
                None::<i32>
            },
    {
        match self.token_map.get(&token) {
            Some(u) => Some(*u),
            None => None,
        }
    }

    /// Issues a random token to the user `user_id` and returns it.
    pub fn issue_token(&mut self, user_id: i32) -> (r: u128)
        ensures
            final(self).tokens() == old(self).tokens().insert(r, user_id),
    {
        let token: u128 = rand::random::<u128>();
        self.register_token(token, user_id);
        token
    }
}

} // verus!
