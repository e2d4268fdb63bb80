//! The index from a user's device to the session that stands for it.
//!
//! Sessions are named while tokens are read and written once devices are
//! read, so the name given to a device has to be found again. The index is
//! held per user, each user's devices by their ID.

use std::collections::HashMap;
use vstd::hash_map::StringHashMap;
use vstd::prelude::*;

verus! {

broadcast use vstd::std_specs::hash::group_hash_axioms;

/// A map from `(user ID, device ID)` to a session ID.
pub struct SessionIndex {
    by_user: HashMap<u128, StringHashMap<u128>>,
}

impl View for SessionIndex {
    type V = Map<(u128, Seq<char>), u128>;

    closed spec fn view(&self) -> Map<(u128, Seq<char>), u128> {
        Map::new(
            |key: (u128, Seq<char>)|
                self.by_user@.contains_key(key.0) && self.by_user@[key.0]@.contains_key(key.1),
            |key: (u128, Seq<char>)| self.by_user@[key.0]@[key.1],
        )
    }
}

impl SessionIndex {
    /// An empty index with room for the devices of `users` users.
    pub fn with_capacity(users: usize) -> (index: Self)
        ensures
            index@ == Map::<(u128, Seq<char>), u128>::empty(),
    {
        let index = SessionIndex { by_user: HashMap::with_capacity(users) };
        assert(index@ =~= Map::<(u128, Seq<char>), u128>::empty());
        index
    }

    /// The session of the device `device_id` of the user `user_id`, if it
    /// has one.
    pub fn get(&self, user_id: u128, device_id: &str) -> (session_id: Option<u128>)
        ensures
            session_id == if self@.contains_key((user_id, device_id@)) {
                Some(self@[(user_id, device_id@)])
            } else {
                None
            },
    {
        match self.by_user.get(&user_id) {
            Some(devices) => match devices.get(device_id) {
                Some(session_id) => Some(*session_id),
                None => None,
            },
            None => None,
        }
    }

    /// Records `session_id` as the session of the device `device_id` of the
    /// user `user_id`, in place of any session recorded for it before.
    pub fn insert(&mut self, user_id: u128, device_id: String, session_id: u128)
        ensures
            final(self)@ == old(self)@.insert((user_id, device_id@), session_id),
    {
        let mut devices = match self.by_user.remove(&user_id) {
            Some(devices) => devices,
            None => StringHashMap::new(),
        };
        let ghost key = (user_id, device_id@);
        devices.insert(device_id, session_id);
        self.by_user.insert(user_id, devices);
        assert(self@ =~= old(self)@.insert(key, session_id));
    }
}

} // verus!
