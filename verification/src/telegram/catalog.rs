//! The mirror of the remote chats, groups and users.
//!
//! Entries arrive with the updates that the engine pushes; nothing here asks
//! for them. A read is therefore a snapshot of what has arrived so far.

use crate::telegram::messages::{UpdateBasicgroup, UpdateNewChat, UpdateSupergroup, UpdateUser};
use serde_json::Value;
use std::collections::BTreeMap;
use std::collections::BTreeSet;
use vstd::prelude::*;
use vstd::std_specs::iter::IteratorSpec;

verus! {

/// The records known so far, each kind by the id that the engine gave it.
pub struct CatalogCache {
    chats: BTreeMap<i64, Value>,
    basic_groups: BTreeMap<i64, Value>,
    supergroups: BTreeMap<i64, Value>,
    users: BTreeMap<i64, Value>,
}

impl CatalogCache {
    pub closed spec fn chats(&self) -> Map<i64, Value> {
        self.chats@
    }

    pub closed spec fn basic_groups(&self) -> Map<i64, Value> {
        self.basic_groups@
    }

    pub closed spec fn supergroups(&self) -> Map<i64, Value> {
        self.supergroups@
    }

    pub closed spec fn users(&self) -> Map<i64, Value> {
        self.users@
    }

    /// Nothing has arrived yet.
    pub open spec fn is_empty_spec(&self) -> bool {
        &&& self.chats() == Map::<i64, Value>::empty()
        &&& self.basic_groups() == Map::<i64, Value>::empty()
        &&& self.supergroups() == Map::<i64, Value>::empty()
        &&& self.users() == Map::<i64, Value>::empty()
    }

    pub fn new() -> (r: Self)
        ensures
            r.is_empty_spec(),
    {
        CatalogCache {
            chats: BTreeMap::new(),
            basic_groups: BTreeMap::new(),
            supergroups: BTreeMap::new(),
            users: BTreeMap::new(),
        }
    }

    #[verifier::when_used_as_spec(is_empty_spec)]
    pub fn is_empty(&self) -> (r: bool)
        ensures
            r == self.is_empty_spec(),
    {
        let r = self.chats.is_empty() && self.basic_groups.is_empty() && self.supergroups.is_empty()
            && self.users.is_empty();
        proof {
            assert(self.chats@.is_empty() ==> self.chats@ =~= Map::<i64, Value>::empty());
            assert(self.basic_groups@.is_empty() ==> self.basic_groups@ =~= Map::<
                i64,
                Value,
            >::empty());
            assert(self.supergroups@.is_empty() ==> self.supergroups@ =~= Map::<
                i64,
                Value,
            >::empty());
            assert(self.users@.is_empty() ==> self.users@ =~= Map::<i64, Value>::empty());
        }
        r
    }

    /// Keeps the record of a chat, in place of an earlier one with the same id.
    pub fn record_chat(&mut self, chat: UpdateNewChat)
        ensures
            final(self).chats() == old(self).chats().insert(chat.id, chat.other),
            final(self).basic_groups() == old(self).basic_groups(),
            final(self).supergroups() == old(self).supergroups(),
            final(self).users() == old(self).users(),
    {
        self.chats.insert(chat.id, chat.other);
    }

    /// Keeps the record of a basic group, in place of an earlier one with the same id.
    pub fn record_basic_group(&mut self, group: UpdateBasicgroup)
        ensures
            final(self).chats() == old(self).chats(),
            final(self).basic_groups() == old(self).basic_groups().insert(group.id, group.other),
            final(self).supergroups() == old(self).supergroups(),
            final(self).users() == old(self).users(),
    {
        self.basic_groups.insert(group.id, group.other);
    }

    /// Keeps the record of a supergroup, in place of an earlier one with the same id.
    pub fn record_supergroup(&mut self, group: UpdateSupergroup)
        ensures
            final(self).chats() == old(self).chats(),
            final(self).basic_groups() == old(self).basic_groups(),
            final(self).supergroups() == old(self).supergroups().insert(group.id, group.other),
            final(self).users() == old(self).users(),
    {
        self.supergroups.insert(group.id, group.other);
    }

    /// Keeps the record of a user, in place of an earlier one with the same id.
    pub fn record_user(&mut self, user: UpdateUser)
        ensures
            final(self).chats() == old(self).chats(),
            final(self).basic_groups() == old(self).basic_groups(),
            final(self).supergroups() == old(self).supergroups(),
            final(self).users() == old(self).users().insert(user.id, user.other),
    {
        self.users.insert(user.id, user.other);
    }

    /// A copy of the chats known so far.
    pub fn get_chats(&self) -> (r: BTreeMap<i64, Value>)
        ensures
            r@ == self.chats(),
    {
        self.chats.clone()
    }

    /// A copy of the basic groups known so far.
    pub fn get_basic_groups(&self) -> (r: BTreeMap<i64, Value>)
        ensures
            r@ == self.basic_groups(),
    {
        self.basic_groups.clone()
    }

    /// A copy of the supergroups known so far.
    pub fn get_supergroups(&self) -> (r: BTreeMap<i64, Value>)
        ensures
            r@ == self.supergroups(),
    {
        self.supergroups.clone()
    }

    /// A copy of the users known so far.
    pub fn get_users(&self) -> (r: BTreeMap<i64, Value>)
        ensures
            r@ == self.users(),
    {
        self.users.clone()
    }

    /// The record of the chat with this id.
    pub fn chat(&self, chat_id: i64) -> (r: Option<&Value>)
        ensures
            match r {
                Some(record) => self.chats().contains_key(chat_id) && self.chats()[chat_id]
                    == *record,
                None => !self.chats().contains_key(chat_id),
            },
    {
        self.chats.get(&chat_id)
    }

    /// The ids of the chats known so far.
    pub fn get_chat_ids(&self) -> (ids: BTreeSet<i64>)
        ensures
            ids@ == self.chats().dom(),
    {
        let mut ids: BTreeSet<i64> = BTreeSet::new();
        for id in it: self.chats.keys()
            invariant
                ids@ == it.seq().unref().take(it.index()).to_set(),
        {
            ids.insert(*id);
            assert(it.seq().unref().take(it.index() + 1) =~= it.seq().unref().take(
                it.index(),
            ).push(*id));
            assert(it.seq().unref().take(it.index()).push(*id).to_set() =~= it.seq().unref().take(
                it.index(),
            ).to_set().insert(*id)) by {
                let s = it.seq().unref().take(it.index());
                assert forall|x: i64| s.push(*id).to_set().contains(x) <==> s.to_set().insert(
                    *id,
                ).contains(x) by {
                    if s.push(*id).contains(x) {
                        let k = choose|k: int| 0 <= k < s.push(*id).len() && s.push(*id)[k] == x;
                        if k < s.len() {
                            assert(s[k] == x);
                        }
                    }
                    if s.contains(x) {
                        let k = choose|k: int| 0 <= k < s.len() && s[k] == x;
                        assert(s.push(*id)[k] == x);
                    }
                    if x == *id {
                        assert(s.push(*id)[s.len() as int] == x);
                    }
                }
            }
        }
        proof {
            let keys = self.chats.keys().remaining().unref();
            assert(keys.take(keys.len() as int) =~= keys);
            assert(ids@ == keys.to_set());
        }
        ids
    }
}

} // verus!
