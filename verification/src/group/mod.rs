use std::collections::HashSet;
use vstd::prelude::*;

pub mod grpmessage;

verus! {

/// Capacity of the event queue of each group's message process.
pub const GROUP_EVENT_QUEUE_LEN: usize = 1024;

/// The groups whose message process has been started; a group's process is found by
/// the group's id.
pub struct GroupMessageRegistry {
    groups: HashSet<u64>,
}

impl View for GroupMessageRegistry {
    type V = Set<u64>;

    closed spec fn view(&self) -> Set<u64> {
        self.groups@
    }
}

impl GroupMessageRegistry {
    /// A registry with no group.
    pub fn new() -> (reg: GroupMessageRegistry)
        ensures
            reg@ == Set::<u64>::empty(),
    {
        GroupMessageRegistry { groups: HashSet::new() }
    }

    /// Whether the message process of group `group_id` has been started.
    pub fn contains(&self, group_id: u64) -> (b: bool)
        ensures
            b == self@.contains(group_id),
    {
        self.groups.contains(&group_id)
    }

    /// The message process of group `group_id`, registering the group when it is seen
    /// for the first time.
    pub fn get_gmp_by_id(&mut self, group_id: u64) -> (gmp: Option<u64>)
        ensures
            final(self)@ == old(self)@.insert(group_id),
            gmp == Some(group_id),
    {
        if !self.groups.contains(&group_id) {
            self.groups.insert(group_id);
        }
        Some(group_id)
    }
}

} // verus!
