//! The room registry: maps a mission identifier to its one broadcast
//! room. Rooms are created lazily on first access and never removed for
//! the lifetime of the process. The caller guards each call in one
//! mutually exclusive critical section, so the race-free get-or-create
//! contract reduces to the sequential contract stated here.

use vstd::prelude::*;
use std::collections::HashMap;
use tokio::sync::broadcast::Sender;
use crate::channel::new_room_channel;

verus! {

broadcast use vstd::std_specs::hash::group_hash_axioms;

/// How many broadcast messages a room buffers per lagging subscriber
/// before that subscriber starts losing the oldest ones.
pub const ROOM_CAPACITY: usize = 128;

/// One room: its place in the order of creation, which names the room
/// uniquely within the registry, and the sending half of its broadcast
/// channel.
pub struct Room {
    pub id: usize,
    pub tx: Sender<String>,
}

/// The registry of all rooms that have ever been asked for.
pub struct RoomRegistry {
    rooms: HashMap<i32, Room>,
}

impl View for RoomRegistry {
    type V = Map<i32, Room>;

    closed spec fn view(&self) -> Map<i32, Room> {
        self.rooms@
    }
}

impl RoomRegistry {
    /// Every room's id is below the number of rooms, and no two
    /// missions share a room id.
    pub open spec fn wf(self) -> bool {
        &&& forall|m: i32| #[trigger]
            self@.dom().contains(m) ==> self@[m].id < self@.dom().len()
        &&& forall|m1: i32, m2: i32|
            #![trigger self@[m1].id, self@[m2].id]
            self@.dom().contains(m1) && self@.dom().contains(m2) && m1 != m2 ==> self@[m1].id
                != self@[m2].id
    }

    /// An empty registry.
    pub fn new() -> (r: RoomRegistry)
        ensures
            r.wf(),
            r@ == Map::<i32, Room>::empty(),
    {
        RoomRegistry { rooms: HashMap::new() }
    }

    /// Returns the room of the given mission, creating it first when the
    /// mission has never been seen; an existing room is handed back
    /// untouched, and no other mission's room changes either way.
    pub fn get_or_create_room(&mut self, mission_id: i32) -> (room: &Room)
        requires
            old(self).wf(),
        ensures
            final(self).wf(),
            get_or_create_post(old(self)@, final(self)@, mission_id, *room),
    {
        if !self.rooms.contains_key(&mission_id) {
            let tx = new_room_channel(ROOM_CAPACITY);
            let id = self.rooms.len();
            proof {
                assert(id == old(self)@.dom().len());
            }
            let fresh = Room { id, tx };
            self.rooms.insert(mission_id, fresh);
            proof {
                let pre = old(self)@;
                let post = self@;
                assert(pre == old(self).rooms@);
                assert(post == self.rooms@);
                assert(post == pre.insert(mission_id, fresh));
                assert(post.dom() =~= pre.dom().insert(mission_id));
                assert(post.dom().len() == pre.dom().len() + 1);
                assert(post[mission_id].id == pre.dom().len());
                assert forall|m: i32| #[trigger] post.dom().contains(m) implies post[m].id
                    < post.dom().len() by {
                    if m != mission_id {
                        assert(pre.dom().contains(m));
                        assert(post[m] == pre[m]);
                        assert(pre[m].id < pre.dom().len());
                    }
                }
                assert forall|m1: i32, m2: i32|
                    post.dom().contains(m1) && post.dom().contains(m2) && m1 != m2 implies post[m1].id
                    != post[m2].id by {
                    if m1 == mission_id {
                        assert(pre.dom().contains(m2));
                        assert(pre[m2].id < pre.dom().len());
                    } else if m2 == mission_id {
                        assert(pre.dom().contains(m1));
                        assert(pre[m1].id < pre.dom().len());
                    } else {
                        assert(pre.dom().contains(m1) && pre.dom().contains(m2));
                    }
                }
            }
        }
        match self.rooms.get(&mission_id) {
            Some(r) => r,
            None => unreached(),
        }
    }
}

/// What one get-or-create call does: afterwards the mission has a room,
/// the returned room is that room, and the registry is unchanged but for
/// at most the one new entry.
pub open spec fn get_or_create_post(
    pre: Map<i32, Room>,
    post: Map<i32, Room>,
    mission_id: i32,
    room: Room,
) -> bool {
    &&& post.contains_key(mission_id)
    &&& room == post[mission_id]
    &&& if pre.contains_key(mission_id) {
        post == pre
    } else {
        post == pre.insert(mission_id, room)
    }
}

/// Law (room identity): however many times a room is asked for, every
/// call after the first returns the room the first call produced and
/// leaves the registry as it was — the registry never holds two rooms
/// for one mission.
pub proof fn lemma_room_identity(
    s0: Map<i32, Room>,
    s1: Map<i32, Room>,
    s2: Map<i32, Room>,
    mission_id: i32,
    first: Room,
    second: Room,
)
    requires
        get_or_create_post(s0, s1, mission_id, first),
        get_or_create_post(s1, s2, mission_id, second),
    ensures
        second == first,
        s2 == s1,
{
}

/// Law (isolation): two distinct missions never share a room, so a
/// message published in one mission's room cannot reach a connection
/// subscribed only to another mission's room.
pub proof fn lemma_room_isolation(reg: RoomRegistry, m1: i32, m2: i32)
    requires
        reg.wf(),
        reg@.contains_key(m1),
        reg@.contains_key(m2),
        m1 != m2,
    ensures
        reg@[m1].id != reg@[m2].id,
{
}

} // verus!
