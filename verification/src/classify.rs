use vstd::prelude::*;

verus! {

/// Outcome of a best-effort lookup of one state marker on a room. A failed
/// lookup is treated as "marker not present", never as a classification
/// failure.
#[derive(Clone, Copy, Debug, PartialEq, Eq, Structural)]
pub enum StateLookup {
    Found,
    Absent,
    Failed,
}

/// What the classifier reads of one room: its id and the lookup outcomes
/// for the production and the development organizational-purpose marker.
#[derive(Debug)]
pub struct RoomProfile {
    pub room_id: String,
    pub purpose: StateLookup,
    pub purpose_dev: StateLookup,
}

/// A room that carries an organizational-purpose marker.
#[derive(Debug)]
pub struct Group {
    pub inner: RoomProfile,
}

/// A room that carries neither organizational-purpose marker.
#[derive(Debug)]
pub struct Conversation {
    pub inner: RoomProfile,
}

/// A room is a group exactly when either purpose marker was found.
pub open spec fn spec_is_group(r: RoomProfile) -> bool {
    r.purpose == StateLookup::Found || r.purpose_dev == StateLookup::Found
}

/// The rooms of `rooms` that are groups, in order.
pub open spec fn group_part(rooms: Seq<RoomProfile>) -> Seq<RoomProfile>
    decreases rooms.len(),
{
    if rooms.len() == 0 {
        Seq::<RoomProfile>::empty()
    } else {
        (if spec_is_group(rooms[0]) {
            seq![rooms[0]]
        } else {
            Seq::<RoomProfile>::empty()
        }) + group_part(rooms.skip(1))
    }
}

/// The rooms of `rooms` that are plain conversations, in order.
pub open spec fn conversation_part(rooms: Seq<RoomProfile>) -> Seq<RoomProfile>
    decreases rooms.len(),
{
    if rooms.len() == 0 {
        Seq::<RoomProfile>::empty()
    } else {
        (if spec_is_group(rooms[0]) {
            Seq::<RoomProfile>::empty()
        } else {
            seq![rooms[0]]
        }) + conversation_part(rooms.skip(1))
    }
}

/// Test one room for either purpose marker.
pub fn is_effektio_group(r: &RoomProfile) -> (b: bool)
    ensures
        b == spec_is_group(*r),
{
    match r.purpose {
        StateLookup::Found => true,
        _ => match r.purpose_dev {
            StateLookup::Found => true,
            _ => false,
        },
    }
}

/// Partition the rooms visible to the client into groups and plain
/// conversations, in room order. The classification is re-derived in full
/// from the given profiles; nothing is cached.
pub fn devide_groups_from_common(rooms: Vec<RoomProfile>) -> (r: (Vec<Group>, Vec<Conversation>))
    ensures
        r.0@.map_values(|g: Group| g.inner) == group_part(rooms@),
        r.1@.map_values(|c: Conversation| c.inner) == conversation_part(rooms@),
{
    let ghost all = rooms@;
    let mut rooms = rooms;
    let mut groups: Vec<Group> = Vec::new();
    let mut conversations: Vec<Conversation> = Vec::new();
    while rooms.len() > 0
        invariant
            group_part(all) == groups@.map_values(|g: Group| g.inner) + group_part(rooms@),
            conversation_part(all) == conversations@.map_values(|c: Conversation| c.inner)
                + conversation_part(rooms@),
        decreases rooms.len(),
    {
        let ghost before = rooms@;
        let room = rooms.remove(0);
        proof {
            assert(before.remove(0) =~= before.skip(1));
        }
        if is_effektio_group(&room) {
            let ghost gs = groups@;
            groups.push(Group { inner: room });
            proof {
                assert(groups@.map_values(|g: Group| g.inner)
                    =~= gs.map_values(|g: Group| g.inner).push(before[0]));
                assert(gs.map_values(|g: Group| g.inner).push(before[0])
                    =~= gs.map_values(|g: Group| g.inner) + seq![before[0]]);
                assert(groups@.map_values(|g: Group| g.inner) + group_part(rooms@)
                    =~= gs.map_values(|g: Group| g.inner)
                        + (seq![before[0]] + group_part(before.skip(1))));
            }
        } else {
            let ghost cs = conversations@;
            conversations.push(Conversation { inner: room });
            proof {
                assert(conversations@.map_values(|c: Conversation| c.inner)
                    =~= cs.map_values(|c: Conversation| c.inner).push(before[0]));
                assert(cs.map_values(|c: Conversation| c.inner).push(before[0])
                    =~= cs.map_values(|c: Conversation| c.inner) + seq![before[0]]);
                assert(conversations@.map_values(|c: Conversation| c.inner)
                    + conversation_part(rooms@)
                    =~= cs.map_values(|c: Conversation| c.inner)
                        + (seq![before[0]] + conversation_part(before.skip(1))));
            }
        }
    }
    proof {
        assert(groups@.map_values(|g: Group| g.inner) + group_part(rooms@)
            =~= groups@.map_values(|g: Group| g.inner));
        assert(conversations@.map_values(|c: Conversation| c.inner) + conversation_part(rooms@)
            =~= conversations@.map_values(|c: Conversation| c.inner));
    }
    (groups, conversations)
}

/// The plain conversations among the rooms visible to the client, in room
/// order: the rooms the partition puts in neither group.
pub fn conversations(rooms: Vec<RoomProfile>) -> (r: Vec<Conversation>)
    ensures
        r@.map_values(|c: Conversation| c.inner) == conversation_part(rooms@),
{
    let (_, found) = devide_groups_from_common(rooms);
    found
}

/// The classifier output partitions the room set: every room appears in
/// exactly one of the two parts — the group part holds exactly the rooms
/// with a purpose marker, the conversation part exactly those without, and
/// together they account for the whole set.
pub proof fn lemma_classifier_partitions(rooms: Seq<RoomProfile>)
    ensures
        group_part(rooms).len() + conversation_part(rooms).len() == rooms.len(),
        forall|r: RoomProfile|
            #[trigger] group_part(rooms).contains(r) <==> rooms.contains(r) && spec_is_group(r),
        forall|r: RoomProfile|
            #[trigger] conversation_part(rooms).contains(r) <==> rooms.contains(r)
                && !spec_is_group(r),
    decreases rooms.len(),
{
    if rooms.len() == 0 {
    } else {
        lemma_classifier_partitions(rooms.skip(1));
        assert forall|r: RoomProfile| #[trigger] rooms.contains(r) implies r == rooms[0]
            || rooms.skip(1).contains(r) by {
            let i = choose|i: int| 0 <= i < rooms.len() && rooms[i] == r;
            if i > 0 {
                assert(rooms.skip(1)[i - 1] == r);
            }
        }
        assert forall|r: RoomProfile| r == rooms[0] || rooms.skip(1).contains(r)
            implies #[trigger] rooms.contains(r) by {
            if r == rooms[0] {
                assert(rooms[0] == r);
            } else {
                let i = choose|i: int| 0 <= i < rooms.skip(1).len() && rooms.skip(1)[i] == r;
                assert(rooms[i + 1] == r);
            }
        }
        assert forall|r: RoomProfile| #[trigger] group_part(rooms).contains(r) implies r
            == rooms[0] || group_part(rooms.skip(1)).contains(r) by {
            let head = if spec_is_group(rooms[0]) {
                seq![rooms[0]]
            } else {
                Seq::<RoomProfile>::empty()
            };
            let i = choose|i: int|
                0 <= i < group_part(rooms).len() && group_part(rooms)[i] == r;
            if i >= head.len() {
                assert(group_part(rooms.skip(1))[i - head.len()] == r);
            }
        }
        assert forall|r: RoomProfile| #[trigger] conversation_part(rooms).contains(r) implies r
            == rooms[0] || conversation_part(rooms.skip(1)).contains(r) by {
            let head = if spec_is_group(rooms[0]) {
                Seq::<RoomProfile>::empty()
            } else {
                seq![rooms[0]]
            };
            let i = choose|i: int|
                0 <= i < conversation_part(rooms).len() && conversation_part(rooms)[i] == r;
            if i >= head.len() {
                assert(conversation_part(rooms.skip(1))[i - head.len()] == r);
            }
        }
        assert forall|r: RoomProfile| rooms.contains(r) && spec_is_group(r)
            implies #[trigger] group_part(rooms).contains(r) by {
            if r == rooms[0] {
                assert(group_part(rooms)[0] == r);
            } else {
                assert(group_part(rooms.skip(1)).contains(r));
                let i = choose|i: int|
                    0 <= i < group_part(rooms.skip(1)).len() && group_part(rooms.skip(1))[i] == r;
                let head = if spec_is_group(rooms[0]) {
                    seq![rooms[0]]
                } else {
                    Seq::<RoomProfile>::empty()
                };
                assert(group_part(rooms)[head.len() + i] == r);
            }
        }
        assert forall|r: RoomProfile| rooms.contains(r) && !spec_is_group(r)
            implies #[trigger] conversation_part(rooms).contains(r) by {
            if r == rooms[0] {
                assert(conversation_part(rooms)[0] == r);
            } else {
                assert(conversation_part(rooms.skip(1)).contains(r));
                let i = choose|i: int|
                    0 <= i < conversation_part(rooms.skip(1)).len()
                        && conversation_part(rooms.skip(1))[i] == r;
                let head = if spec_is_group(rooms[0]) {
                    Seq::<RoomProfile>::empty()
                } else {
                    seq![rooms[0]]
                };
                assert(conversation_part(rooms)[head.len() + i] == r);
            }
        }
    }
}

} // verus!
