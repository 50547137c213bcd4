use std::collections::HashMap;
use vstd::prelude::*;

use crate::geo::{Index, Side};

verus! {

/// The phase of a collision with one other entity.
#[derive(Clone, Copy, Debug, PartialEq, Eq, Structural)]
pub enum State {
    /// The collision began, or began again after it had been left.
    Enter,
    /// The collision was not renewed in the last tick.
    Leave,
    /// The collision goes on.
    Steady,
    /// The collision is over and its record is about to be dropped. No
    /// record is stored in this state.
    Removed,
}

impl State {
    pub fn is_entering(&self) -> (b: bool)
        ensures
            b == (*self == State::Enter),
    {
        match self {
            State::Enter => true,
            _ => false,
        }
    }

    pub fn is_leaving(&self) -> (b: bool)
        ensures
            b == (*self == State::Leave),
    {
        match self {
            State::Leave => true,
            _ => false,
        }
    }
}

/// What an entity remembers of its collision with one other entity.
#[derive(Clone, Copy, Debug, PartialEq, Eq, Structural)]
pub struct Data {
    /// The side on which the other entity was last seen.
    pub side: Side,
    pub state: State,
    /// Whether the collision was seen in the current tick.
    pub set_collision_this_frame: bool,
}

impl Data {
    /// The record of a collision that was not seen in a tick: it is left,
    /// or over if it had been left already.
    pub open spec fn spec_unset(self) -> Data {
        Data {
            side: self.side,
            state: if self.state == State::Leave {
                State::Removed
            } else {
                State::Leave
            },
            set_collision_this_frame: self.set_collision_this_frame,
        }
    }

    /// The record of a collision that is seen again on `side`: it enters
    /// anew if it had been left, and goes on otherwise.
    pub open spec fn seen_again(self, side: Side) -> Data {
        Data {
            side,
            state: if self.state == State::Leave {
                State::Enter
            } else {
                State::Steady
            },
            set_collision_this_frame: true,
        }
    }

    /// The record of a collision that is seen for the first time.
    pub open spec fn first_seen(side: Side) -> Data {
        Data { side, state: State::Enter, set_collision_this_frame: true }
    }

    /// What the end of a tick makes of a record: one seen in the tick is
    /// kept and its mark cleared; one not seen is left, or dropped if it had
    /// been left already.
    pub open spec fn after_tick(self) -> Option<Data> {
        if self.set_collision_this_frame {
            Some(Data { side: self.side, state: self.state, set_collision_this_frame: false })
        } else if self.state == State::Leave {
            None
        } else {
            Some(self.spec_unset())
        }
    }

    pub fn should_remove(&self) -> (remove: bool)
        ensures
            remove == (self.state == State::Removed),
    {
        match self.state {
            State::Removed => true,
            _ => false,
        }
    }

    pub fn unset(&mut self)
        ensures
            *final(self) == old(self).spec_unset(),
    {
        match self.state {
            State::Leave => self.state = State::Removed,
            _ => self.state = State::Leave,
        }
    }
}

/// The records of `collisions` once `entity_id` has been seen on `side`.
pub open spec fn with_collision(collisions: Map<Index, Data>, entity_id: Index, side: Side) -> Map<
    Index,
    Data,
> {
    if collisions.contains_key(entity_id) {
        collisions.insert(entity_id, collisions[entity_id].seen_again(side))
    } else {
        collisions.insert(entity_id, Data::first_seen(side))
    }
}

/// The records of `collisions` at the end of a tick: each record becomes
/// what `Data::after_tick` makes of it.
pub open spec fn after_tick(collisions: Map<Index, Data>) -> Map<Index, Data> {
    Map::new(
        |id: Index| collisions.contains_key(id) && collisions[id].after_tick() is Some,
        |id: Index| collisions[id].after_tick()->0,
    )
}

/// Whether `collisions` holds a record of `entity_id` that has not been
/// left.
pub open spec fn colliding_with(collisions: Map<Index, Data>, entity_id: Index) -> bool {
    collisions.contains_key(entity_id) && collisions[entity_id].state != State::Leave
}

/// Whether no record of `collisions` is in the state `State::Removed`.
pub open spec fn none_staged(collisions: Map<Index, Data>) -> bool {
    forall|id: Index| #[trigger]
        collisions.contains_key(id) ==> collisions[id].state != State::Removed
}

/// A collision that is seen in one tick and not again is entered at the end
/// of that tick, left at the end of the next, and forgotten at the end of
/// the one after. The entity counts as colliding at the first of these
/// moments only.
pub proof fn collision_is_entered_left_and_forgotten(
    collisions: Map<Index, Data>,
    entity_id: Index,
    side: Side,
)
    requires
        !collisions.contains_key(entity_id),
    ensures
        ({
            let first = after_tick(with_collision(collisions, entity_id, side));
            let second = after_tick(first);
            let third = after_tick(second);
            &&& first.contains_key(entity_id)
            &&& first[entity_id].state == State::Enter
            &&& first[entity_id].side == side
            &&& colliding_with(first, entity_id)
            &&& second.contains_key(entity_id)
            &&& second[entity_id].state == State::Leave
            &&& second[entity_id].side == side
            &&& !colliding_with(second, entity_id)
            &&& !third.contains_key(entity_id)
            &&& !colliding_with(third, entity_id)
        }),
{
}

/// A collision that is seen again in the tick after it was entered goes on.
pub proof fn collision_seen_again_is_steady(
    collisions: Map<Index, Data>,
    entity_id: Index,
    first_side: Side,
    second_side: Side,
)
    requires
        !collisions.contains_key(entity_id),
    ensures
        ({
            let first = after_tick(with_collision(collisions, entity_id, first_side));
            let second = after_tick(with_collision(first, entity_id, second_side));
            &&& second.contains_key(entity_id)
            &&& second[entity_id].state == State::Steady
            &&& second[entity_id].side == second_side
        }),
{
}

/// A collision that has been left and is seen again before it is forgotten
/// is entered anew; it does not go on.
pub proof fn collision_left_and_seen_again_is_entered(
    collisions: Map<Index, Data>,
    entity_id: Index,
    side: Side,
)
    requires
        collisions.contains_key(entity_id),
        collisions[entity_id].state == State::Leave,
    ensures
        with_collision(collisions, entity_id, side)[entity_id].state == State::Enter,
        after_tick(with_collision(collisions, entity_id, side)).contains_key(entity_id),
        after_tick(with_collision(collisions, entity_id, side))[entity_id].state == State::Enter,
{
}

/// What is seen of one entity changes the record of no other.
pub proof fn collision_is_recorded_by_entity(
    collisions: Map<Index, Data>,
    entity_id: Index,
    side: Side,
    other_id: Index,
)
    requires
        other_id != entity_id,
    ensures
        with_collision(collisions, entity_id, side).contains_key(other_id)
            == collisions.contains_key(other_id),
        collisions.contains_key(other_id) ==> with_collision(collisions, entity_id, side)[other_id]
            == collisions[other_id],
{
}

/// At the end of a tick no record is marked as seen.
pub proof fn tick_clears_marks(collisions: Map<Index, Data>, entity_id: Index)
    requires
        after_tick(collisions).contains_key(entity_id),
    ensures
        collisions.contains_key(entity_id),
        !after_tick(collisions)[entity_id].set_collision_this_frame,
{
}

/// Where no record is stored in the state `State::Removed`, none ever is:
/// neither seeing a collision nor the end of a tick stores one.
pub proof fn removed_is_never_stored(collisions: Map<Index, Data>, entity_id: Index, side: Side)
    requires
        none_staged(collisions),
    ensures
        none_staged(with_collision(collisions, entity_id, side)),
        none_staged(after_tick(collisions)),
{
}

/// The collisions of one entity with the others, kept from tick to tick.
pub struct Collision {
    pub collisions: HashMap<Index, Data>,
}

impl View for Collision {
    type V = Map<Index, Data>;

    open spec fn view(&self) -> Map<Index, Data> {
        self.collisions@
    }
}

impl Collision {
    pub fn new() -> (collision: Self)
        ensures
            collision@ == Map::<Index, Data>::empty(),
    {
        Self { collisions: HashMap::new() }
    }

    pub fn in_collision(&self) -> (b: bool)
        ensures
            b == !self@.is_empty(),
    {
        !self.collisions.is_empty()
    }

    pub fn collision_with(&self, entity_id: Index) -> (found: Option<&Data>)
        ensures
            match found {
                Some(data) => self@.contains_key(entity_id) && *data == self@[entity_id],
                None => !self@.contains_key(entity_id),
            },
    {
        broadcast use vstd::std_specs::hash::group_hash_axioms;

        self.collisions.get(&entity_id)
    }

    pub fn in_collision_with(&self, entity_id: Index) -> (b: bool)
        ensures
            b == colliding_with(self@, entity_id),
    {
        match self.collision_with(entity_id) {
            Some(data) => match data.state {
                State::Leave => false,
                _ => true,
            },
            None => false,
        }
    }

    /// Records that the entity `entity_id` is colliding with this one on
    /// `side` in the current tick.
    pub fn set_collision_with(&mut self, entity_id: Index, side: Side)
        ensures
            final(self)@ == with_collision(old(self)@, entity_id, side),
    {
        broadcast use vstd::std_specs::hash::group_hash_axioms;

        let seen = match self.collisions.get(&entity_id) {
            Some(data) => Data {
                side,
                state: match data.state {
                    State::Leave => State::Enter,
                    _ => State::Steady,
                },
                set_collision_this_frame: true,
            },
            None => Data { side, state: State::Enter, set_collision_this_frame: true },
        };
        self.collisions.insert(entity_id, seen);
    }

    /// The entities of which a record is kept, each once, in no particular
    /// order.
    pub fn ids(&self) -> (ids: Vec<Index>)
        ensures
            ids@.no_duplicates(),
            ids@.to_set() == self@.dom(),
    {
        broadcast use vstd::std_specs::hash::group_hash_axioms;

        let mut ids: Vec<Index> = Vec::new();
        let keys = self.collisions.keys();
        let ghost all = vstd::std_specs::iter::IteratorSpec::remaining(&keys);
        for id in it: keys
            invariant
                it.seq() == all,
                ids@ == all.take(it.index()).unref(),
        {
            ids.push(*id);
        }
        assert(ids@ == all.unref());
        ids
    }

    /// Ends the tick.
    pub fn update(&mut self)
        ensures
            final(self)@ == after_tick(old(self)@),
    {
        broadcast use vstd::std_specs::hash::group_hash_axioms;

        let ids = self.ids();
        let mut i: usize = 0;
        while i < ids.len()
            invariant
                i <= ids.len(),
                ids@.no_duplicates(),
                ids@.to_set() == old(self)@.dom(),
                self@.dom().subset_of(old(self)@.dom()),
                forall|j: int|
                    0 <= j < i ==> {
                        &&& self@.contains_key(#[trigger] ids[j]) == after_tick(
                            old(self)@,
                        ).contains_key(ids[j])
                        &&& self@.contains_key(ids[j]) ==> self@[ids[j]] == after_tick(
                            old(self)@,
                        )[ids[j]]
                    },
                forall|j: int|
                    i <= j < ids.len() ==> {
                        &&& self@.contains_key(#[trigger] ids[j])
                        &&& self@[ids[j]] == old(self)@[ids[j]]
                    },
            decreases ids.len() - i,
        {
            let id = ids[i];
            assert(ids@.to_set().contains(id));
            let found = self.collisions.get(&id);
            match found {
                Some(data) => {
                    let mut data: Data = *data;
                    if data.set_collision_this_frame {
                        data.set_collision_this_frame = false;
                        self.collisions.insert(id, data);
                    } else {
                        data.unset();
                        if data.should_remove() {
                            self.collisions.remove(&id);
                        } else {
                            self.collisions.insert(id, data);
                        }
                    }
                },
                None => {},
            }
            i += 1;
        }
        assert forall|id: Index| old(self)@.contains_key(id) implies exists|j: int|
            0 <= j < ids.len() && ids[j] == id by {
            assert(ids@.to_set().contains(id));
        }
        assert(self@ =~= after_tick(old(self)@));
    }
}

} // verus!
