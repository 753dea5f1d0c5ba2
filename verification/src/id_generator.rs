//! The two identifier sequences of a client: request identifiers, which the
//! client numbers by itself, and order identifiers, which the server seeds.
//! The generator is a plain value; whoever shares it guards it.

use vstd::prelude::*;

verus! {

/// The first request identifier of a client.
pub const REQUEST_ID_BASE: i32 = 9000;

/// The identifier that is never issued: on the wire it stands for "unset".
pub const LAST_ID: i32 = 2147483647;

/// The next identifier of either sequence.
#[derive(Clone, Copy, Debug, PartialEq, Eq)]
pub struct IdGenerator {
    next_request: i32,
    next_order: i32,
}

/// The mathematical content of an [`IdGenerator`].
pub struct IdGeneratorView {
    /// The request identifier that is issued next.
    pub next_request: int,
    /// The order identifier that is issued next.
    pub next_order: int,
}

impl View for IdGenerator {
    type V = IdGeneratorView;

    closed spec fn view(&self) -> IdGeneratorView {
        IdGeneratorView {
            next_request: self.next_request as int,
            next_order: self.next_order as int,
        }
    }
}

impl IdGenerator {
    /// A generator whose order identifiers start at the seed of the server.
    pub fn new(initial_order_id: i32) -> (r: IdGenerator)
        ensures
            r@.next_request == REQUEST_ID_BASE,
            r@.next_order == initial_order_id,
    {
        IdGenerator { next_request: REQUEST_ID_BASE, next_order: initial_order_id }
    }

    /// Issues the next request identifier: returns it, then advances. `None`
    /// once the sequence is used up; the generator then stays as it is.
    pub fn next_request_id(&mut self) -> (r: Option<i32>)
        ensures
            final(self)@.next_order == old(self)@.next_order,
            match r {
                Some(id) => id == old(self)@.next_request && final(self)@.next_request == id + 1,
                None => old(self)@.next_request == LAST_ID && final(self)@ == old(self)@,
            },
    {
        if self.next_request == LAST_ID {
            None
        } else {
            let id = self.next_request;
            self.next_request = id + 1;
            Some(id)
        }
    }

    /// Issues the next order identifier: returns it, then advances. `None`
    /// once the sequence is used up; the generator then stays as it is.
    pub fn next_order_id(&mut self) -> (r: Option<i32>)
        ensures
            final(self)@.next_request == old(self)@.next_request,
            match r {
                Some(id) => id == old(self)@.next_order && final(self)@.next_order == id + 1,
                None => old(self)@.next_order == LAST_ID && final(self)@ == old(self)@,
            },
    {
        if self.next_order == LAST_ID {
            None
        } else {
            let id = self.next_order;
            self.next_order = id + 1;
            Some(id)
        }
    }

    /// Takes a seed of the server. A seed only raises the sequence: one that
    /// lies below the next identifier changes nothing.
    pub fn set_order_id(&mut self, seed: i32)
        ensures
            final(self)@.next_request == old(self)@.next_request,
            final(self)@.next_order == if seed > old(self)@.next_order {
                seed as int
            } else {
                old(self)@.next_order
            },
    {
        if seed > self.next_order {
            self.next_order = seed;
        }
    }

    /// The order identifier that would be issued next.
    pub fn peek_order_id(&self) -> (r: i32)
        ensures
            r == self@.next_order,
    {
        self.next_order
    }
}

/// What can happen to the order sequence.
pub enum OrderIdEvent {
    /// A caller takes an identifier.
    Take,
    /// The server sends a seed.
    Seed(int),
}

/// The next order identifier after one event.
pub open spec fn order_id_after(next: int, event: OrderIdEvent) -> int {
    match event {
        OrderIdEvent::Take => if next == LAST_ID {
            next
        } else {
            next + 1
        },
        OrderIdEvent::Seed(seed) => if seed > next {
            seed
        } else {
            next
        },
    }
}

/// The next order identifier after a run of events.
pub open spec fn order_id_after_run(next: int, events: Seq<OrderIdEvent>) -> int
    decreases events.len(),
{
    if events.len() == 0 {
        next
    } else {
        order_id_after(order_id_after_run(next, events.drop_last()), events.last())
    }
}

/// The identifiers that a run of events issues, oldest first.
pub open spec fn issued(next: int, events: Seq<OrderIdEvent>) -> Seq<int>
    decreases events.len(),
{
    if events.len() == 0 {
        Seq::<int>::empty()
    } else {
        let before = order_id_after_run(next, events.drop_last());
        let earlier = issued(next, events.drop_last());
        match events.last() {
            OrderIdEvent::Take => if before == LAST_ID {
                earlier
            } else {
                earlier.push(before)
            },
            OrderIdEvent::Seed(_) => earlier,
        }
    }
}

/// Across any run of takes and seeds the order sequence never goes back, and
/// every identifier that was issued lies below the one that comes next.
pub proof fn lemma_order_ids_never_regress(next: int, events: Seq<OrderIdEvent>)
    ensures
        order_id_after_run(next, events) >= next,
        forall|k: int|
            0 <= k < issued(next, events).len() ==> next <= #[trigger] issued(next, events)[k]
                < order_id_after_run(next, events),
    decreases events.len(),
{
    if events.len() > 0 {
        let earlier = events.drop_last();
        lemma_order_ids_never_regress(next, earlier);
        let before = order_id_after_run(next, earlier);
        let after = order_id_after_run(next, events);
        assert(after >= before);
        let all = issued(next, events);
        let old_ids = issued(next, earlier);
        assert forall|k: int| 0 <= k < all.len() implies next <= #[trigger] all[k] < after by {
            if k < old_ids.len() {
                assert(all[k] == old_ids[k]);
            } else {
                assert(all[k] == before);
            }
        }
    }
}

/// No identifier is issued twice: of any two that a run issues, the later one
/// is the greater.
pub proof fn lemma_order_ids_are_unique(next: int, events: Seq<OrderIdEvent>)
    ensures
        forall|j: int, k: int|
            0 <= j < k < issued(next, events).len() ==> issued(next, events)[j] < issued(
                next,
                events,
            )[k],
    decreases events.len(),
{
    if events.len() > 0 {
        let earlier = events.drop_last();
        lemma_order_ids_are_unique(next, earlier);
        lemma_order_ids_never_regress(next, earlier);
        let all = issued(next, events);
        let old_ids = issued(next, earlier);
        assert forall|j: int, k: int| 0 <= j < k < all.len() implies all[j] < all[k] by {
            if k < old_ids.len() {
                assert(all[j] == old_ids[j]);
                assert(all[k] == old_ids[k]);
            } else {
                assert(all[j] == old_ids[j]);
            }
        }
    }
}

} // verus!
