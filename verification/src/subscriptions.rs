//! The subscription registry: which routing key has a subscription, in what
//! state it is, and which frames wait for each of its consumers. The
//! registry only decides; the router that feeds it and the consumers that
//! drain it wait, read and write on their own.

use std::collections::HashMap;
use vstd::prelude::*;
use vstd::set_lib::lemma_map_size;
use vstd::std_specs::hash::group_hash_axioms;
use vstd::std_specs::iter::IteratorSpec;
use crate::errors::Error;
use crate::errors::ErrorView;
use crate::messages::MessageView;
use crate::messages::RequestMessage;
use crate::messages::ResponseMessage;
use crate::views::lemma_views_push;
use crate::views::optional_view;
use crate::views::views_of;

verus! {

broadcast use group_hash_axioms;

/// The state of a subscription. `Active` is the only state that can be
/// left; the others are final.
#[derive(Clone, Copy, Debug, PartialEq, Eq)]
pub enum SubscriptionState {
    /// Frames are delivered.
    Active,
    /// The server closed the stream.
    Ended,
    /// The consumer cancelled.
    Cancelled,
    /// A consumer did not drain its channel in time.
    Overrun,
    /// The connection was lost.
    Disconnected,
}

impl SubscriptionState {
    /// Every state but `Active` is final.
    pub open spec fn terminal(self) -> bool {
        !(self is Active)
    }

    /// Whether the state is final.
    pub fn is_terminal(&self) -> (r: bool)
        ensures
            r == self.terminal(),
    {
        match self {
            SubscriptionState::Active => false,
            _ => true,
        }
    }
}

/// The channel of one consumer: whether the consumer still holds it, and
/// the frames that wait for it.
struct Channel {
    open: bool,
    frames: Vec<ResponseMessage>,
}

/// The mathematical content of the channel of one consumer.
pub struct ChannelView {
    /// Whether the consumer still holds the channel.
    pub open: bool,
    /// The frames that wait for the consumer, oldest first.
    pub frames: Seq<MessageView>,
}

impl ChannelView {
    /// The channel of a consumer that has just joined: nothing waits yet.
    pub open spec fn fresh() -> ChannelView {
        ChannelView { open: true, frames: Seq::<MessageView>::empty() }
    }

    /// The channel after one more frame was delivered: the frame waits
    /// behind all others, unless the consumer has let go.
    pub open spec fn delivered(self, frame: MessageView) -> ChannelView {
        if self.open {
            ChannelView { frames: self.frames.push(frame), ..self }
        } else {
            self
        }
    }

    /// The channel after the consumer has let go of it.
    pub open spec fn closed() -> ChannelView {
        ChannelView { open: false, frames: Seq::<MessageView>::empty() }
    }
}

impl Channel {
    spec fn view(&self) -> ChannelView {
        ChannelView { open: self.open, frames: views_of(self.frames@) }
    }
}

/// The contents of the channels of a subscription, by consumer.
spec fn channel_views(channels: Seq<Channel>) -> Seq<ChannelView> {
    Seq::new(channels.len(), |c: int| channels[c]@)
}

/// One subscription: its routing key, its state, one channel for each
/// consumer that ever joined, how many frames may wait in a channel, the
/// frame that cancels it at the server, whether the server answers a cancel
/// with a last frame, and whether the server has acknowledged the end.
struct Subscription {
    id: i32,
    state: SubscriptionState,
    channels: Vec<Channel>,
    capacity: usize,
    cancel_request: Option<RequestMessage>,
    expects_terminal: bool,
    acknowledged: bool,
}

/// The mathematical content of a subscription.
pub struct SubscriptionView {
    /// The routing key: a request identifier, an order identifier or a
    /// message kind.
    pub id: int,
    /// The state.
    pub state: SubscriptionState,
    /// The channels of the consumers, in the order in which they joined. A
    /// consumer is known by the place of its channel.
    pub channels: Seq<ChannelView>,
    /// How many frames may wait in one channel.
    pub capacity: nat,
    /// The fields of the frame that cancels the subscription at the server,
    /// if there is one.
    pub cancel_request: Option<Seq<Seq<char>>>,
    /// Whether the server answers a cancel with a last frame.
    pub expects_terminal: bool,
    /// Whether the server has acknowledged the end of the stream, so that
    /// no frame for the key is under way any more.
    pub acknowledged: bool,
}

impl SubscriptionView {
    /// A subscription that was just registered: active, with its first
    /// consumer, which is consumer zero.
    pub open spec fn fresh(
        id: int,
        capacity: nat,
        cancel_request: Option<Seq<Seq<char>>>,
        expects_terminal: bool,
    ) -> SubscriptionView {
        SubscriptionView {
            id,
            state: SubscriptionState::Active,
            channels: seq![ChannelView::fresh()],
            capacity,
            cancel_request,
            expects_terminal,
            acknowledged: false,
        }
    }

    /// Whether `consumer` has joined and has not let go.
    pub open spec fn attached(self, consumer: int) -> bool {
        0 <= consumer < self.channels.len() && self.channels[consumer].open
    }

    /// Whether any consumer still holds the subscription.
    pub open spec fn has_consumer(self) -> bool {
        exists|c: int| #[trigger] self.attached(c)
    }

    /// Whether the channel of some consumer is full.
    pub open spec fn full(self) -> bool {
        exists|c: int| #[trigger] self.attached(c) && self.channels[c].frames.len() >= self.capacity
    }

    /// Whether the key is free again: the subscription is final, and the
    /// server has acknowledged its end.
    pub open spec fn reusable(self) -> bool {
        self.state.terminal() && self.acknowledged
    }

    /// The same subscription in another state.
    pub open spec fn in_state(self, state: SubscriptionState) -> SubscriptionView {
        SubscriptionView { state, ..self }
    }

    /// The subscription after a frame was delivered: the frame waits in the
    /// channel of every consumer that holds the subscription.
    pub open spec fn delivered(self, frame: MessageView) -> SubscriptionView {
        SubscriptionView {
            channels: Seq::new(self.channels.len(), |c: int| self.channels[c].delivered(frame)),
            ..self
        }
    }

    /// The subscription after the server closed the stream.
    pub open spec fn ended(self) -> SubscriptionView {
        SubscriptionView { state: SubscriptionState::Ended, acknowledged: true, ..self }
    }

    /// The subscription after a cancel: an active one is cancelled, and
    /// waits for the last frame of the server where the server sends one; a
    /// final one stays as it is.
    pub open spec fn cancelled(self) -> SubscriptionView {
        if self.state is Active {
            SubscriptionView {
                state: SubscriptionState::Cancelled,
                acknowledged: !self.expects_terminal,
                ..self
            }
        } else {
            self
        }
    }

    /// The subscription after a consumer did not drain its channel in time:
    /// an active one fails as overrun, a final one stays as it is.
    pub open spec fn overrun(self) -> SubscriptionView {
        if self.state is Active {
            self.in_state(SubscriptionState::Overrun)
        } else {
            self
        }
    }

    /// What a shutdown of the router makes of a subscription: an active one
    /// fails as disconnected, a final one keeps its state, and none waits
    /// for the server any more.
    pub open spec fn disconnected(self) -> SubscriptionView {
        SubscriptionView {
            state: if self.state is Active {
                SubscriptionState::Disconnected
            } else {
                self.state
            },
            acknowledged: true,
            ..self
        }
    }

    /// The subscription after `consumer` took its oldest frame.
    pub open spec fn taken(self, consumer: int) -> SubscriptionView {
        SubscriptionView {
            channels: self.channels.update(
                consumer,
                ChannelView {
                    frames: self.channels[consumer].frames.drop_first(),
                    ..self.channels[consumer]
                },
            ),
            ..self
        }
    }

    /// The subscription after `consumer` let go of it.
    pub open spec fn released(self, consumer: int) -> SubscriptionView {
        SubscriptionView { channels: self.channels.update(consumer, ChannelView::closed()), ..self }
    }

    /// The subscription after one more consumer joined.
    pub open spec fn joined(self) -> SubscriptionView {
        SubscriptionView { channels: self.channels.push(ChannelView::fresh()), ..self }
    }

    /// The cancel frame that is to be sent when the subscription is
    /// cancelled now: the registered one while it is active, none after.
    pub open spec fn cancel_now(self) -> Option<Seq<Seq<char>>> {
        if self.state is Active {
            self.cancel_request
        } else {
            None
        }
    }
}

impl Subscription {
    spec fn view(&self) -> SubscriptionView {
        SubscriptionView {
            id: self.id as int,
            state: self.state,
            channels: channel_views(self.channels@),
            capacity: self.capacity as nat,
            cancel_request: optional_view(self.cancel_request),
            expects_terminal: self.expects_terminal,
            acknowledged: self.acknowledged,
        }
    }

    fn has_consumer(&self) -> (r: bool)
        ensures
            r == self@.has_consumer(),
    {
        let mut c: usize = 0;
        while c < self.channels.len()
            invariant
                c <= self.channels.len(),
                forall|k: int| 0 <= k < c ==> !self@.attached(k),
            decreases self.channels.len() - c,
        {
            if self.channels[c].open {
                assert(self@.attached(c as int));
                return true;
            }
            c += 1;
        }
        false
    }

    fn is_attached(&self, consumer: usize) -> (r: bool)
        ensures
            r == self@.attached(consumer as int),
    {
        consumer < self.channels.len() && self.channels[consumer].open
    }

    fn is_full(&self) -> (r: bool)
        ensures
            r == self@.full(),
    {
        let mut c: usize = 0;
        while c < self.channels.len()
            invariant
                c <= self.channels.len(),
                forall|k: int|
                    0 <= k < c ==> !(#[trigger] self@.attached(k) && self@.channels[k].frames.len()
                        >= self@.capacity),
            decreases self.channels.len() - c,
        {
            if self.channels[c].open && self.channels[c].frames.len() >= self.capacity {
                assert(self@.attached(c as int) && self@.channels[c as int].frames.len()
                    >= self@.capacity);
                return true;
            }
            c += 1;
        }
        false
    }

    fn deliver(self, frame: &ResponseMessage) -> (r: Subscription)
        ensures
            r.id == self.id,
            r@ == self@.delivered(frame@),
    {
        let Subscription {
            id,
            state,
            mut channels,
            capacity,
            cancel_request,
            expects_terminal,
            acknowledged,
        } = self;
        let ghost before = channel_views(channels@);
        let n = channels.len();
        let mut c: usize = 0;
        while c < n
            invariant
                c <= n,
                n == channels.len(),
                n == before.len(),
                forall|k: int| 0 <= k < c ==> (#[trigger] channels@[k])@ == before[k].delivered(frame@),
                forall|k: int| c <= k < n ==> (#[trigger] channels@[k])@ == before[k],
            decreases n - c,
        {
            let ghost old_channels = channels@;
            let channel = channels.remove(c);
            let Channel { open, mut frames } = channel;
            if open {
                let copy = frame.duplicate();
                proof {
                    lemma_views_push(frames@, copy);
                }
                frames.push(copy);
            }
            let changed = Channel { open, frames };
            assert(changed@ == before[c as int].delivered(frame@));
            channels.insert(c, changed);
            assert forall|k: int| 0 <= k < n && k != c implies channels@[k] == old_channels[k] by {}
            c += 1;
        }
        let r = Subscription {
            id,
            state,
            channels,
            capacity,
            cancel_request,
            expects_terminal,
            acknowledged,
        };
        assert(r@.channels =~= self@.delivered(frame@).channels);
        r
    }

    fn take_frame(self, consumer: usize) -> (r: (Subscription, ResponseMessage))
        requires
            self@.attached(consumer as int),
            self@.channels[consumer as int].frames.len() > 0,
        ensures
            r.0.id == self.id,
            r.0@ == self@.taken(consumer as int),
            r.1@ == self@.channels[consumer as int].frames[0],
    {
        let Subscription {
            id,
            state,
            mut channels,
            capacity,
            cancel_request,
            expects_terminal,
            acknowledged,
        } = self;
        let ghost old_channels = channels@;
        let channel = channels.remove(consumer);
        let Channel { open, mut frames } = channel;
        let ghost old_frames = frames@;
        assert(views_of(old_frames).len() > 0);
        let frame = frames.remove(0);
        assert(views_of(frames@) =~= views_of(old_frames).drop_first());
        channels.insert(consumer, Channel { open, frames });
        let r = Subscription {
            id,
            state,
            channels,
            capacity,
            cancel_request,
            expects_terminal,
            acknowledged,
        };
        assert(r@.channels =~= self@.taken(consumer as int).channels) by {
            assert forall|k: int| 0 <= k < old_channels.len() && k != consumer implies r.channels@[k]
                == old_channels[k] by {}
        }
        (r, frame)
    }

    fn release(self, consumer: usize) -> (r: Subscription)
        requires
            consumer < self.channels.len(),
        ensures
            r.id == self.id,
            r@ == self@.released(consumer as int),
    {
        let Subscription {
            id,
            state,
            mut channels,
            capacity,
            cancel_request,
            expects_terminal,
            acknowledged,
        } = self;
        let ghost old_channels = channels@;
        let _ = channels.remove(consumer);
        let closed = Channel { open: false, frames: Vec::new() };
        assert(closed@ == ChannelView::closed()) by {
            assert(views_of(closed.frames@) =~= Seq::<MessageView>::empty());
        }
        channels.insert(consumer, closed);
        let r = Subscription {
            id,
            state,
            channels,
            capacity,
            cancel_request,
            expects_terminal,
            acknowledged,
        };
        assert(r@.channels =~= self@.released(consumer as int).channels) by {
            assert forall|k: int| 0 <= k < old_channels.len() && k != consumer implies r.channels@[k]
                == old_channels[k] by {}
        }
        r
    }

    fn join(self) -> (r: Subscription)
        ensures
            r.id == self.id,
            r@ == self@.joined(),
    {
        let Subscription {
            id,
            state,
            mut channels,
            capacity,
            cancel_request,
            expects_terminal,
            acknowledged,
        } = self;
        let fresh = Channel { open: true, frames: Vec::new() };
        assert(fresh@ == ChannelView::fresh()) by {
            assert(views_of(fresh.frames@) =~= Seq::<MessageView>::empty());
        }
        channels.push(fresh);
        let r = Subscription {
            id,
            state,
            channels,
            capacity,
            cancel_request,
            expects_terminal,
            acknowledged,
        };
        assert(r@.channels =~= self@.joined().channels);
        r
    }

    fn with_state(self, state: SubscriptionState, acknowledged: bool) -> (r: Subscription)
        ensures
            r.id == self.id,
            r@ == (SubscriptionView { state, acknowledged, ..self@ }),
    {
        Subscription {
            id: self.id,
            state,
            channels: self.channels,
            capacity: self.capacity,
            cancel_request: self.cancel_request,
            expects_terminal: self.expects_terminal,
            acknowledged,
        }
    }
}

/// What became of a frame that the router handed in.
#[derive(Clone, Copy, Debug, PartialEq, Eq)]
pub enum Dispatch {
    /// The frame waits for every consumer of the subscription.
    Delivered,
    /// The frame closed the stream, and the subscription has ended.
    Ended,
    /// The channel of a consumer is full. The router waits and tries again;
    /// when its patience is over, it reports the overrun.
    Full,
    /// The frame was the end that a final subscription still waited for:
    /// the server has acknowledged, and the key is free again.
    Acknowledged,
    /// No subscription owns the frame.
    Unsolicited,
}

/// What a consumer gets when it asks for the next item.
#[derive(Clone, Debug, PartialEq)]
pub enum Next {
    /// The oldest frame that waited for this consumer.
    Frame(ResponseMessage),
    /// Nothing waits, and the stream has ended.
    Ended,
    /// Nothing waits, and the subscription was cancelled.
    Cancelled,
    /// Nothing waits, and the subscription has failed.
    Failed(Error),
    /// Nothing waits yet; the subscription is active.
    Pending,
    /// There is no subscription for the key, or the consumer does not hold
    /// it.
    Unknown,
}

/// The registry of the subscriptions of one connection: a map from routing
/// key to subscription.
pub struct Registry {
    entries: HashMap<i32, Subscription>,
}

/// The subscriptions of a map, by routing key.
spec fn by_key(entries: Map<i32, Subscription>) -> Map<int, SubscriptionView> {
    Map::new(
        |id: int| i32::MIN <= id <= i32::MAX && entries.contains_key(id as i32),
        |id: int| entries[id as i32]@,
    )
}

/// Every subscription stands under its own routing key.
spec fn keyed(entries: Map<i32, Subscription>) -> bool {
    forall|k: i32| entries.contains_key(k) ==> (#[trigger] entries[k]).id == k
}

impl View for Registry {
    type V = Map<int, SubscriptionView>;

    closed spec fn view(&self) -> Map<int, SubscriptionView> {
        by_key(self.entries@)
    }
}

impl Registry {
    /// Every subscription of the registry stands under its own routing key.
    pub closed spec fn wf(&self) -> bool {
        keyed(self.entries@)
    }

    /// A registry without subscriptions.
    pub fn new() -> (r: Registry)
        ensures
            r.wf(),
            r@ == Map::<int, SubscriptionView>::empty(),
    {
        let r = Registry { entries: HashMap::new() };
        assert(r@ =~= Map::<int, SubscriptionView>::empty());
        r
    }

    fn lookup(&self, id: i32) -> (r: Option<&Subscription>)
        requires
            self.wf(),
        ensures
            match r {
                Some(entry) => {
                    &&& self.entries@.contains_key(id)
                    &&& self.entries@[id] == *entry
                    &&& entry.id == id
                    &&& self@.dom().contains(id as int)
                    &&& self@[id as int] == entry@
                },
                None => !self.entries@.contains_key(id) && !self@.dom().contains(id as int),
            },
    {
        self.entries.get(&id)
    }

    /// Takes the subscription of a key out of the registry.
    fn take(&mut self, id: i32) -> (entry: Subscription)
        requires
            old(self).wf(),
            old(self).entries@.contains_key(id),
        ensures
            final(self).wf(),
            entry == old(self).entries@[id],
            entry.id == id,
            final(self).entries@ == old(self).entries@.remove(id),
            final(self)@ == old(self)@.remove(id as int),
    {
        let entry = self.entries.remove(&id).unwrap();
        assert(self@ =~= old(self)@.remove(id as int));
        entry
    }

    /// Puts a subscription into the registry, under its key.
    fn put(&mut self, entry: Subscription)
        requires
            old(self).wf(),
        ensures
            final(self).wf(),
            final(self).entries@ == old(self).entries@.insert(entry.id, entry),
            final(self)@ == old(self)@.insert(entry.id as int, entry@),
    {
        let _ = self.entries.insert(entry.id, entry);
        assert(self@ =~= old(self)@.insert(entry.id as int, entry@));
    }

    /// The number of subscriptions.
    pub fn len(&self) -> (n: usize)
        requires
            self.wf(),
        ensures
            n == self@.dom().len(),
            self@.dom().finite(),
    {
        proof {
            let keys = self.entries@.dom();
            let widen = |k: i32| k as int;
            assert(keys.map(widen) =~= self@.dom()) by {
                assert forall|id: int| keys.map(widen).contains(id) <==> self@.dom().contains(
                    id,
                ) by {
                    if self@.dom().contains(id) {
                        assert(keys.contains(id as i32) && widen(id as i32) == id);
                    }
                }
            }
            assert(vstd::relations::injective_on(widen, keys));
            lemma_map_size(keys, self@.dom(), widen);
        }
        self.entries.len()
    }

    /// The state of the subscription of a key, if there is one.
    pub fn state(&self, id: i32) -> (r: Option<SubscriptionState>)
        requires
            self.wf(),
        ensures
            match r {
                Some(state) => self@.dom().contains(id as int) && self@[id as int].state == state,
                None => !self@.dom().contains(id as int),
            },
    {
        match self.lookup(id) {
            Some(entry) => Some(entry.state),
            None => None,
        }
    }

    /// Registers a subscription for a key, with the frame that cancels it
    /// and whether the server answers a cancel with a last frame. A key is
    /// refused while a subscription holds it: one that is active, or one
    /// that is final but whose end the server has not acknowledged. The
    /// first consumer of the new subscription is consumer zero.
    pub fn allocate(
        &mut self,
        id: i32,
        capacity: usize,
        cancel_request: Option<RequestMessage>,
        expects_terminal: bool,
    ) -> (r: Result<(), Error>)
        requires
            old(self).wf(),
        ensures
            final(self).wf(),
            match r {
                Ok(()) => {
                    &&& key_is_free(old(self)@, id as int)
                    &&& final(self)@ == old(self)@.insert(
                        id as int,
                        SubscriptionView::fresh(
                            id as int,
                            capacity as nat,
                            optional_view(cancel_request),
                            expects_terminal,
                        ),
                    )
                },
                Err(e) => {
                    &&& !key_is_free(old(self)@, id as int)
                    &&& e@ == ErrorView::DuplicateId
                    &&& final(self)@ == old(self)@
                },
            },
    {
        let held = match self.lookup(id) {
            Some(entry) => !(entry.state.is_terminal() && entry.acknowledged),
            None => false,
        };
        if held {
            return Err(Error::DuplicateId);
        }
        let mut channels: Vec<Channel> = Vec::new();
        let first = Channel { open: true, frames: Vec::new() };
        assert(first@ == ChannelView::fresh()) by {
            assert(views_of(first.frames@) =~= Seq::<MessageView>::empty());
        }
        channels.push(first);
        let entry = Subscription {
            id,
            state: SubscriptionState::Active,
            channels,
            capacity,
            cancel_request,
            expects_terminal,
            acknowledged: false,
        };
        assert(entry@ == SubscriptionView::fresh(
            id as int,
            capacity as nat,
            optional_view(cancel_request),
            expects_terminal,
        )) by {
            assert(entry@.channels =~= seq![ChannelView::fresh()]);
        }
        self.put(entry);
        Ok(())
    }

    /// Hands a frame to the subscription that owns it. An active
    /// subscription takes it: a frame that closes the stream ends it, any
    /// other frame joins the channel of every consumer, behind those that
    /// wait there, unless one of the channels is full. A final subscription
    /// takes only the end that it still waits for.
    pub fn dispatch(&mut self, id: i32, frame: &ResponseMessage, end_of_stream: bool) -> (r:
        Dispatch)
        requires
            old(self).wf(),
        ensures
            final(self).wf(),
            r == dispatch_result(old(self)@, id as int, end_of_stream),
            final(self)@ == after_dispatch(old(self)@, id as int, frame@, end_of_stream),
    {
        let verdict = match self.lookup(id) {
            None => Dispatch::Unsolicited,
            Some(entry) => {
                if entry.state.is_terminal() {
                    if end_of_stream && !entry.acknowledged {
                        Dispatch::Acknowledged
                    } else {
                        Dispatch::Unsolicited
                    }
                } else if end_of_stream {
                    Dispatch::Ended
                } else if entry.is_full() {
                    Dispatch::Full
                } else {
                    Dispatch::Delivered
                }
            },
        };
        match verdict {
            Dispatch::Acknowledged => {
                self.acknowledge_held(id);
            },
            Dispatch::Ended => {
                let entry = self.take(id);
                self.put(entry.with_state(SubscriptionState::Ended, true));
                assert(self@ =~= old(self)@.insert(id as int, old(self)@[id as int].ended()));
            },
            Dispatch::Delivered => {
                let entry = self.take(id);
                self.put(entry.deliver(frame));
                assert(self@ =~= old(self)@.insert(
                    id as int,
                    old(self)@[id as int].delivered(frame@),
                ));
            },
            _ => {},
        }
        verdict
    }

    /// Records that the server has acknowledged the end of the final
    /// subscription of a key. A subscription that no consumer holds any more
    /// is gone thereby.
    fn acknowledge_held(&mut self, id: i32)
        requires
            old(self).wf(),
            old(self).entries@.contains_key(id),
            old(self).entries@[id].state.terminal(),
        ensures
            final(self).wf(),
            final(self)@ == after_acknowledge(old(self)@, id as int),
    {
        assert(old(self)@.dom().contains(id as int));
        assert(old(self)@[id as int] == old(self).entries@[id]@);
        let entry = self.take(id);
        if entry.has_consumer() {
            let state = entry.state;
            self.put(entry.with_state(state, true));
            assert(self@ =~= after_acknowledge(old(self)@, id as int));
        }
    }

    /// The grace period for the last frame of the server is over: the end
    /// of the final subscription of a key counts as acknowledged. An active
    /// subscription and a key without one stay as they are.
    pub fn acknowledge(&mut self, id: i32)
        requires
            old(self).wf(),
        ensures
            final(self).wf(),
            final(self)@ == after_acknowledge(old(self)@, id as int),
    {
        let is_final = match self.lookup(id) {
            Some(entry) => entry.state.is_terminal(),
            None => false,
        };
        if is_final {
            self.acknowledge_held(id);
        }
    }

    /// Records that a consumer of a key did not drain its channel in time:
    /// an active subscription fails as overrun, anything else stays.
    pub fn overrun(&mut self, id: i32)
        requires
            old(self).wf(),
        ensures
            final(self).wf(),
            final(self)@ == after_overrun(old(self)@, id as int),
    {
        let active = match self.lookup(id) {
            Some(entry) => !entry.state.is_terminal(),
            None => false,
        };
        if active {
            let entry = self.take(id);
            let acknowledged = entry.acknowledged;
            self.put(entry.with_state(SubscriptionState::Overrun, acknowledged));
        }
        assert(self@ =~= after_overrun(old(self)@, id as int));
    }

    /// Cancels the subscription of a key. Returns the cancel frame that is to
    /// be sent: the registered one for an active subscription, which is
    /// cancelled thereby, and none for every call after that.
    pub fn cancel(&mut self, id: i32) -> (emit: Option<RequestMessage>)
        requires
            old(self).wf(),
        ensures
            final(self).wf(),
            optional_view(emit) == cancel_frame(old(self)@, id as int),
            final(self)@ == after_cancel(old(self)@, id as int),
    {
        let active = match self.lookup(id) {
            Some(entry) => !entry.state.is_terminal(),
            None => false,
        };
        if active {
            let entry = self.take(id);
            let emit = match &entry.cancel_request {
                Some(frame) => Some(frame.duplicate()),
                None => None,
            };
            let acknowledged = !entry.expects_terminal;
            self.put(entry.with_state(SubscriptionState::Cancelled, acknowledged));
            assert(self@ =~= after_cancel(old(self)@, id as int));
            emit
        } else {
            assert(self@ =~= after_cancel(old(self)@, id as int));
            None
        }
    }

    /// Adds a consumer to the active subscription of a key, which is then
    /// shared. Returns the number by which the consumer is known, or none
    /// where there is no active subscription to join. The new consumer gets
    /// every frame that is delivered from now on.
    pub fn attach(&mut self, id: i32) -> (consumer: Option<usize>)
        requires
            old(self).wf(),
        ensures
            final(self).wf(),
            match consumer {
                Some(c) => can_attach(old(self)@, id as int) && c == old(self)@[id as int].channels.len(),
                None => !can_attach(old(self)@, id as int),
            },
            final(self)@ == after_attach(old(self)@, id as int),
    {
        let active = match self.lookup(id) {
            Some(entry) => !entry.state.is_terminal(),
            None => false,
        };
        if active {
            let entry = self.take(id);
            let consumer = entry.channels.len();
            self.put(entry.join());
            assert(self@ =~= after_attach(old(self)@, id as int));
            Some(consumer)
        } else {
            None
        }
    }

    /// A consumer lets go of the subscription of a key. While others still
    /// hold it, only this consumer's channel is closed. The last consumer
    /// cancels a subscription that is still active, and is handed the cancel
    /// frame that is to be sent; the subscription is removed, unless it
    /// still waits for the server to acknowledge its end.
    pub fn release(&mut self, id: i32, consumer: usize) -> (emit: Option<RequestMessage>)
        requires
            old(self).wf(),
        ensures
            final(self).wf(),
            optional_view(emit) == release_frame(old(self)@, id as int, consumer as int),
            final(self)@ == after_release(old(self)@, id as int, consumer as int),
    {
        let attached = match self.lookup(id) {
            Some(entry) => entry.is_attached(consumer),
            None => false,
        };
        if !attached {
            return None;
        }
        let entry = self.take(id);
        let entry = entry.release(consumer);
        if entry.has_consumer() {
            self.put(entry);
            assert(self@ =~= after_release(old(self)@, id as int, consumer as int));
            None
        } else if entry.state.is_terminal() {
            if !entry.acknowledged {
                self.put(entry);
            }
            assert(self@ =~= after_release(old(self)@, id as int, consumer as int));
            None
        } else {
            let Subscription {
                id: key,
                state,
                channels,
                capacity,
                cancel_request,
                expects_terminal,
                acknowledged,
            } = entry;
            if expects_terminal {
                let emit = match &cancel_request {
                    Some(frame) => Some(frame.duplicate()),
                    None => None,
                };
                self.put(
                    Subscription {
                        id: key,
                        state: SubscriptionState::Cancelled,
                        channels,
                        capacity,
                        cancel_request,
                        expects_terminal,
                        acknowledged: false,
                    },
                );
                assert(self@ =~= after_release(old(self)@, id as int, consumer as int));
                emit
            } else {
                assert(self@ =~= after_release(old(self)@, id as int, consumer as int));
                cancel_request
            }
        }
    }

    /// The routing keys of the subscriptions, each once, in no particular
    /// order.
    pub fn ids(&self) -> (r: Vec<i32>)
        requires
            self.wf(),
        ensures
            r@.no_duplicates(),
            forall|id: i32| r@.contains(id) <==> self@.dom().contains(id as int),
    {
        let mut r: Vec<i32> = Vec::new();
        let keys = self.entries.keys();
        let ghost all = keys.remaining();
        assert(all.unref().to_set() == self.entries@.dom());
        assert(all.no_duplicates());
        for k in it: keys
            invariant
                it.seq() == all,
                r@.len() == it.index(),
                forall|j: int| 0 <= j < r@.len() ==> r@[j] == *all[j],
        {
            r.push(*k);
        }
        proof {
            assert(r@ =~= all.unref());
            assert forall|id: i32| r@.contains(id) <==> self@.dom().contains(id as int) by {
                assert(r@.to_set().contains(id) <==> self.entries@.dom().contains(id));
            }
            assert(r@.no_duplicates()) by {
                assert forall|i: int, j: int|
                    0 <= i < r@.len() && 0 <= j < r@.len() && i != j implies r@[i] != r@[j] by {
                    assert(all[i] != all[j]);
                }
            }
        }
        r
    }

    /// The router has shut down: every active subscription fails as
    /// disconnected, and none waits for the server any more. Final
    /// subscriptions keep their state, and none is added or removed.
    pub fn shutdown(&mut self)
        requires
            old(self).wf(),
        ensures
            final(self).wf(),
            final(self)@ == after_event(old(self)@, RegistryEvent::Shutdown),
    {
        let keys = self.ids();
        let ghost before = self.entries@;
        let mut done: usize = 0;
        while done < keys.len()
            invariant
                self.wf(),
                done <= keys.len(),
                keys@.no_duplicates(),
                forall|id: i32| keys@.contains(id) <==> before.contains_key(id),
                self.entries@.dom() == before.dom(),
                forall|j: int|
                    0 <= j < done ==> (#[trigger] self.entries@[keys@[j]])@ == before[keys@[j]]@.disconnected(),
                forall|j: int|
                    done <= j < keys.len() ==> #[trigger] self.entries@[keys@[j]] == before[keys@[j]],
            decreases keys.len() - done,
        {
            let key = keys[done];
            assert(keys@.contains(key));
            let ghost held = self.entries@;
            let entry = self.take(key);
            let state = if entry.state.is_terminal() {
                entry.state
            } else {
                SubscriptionState::Disconnected
            };
            self.put(entry.with_state(state, true));
            proof {
                assert(self.entries@.dom() =~= before.dom());
                assert forall|j: int| 0 <= j < keys.len() && j != done implies self.entries@[keys@[j]]
                    == held[keys@[j]] by {
                    assert(keys@[j] != keys@[done as int]);
                }
            }
            done += 1;
        }
        proof {
            assert forall|id: int| old(self)@.dom().contains(id) implies self@[id] == old(
                self,
            )@[id].disconnected() by {
                let k = id as i32;
                assert(keys@.contains(k));
                let j = choose|j: int| 0 <= j < keys@.len() && keys@[j] == k;
                assert(self.entries@[keys@[j]]@ == before[keys@[j]]@.disconnected());
            }
            assert(self@ =~= old(self)@.map_values(|s: SubscriptionView| s.disconnected()));
        }
    }

    /// Gives a consumer of a key its next item: the oldest frame that waits
    /// for it; or, where none waits, the end that the state tells.
    pub fn next(&mut self, id: i32, consumer: usize) -> (r: Next)
        requires
            old(self).wf(),
        ensures
            final(self).wf(),
            final(self)@ == after_next(old(self)@, id as int, consumer as int),
            match r {
                Next::Frame(frame) => {
                    &&& holds(old(self)@, id as int, consumer as int)
                    &&& old(self)@[id as int].channels[consumer as int].frames.len() > 0
                    &&& frame@ == old(self)@[id as int].channels[consumer as int].frames[0]
                },
                Next::Unknown => !holds(old(self)@, id as int, consumer as int),
                other => {
                    &&& holds(old(self)@, id as int, consumer as int)
                    &&& old(self)@[id as int].channels[consumer as int].frames.len() == 0
                    &&& match old(self)@[id as int].state {
                        SubscriptionState::Active => other == Next::Pending,
                        SubscriptionState::Ended => other == Next::Ended,
                        SubscriptionState::Cancelled => other == Next::Cancelled,
                        SubscriptionState::Overrun => other matches Next::Failed(e) && e@
                            == ErrorView::Overrun,
                        SubscriptionState::Disconnected => other matches Next::Failed(e) && e@
                            == ErrorView::ConnectionClosed,
                    }
                },
            },
    {
        let waiting = match self.lookup(id) {
            None => {
                return Next::Unknown;
            },
            Some(entry) => {
                if !entry.is_attached(consumer) {
                    return Next::Unknown;
                }
                if entry.channels[consumer].frames.len() == 0 {
                    assert(views_of(entry.channels[consumer as int].frames@).len() == 0);
                    return match entry.state {
                        SubscriptionState::Active => Next::Pending,
                        SubscriptionState::Ended => Next::Ended,
                        SubscriptionState::Cancelled => Next::Cancelled,
                        SubscriptionState::Overrun => Next::Failed(Error::Overrun),
                        SubscriptionState::Disconnected => Next::Failed(Error::ConnectionClosed),
                    };
                }
                assert(views_of(entry.channels[consumer as int].frames@).len() > 0);
                true
            },
        };
        let entry = self.take(id);
        let (entry, frame) = entry.take_frame(consumer);
        self.put(entry);
        assert(self@ =~= after_next(old(self)@, id as int, consumer as int));
        Next::Frame(frame)
    }
}

/// Whether a key can be given to a new subscription: it has none, or one
/// that is final and whose end the server has acknowledged.
pub open spec fn key_is_free(subscriptions: Map<int, SubscriptionView>, id: int) -> bool {
    subscriptions.dom().contains(id) ==> subscriptions[id].reusable()
}

/// Whether `consumer` holds the subscription of `id`.
pub open spec fn holds(subscriptions: Map<int, SubscriptionView>, id: int, consumer: int) -> bool {
    subscriptions.dom().contains(id) && subscriptions[id].attached(consumer)
}

/// What the router is told of a frame for `id`.
pub open spec fn dispatch_result(
    subscriptions: Map<int, SubscriptionView>,
    id: int,
    end_of_stream: bool,
) -> Dispatch {
    if !subscriptions.dom().contains(id) {
        Dispatch::Unsolicited
    } else if subscriptions[id].state.terminal() {
        if end_of_stream && !subscriptions[id].acknowledged {
            Dispatch::Acknowledged
        } else {
            Dispatch::Unsolicited
        }
    } else if end_of_stream {
        Dispatch::Ended
    } else if subscriptions[id].full() {
        Dispatch::Full
    } else {
        Dispatch::Delivered
    }
}

/// The subscriptions after the server has acknowledged the end of the final
/// subscription of `id`: the key is free again, and a subscription that no
/// consumer holds any more is gone.
pub open spec fn after_acknowledge(subscriptions: Map<int, SubscriptionView>, id: int) -> Map<
    int,
    SubscriptionView,
> {
    if subscriptions.dom().contains(id) && subscriptions[id].state.terminal() {
        if subscriptions[id].has_consumer() {
            subscriptions.insert(
                id,
                SubscriptionView { acknowledged: true, ..subscriptions[id] },
            )
        } else {
            subscriptions.remove(id)
        }
    } else {
        subscriptions
    }
}

/// The subscriptions after a frame for `id` was handed in.
pub open spec fn after_dispatch(
    subscriptions: Map<int, SubscriptionView>,
    id: int,
    frame: MessageView,
    end_of_stream: bool,
) -> Map<int, SubscriptionView> {
    match dispatch_result(subscriptions, id, end_of_stream) {
        Dispatch::Unsolicited => subscriptions,
        Dispatch::Full => subscriptions,
        Dispatch::Acknowledged => after_acknowledge(subscriptions, id),
        Dispatch::Ended => subscriptions.insert(id, subscriptions[id].ended()),
        Dispatch::Delivered => subscriptions.insert(id, subscriptions[id].delivered(frame)),
    }
}

/// The subscriptions after a consumer of `id` did not drain its channel in
/// time.
pub open spec fn after_overrun(subscriptions: Map<int, SubscriptionView>, id: int) -> Map<
    int,
    SubscriptionView,
> {
    if subscriptions.dom().contains(id) {
        subscriptions.insert(id, subscriptions[id].overrun())
    } else {
        subscriptions
    }
}

/// The subscriptions after the one of `id` was cancelled.
pub open spec fn after_cancel(subscriptions: Map<int, SubscriptionView>, id: int) -> Map<
    int,
    SubscriptionView,
> {
    if subscriptions.dom().contains(id) {
        subscriptions.insert(id, subscriptions[id].cancelled())
    } else {
        subscriptions
    }
}

/// The cancel frame that a cancel of `id` asks to send.
pub open spec fn cancel_frame(subscriptions: Map<int, SubscriptionView>, id: int) -> Option<
    Seq<Seq<char>>,
> {
    if subscriptions.dom().contains(id) {
        subscriptions[id].cancel_now()
    } else {
        None
    }
}

/// Whether a consumer can join the subscription of `id`: it is active.
pub open spec fn can_attach(subscriptions: Map<int, SubscriptionView>, id: int) -> bool {
    subscriptions.dom().contains(id) && subscriptions[id].state is Active
}

/// The subscriptions after a consumer asked to join the one of `id`.
pub open spec fn after_attach(subscriptions: Map<int, SubscriptionView>, id: int) -> Map<
    int,
    SubscriptionView,
> {
    if can_attach(subscriptions, id) {
        subscriptions.insert(id, subscriptions[id].joined())
    } else {
        subscriptions
    }
}

/// The cancel frame that is to be sent when `consumer` lets go of the
/// subscription of `id`: the registered one where it is the last consumer
/// of an active subscription.
pub open spec fn release_frame(
    subscriptions: Map<int, SubscriptionView>,
    id: int,
    consumer: int,
) -> Option<Seq<Seq<char>>> {
    if holds(subscriptions, id, consumer) && !subscriptions[id].released(consumer).has_consumer() {
        subscriptions[id].cancel_now()
    } else {
        None
    }
}

/// The subscriptions after `consumer` let go of the one of `id`. While
/// another consumer holds it, only the channel is closed. After the last
/// consumer the subscription is cancelled if it was active, and gone unless
/// it waits for the server to acknowledge its end.
pub open spec fn after_release(
    subscriptions: Map<int, SubscriptionView>,
    id: int,
    consumer: int,
) -> Map<int, SubscriptionView> {
    if holds(subscriptions, id, consumer) {
        let left = subscriptions[id].released(consumer);
        if left.has_consumer() {
            subscriptions.insert(id, left)
        } else if left.cancelled().acknowledged {
            subscriptions.remove(id)
        } else {
            subscriptions.insert(id, left.cancelled())
        }
    } else {
        subscriptions
    }
}

/// The subscriptions after `consumer` of `id` took its next item.
pub open spec fn after_next(
    subscriptions: Map<int, SubscriptionView>,
    id: int,
    consumer: int,
) -> Map<int, SubscriptionView> {
    if holds(subscriptions, id, consumer) && subscriptions[id].channels[consumer].frames.len()
        > 0 {
        subscriptions.insert(id, subscriptions[id].taken(consumer))
    } else {
        subscriptions
    }
}

/// One step of a registry.
pub enum RegistryEvent {
    /// A frame for a key comes in; the flag tells whether it closes the stream.
    Frame(int, MessageView, bool),
    /// A consumer of a key did not drain its channel in time.
    Overrun(int),
    /// The consumer of a key cancels.
    Cancel(int),
    /// A consumer of a key takes its next item.
    Next(int, int),
    /// A consumer joins the subscription of a key.
    Attach(int),
    /// A consumer lets go of the subscription of a key.
    Release(int, int),
    /// The grace period for the last frame of the server is over.
    Acknowledge(int),
    /// The router shuts down.
    Shutdown,
}

/// The subscriptions after one step that registers none.
pub open spec fn after_event(
    subscriptions: Map<int, SubscriptionView>,
    event: RegistryEvent,
) -> Map<int, SubscriptionView> {
    match event {
        RegistryEvent::Frame(id, frame, end) => after_dispatch(subscriptions, id, frame, end),
        RegistryEvent::Overrun(id) => after_overrun(subscriptions, id),
        RegistryEvent::Cancel(id) => after_cancel(subscriptions, id),
        RegistryEvent::Next(id, consumer) => after_next(subscriptions, id, consumer),
        RegistryEvent::Attach(id) => after_attach(subscriptions, id),
        RegistryEvent::Release(id, consumer) => after_release(subscriptions, id, consumer),
        RegistryEvent::Acknowledge(id) => after_acknowledge(subscriptions, id),
        RegistryEvent::Shutdown => subscriptions.map_values(
            |s: SubscriptionView| s.disconnected(),
        ),
    }
}

/// A final state is never left: whatever happens to a registry, a
/// subscription that has ended, was cancelled or has failed stays in the
/// state it is in for as long as the registry holds it.
pub proof fn lemma_final_states_stay(
    subscriptions: Map<int, SubscriptionView>,
    event: RegistryEvent,
    id: int,
)
    requires
        subscriptions.dom().contains(id),
        subscriptions[id].state.terminal(),
    ensures
        after_event(subscriptions, event).dom().contains(id) ==> after_event(
            subscriptions,
            event,
        )[id].state == subscriptions[id].state,
{
}

/// After the router has shut down no subscription is active, and none
/// becomes active again by anything that happens to it.
pub proof fn lemma_shutdown_is_final(
    subscriptions: Map<int, SubscriptionView>,
    event: RegistryEvent,
    id: int,
)
    requires
        subscriptions.dom().contains(id),
    ensures
        after_event(subscriptions, RegistryEvent::Shutdown)[id].state.terminal(),
        after_event(after_event(subscriptions, RegistryEvent::Shutdown), event).dom().contains(id)
            ==> after_event(
            after_event(subscriptions, RegistryEvent::Shutdown),
            event,
        )[id].state.terminal(),
{
    let down = after_event(subscriptions, RegistryEvent::Shutdown);
    assert(down.dom().contains(id));
    lemma_final_states_stay(down, event, id);
}

/// A second cancel changes nothing and asks for no second cancel frame.
pub proof fn lemma_cancel_is_idempotent(subscriptions: Map<int, SubscriptionView>, id: int)
    ensures
        after_cancel(after_cancel(subscriptions, id), id) == after_cancel(subscriptions, id),
        cancel_frame(after_cancel(subscriptions, id), id) is None,
{
    let once = after_cancel(subscriptions, id);
    assert(after_cancel(once, id) =~= once);
}

/// A key is not given away while the server may still send frames for it:
/// after a cancel of a subscription whose end the server answers, the key
/// is taken until the end has come or the grace period is over.
pub proof fn lemma_key_is_held_until_acknowledged(
    subscriptions: Map<int, SubscriptionView>,
    id: int,
    frame: MessageView,
)
    requires
        subscriptions.dom().contains(id),
        subscriptions[id].state is Active,
        subscriptions[id].expects_terminal,
    ensures
        !key_is_free(after_cancel(subscriptions, id), id),
        !key_is_free(after_dispatch(after_cancel(subscriptions, id), id, frame, false), id),
        key_is_free(after_dispatch(after_cancel(subscriptions, id), id, frame, true), id),
        key_is_free(after_acknowledge(after_cancel(subscriptions, id), id), id),
{
}

/// Every consumer that holds a subscription gets every frame that is
/// delivered to it, in the order of delivery: a delivered frame waits in
/// the channel of each consumer behind all that waited there, and what one
/// consumer takes is not taken from another.
pub proof fn lemma_every_consumer_gets_every_frame(
    subscriptions: Map<int, SubscriptionView>,
    id: int,
    frame: MessageView,
    consumer: int,
    other: int,
)
    requires
        holds(subscriptions, id, consumer),
        holds(subscriptions, id, other),
        other != consumer,
    ensures
        dispatch_result(subscriptions, id, false) == Dispatch::Delivered ==> {
            let after = after_dispatch(subscriptions, id, frame, false);
            &&& holds(after, id, consumer)
            &&& after[id].channels[consumer].frames == subscriptions[id].channels[consumer].frames.push(
                frame,
            )
            &&& after[id].channels[other].frames == subscriptions[id].channels[other].frames.push(
                frame,
            )
        },
        ({
            let after = after_next(subscriptions, id, consumer);
            &&& holds(after, id, other)
            &&& after[id].channels[other].frames == subscriptions[id].channels[other].frames
        }),
        ({
            let after = after_release(subscriptions, id, consumer);
            &&& holds(after, id, other)
            &&& after[id].channels[other].frames == subscriptions[id].channels[other].frames
        }),
{
    let left = subscriptions[id].released(consumer);
    assert(left.attached(other));
}

/// A consumer that joins starts with an empty channel: it gets the frames
/// that are delivered after it joined, and only those.
pub proof fn lemma_a_new_consumer_starts_empty(subscriptions: Map<int, SubscriptionView>, id: int)
    requires
        can_attach(subscriptions, id),
    ensures
        ({
            let c = subscriptions[id].channels.len() as int;
            let after = after_attach(subscriptions, id);
            &&& holds(after, id, c)
            &&& after[id].channels[c].frames.len() == 0
            &&& forall|k: int|
                0 <= k < c ==> #[trigger] after[id].channels[k] == subscriptions[id].channels[k]
        }),
{
}

} // verus!
