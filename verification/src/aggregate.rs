//! Event-sourced aggregates: a projected state built from a series of
//! events, with a version counter that advances by one per applied event,
//! and an identified entity wrapping a hydrated aggregate.

use vstd::prelude::*;

verus! {

/// A projected state built from a series of events.
pub trait Aggregate: Default + Sized {
    /// A static string naming the type of the aggregate.
    fn aggregate_type() -> &'static str;

    /// Consumes the event, applying its effects to the aggregate.
    fn apply<E: AggregateEvent<Self>>(&mut self, event: E)
        requires
            event.enabled(*old(self)),
        ensures
            *final(self) == event.step(*old(self)),
    {
        event.apply_to(self);
    }
}

/// An identifier for an aggregate.
pub trait AggregateId<A> {
    /// The identifier as a character sequence.
    spec fn spec_str(&self) -> Seq<char>;

    /// The stringified aggregate identifier.
    fn as_str(&self) -> (r: &str)
        ensures
            r@ == self.spec_str(),
    ;
}

/// A thing that happened.
pub trait Event {
    /// A static description of the event.
    fn event_type(&self) -> &'static str;
}

/// An event that can be applied to an aggregate.
///
/// `step` is the event's meaning: the state it leaves behind; `enabled` says
/// on which states it may be applied at all.
pub trait AggregateEvent<A>: Event {
    /// On which states the event may be applied.
    spec fn enabled(&self, pre: A) -> bool;

    /// The state the event leaves behind.
    spec fn step(&self, pre: A) -> A;

    /// Consumes the event, applying its effects to the aggregate.
    fn apply_to(self, aggregate: &mut A)
        requires
            self.enabled(*old(aggregate)),
        ensures
            *final(aggregate) == self.step(*old(aggregate)),
    ;
}

/// An event sequence number, starting at 1.
#[derive(Debug, Clone, Copy, Hash, PartialEq, Eq, PartialOrd, Ord, Structural)]
pub struct EventNumber(pub u64);

impl EventNumber {
    /// An event number is never zero.
    pub open spec fn wf(&self) -> bool {
        self.0 >= 1
    }

    /// Increments the event number to the next value.
    pub fn incr(&mut self)
        requires
            old(self).0 < u64::MAX,
        ensures
            final(self).0 == old(self).0 + 1,
    {
        self.0 = self.0 + 1;
    }
}

/// An aggregate version: either nothing applied yet, or the number of the
/// last applied event.
#[derive(Debug, Clone, Copy, Hash, PartialEq, Eq, PartialOrd, Ord, Structural)]
pub enum Version {
    /// The version of an aggregate that has not had any events applied.
    Initial,
    /// The version of the last event applied to the aggregate.
    Number(EventNumber),
}

/// The version as a plain count of applied events.
pub open spec fn version_count(v: Version) -> int {
    match v {
        Version::Initial => 0,
        Version::Number(n) => n.0 as int,
    }
}

impl Default for Version {
    /// The version of a fresh aggregate.
    fn default() -> (v: Self)
        ensures
            v == Version::Initial,
    {
        Version::Initial
    }
}

impl Version {
    /// A version is either initial or carries a well-formed event number.
    pub open spec fn wf(&self) -> bool {
        match self {
            Version::Initial => true,
            Version::Number(n) => n.wf(),
        }
    }

    /// The version counting `number` applied events: zero means initial.
    pub fn new(number: u64) -> (v: Self)
        ensures
            v.wf(),
            version_count(v) == number,
    {
        if number == 0 {
            Version::Initial
        } else {
            Version::Number(EventNumber(number))
        }
    }

    /// Advances the version by one applied event.
    pub fn incr(&mut self)
        requires
            old(self).wf(),
            version_count(*old(self)) < u64::MAX,
        ensures
            final(self).wf(),
            version_count(*final(self)) == version_count(*old(self)) + 1,
    {
        match *self {
            Version::Initial => {
                *self = Version::Number(EventNumber(1));
            },
            Version::Number(n) => {
                let mut m = n;
                m.incr();
                *self = Version::Number(m);
            },
        }
    }
}

/// Which states a whole series of events can be applied through, one after
/// the other.
pub open spec fn events_enabled<A, E: AggregateEvent<A>>(state: A, events: Seq<E>) -> bool
    decreases events.len(),
{
    events.len() == 0 || (events[0].enabled(state) && events_enabled(
        events[0].step(state),
        events.drop_first(),
    ))
}

/// The state a whole series of events leaves behind.
pub open spec fn apply_all<A, E: AggregateEvent<A>>(state: A, events: Seq<E>) -> A
    decreases events.len(),
{
    if events.len() == 0 {
        state
    } else {
        apply_all(events[0].step(state), events.drop_first())
    }
}

/// An aggregate together with the version it has been hydrated to.
#[derive(Debug)]
pub struct HydratedAggregate<A> {
    version: Version,
    snapshot_version: Option<Version>,
    state: A,
}

impl<A: Default> Default for HydratedAggregate<A> {
    /// A fresh aggregate: initial version, no snapshot, default state.
    fn default() -> (r: Self)
        ensures
            r.spec_version() == Version::Initial,
            r.spec_snapshot_version() is None,
            A::default.ensures((), r.spec_state()),
    {
        HydratedAggregate { version: Version::Initial, snapshot_version: None, state: A::default() }
    }
}

impl<A> HydratedAggregate<A> {
    /// The current version.
    pub closed spec fn spec_version(&self) -> Version {
        self.version
    }

    /// The version of the snapshot the aggregate was loaded from, if any.
    pub closed spec fn spec_snapshot_version(&self) -> Option<Version> {
        self.snapshot_version
    }

    /// The projected state.
    pub closed spec fn spec_state(&self) -> A {
        self.state
    }

    /// The version is well-formed.
    pub open spec fn wf(&self) -> bool {
        self.spec_version().wf()
    }

    /// The current version of the aggregate.
    pub fn version(&self) -> (v: Version)
        ensures
            v == self.spec_version(),
    {
        self.version
    }

    /// The version of the snapshot from which the aggregate was loaded.
    pub fn snapshot_version(&self) -> (v: Option<Version>)
        ensures
            v == self.spec_snapshot_version(),
    {
        self.snapshot_version
    }

    /// Records that a snapshot was taken at the given version.
    pub fn set_snapshot_version(&mut self, new_snapshot_version: Version)
        ensures
            final(self).spec_snapshot_version() == Some(new_snapshot_version),
            final(self).spec_version() == old(self).spec_version(),
            final(self).spec_state() == old(self).spec_state(),
    {
        self.snapshot_version = Some(new_snapshot_version);
    }

    /// The actual aggregate.
    pub fn state(&self) -> (s: &A)
        ensures
            *s == self.spec_state(),
    {
        &self.state
    }

    /// Applies a series of events to the aggregate, advancing the version by
    /// one per event.
    pub fn apply_events<E: AggregateEvent<A>>(&mut self, events: Vec<E>) where A: Aggregate
        requires
            old(self).wf(),
            events_enabled(old(self).spec_state(), events@),
            version_count(old(self).spec_version()) + events@.len() <= u64::MAX,
        ensures
            final(self).wf(),
            final(self).spec_state() == apply_all(old(self).spec_state(), events@),
            version_count(final(self).spec_version()) == version_count(old(self).spec_version())
                + events@.len(),
            final(self).spec_snapshot_version() == old(self).spec_snapshot_version(),
    {
        let ghost all = events@;
        let mut events = events;
        let ghost done: int = 0;
        loop
            invariant
                self.wf(),
                0 <= done <= all.len(),
                events@ == all.skip(done),
                self.spec_state() == apply_all(old(self).spec_state(), all.take(done)),
                events_enabled(self.spec_state(), events@),
                version_count(self.spec_version()) == version_count(old(self).spec_version())
                    + done,
                version_count(old(self).spec_version()) + all.len() <= u64::MAX,
                self.spec_snapshot_version() == old(self).spec_snapshot_version(),
            ensures
                events@.len() == 0,
                self.spec_state() == apply_all(old(self).spec_state(), all.take(done)),
                done == all.len(),
                version_count(self.spec_version()) == version_count(old(self).spec_version())
                    + done,
                self.spec_snapshot_version() == old(self).spec_snapshot_version(),
                self.wf(),
            decreases events@.len(),
        {
            if events.len() == 0 {
                break ;
            }
            proof {
                lemma_apply_all_snoc(old(self).spec_state(), all, done);
            }
            let event = events.remove(0);
            self.apply(event);
            proof {
                done = done + 1;
            }
        }
        proof {
            assert(all.take(all.len() as int) =~= all);
        }
    }

    /// Applies a single event, advancing the version by one.
    pub fn apply<E: AggregateEvent<A>>(&mut self, event: E) where A: Aggregate
        requires
            old(self).wf(),
            event.enabled(old(self).spec_state()),
            version_count(old(self).spec_version()) < u64::MAX,
        ensures
            final(self).wf(),
            final(self).spec_state() == event.step(old(self).spec_state()),
            version_count(final(self).spec_version()) == version_count(old(self).spec_version())
                + 1,
            final(self).spec_snapshot_version() == old(self).spec_snapshot_version(),
    {
        self.state.apply(event);
        self.version.incr();
    }
}

/// Taking one more event out of a series chains one more step onto the state
/// it leaves behind.
proof fn lemma_apply_all_snoc<A, E: AggregateEvent<A>>(state: A, events: Seq<E>, done: int)
    requires
        0 <= done < events.len(),
        events_enabled(apply_all(state, events.take(done)), events.skip(done)),
    ensures
        apply_all(state, events.take(done + 1)) == events[done].step(
            apply_all(state, events.take(done)),
        ),
        events_enabled(
            events[done].step(apply_all(state, events.take(done))),
            events.skip(done + 1),
        ),
        events[done].enabled(apply_all(state, events.take(done))),
{
    assert(events.skip(done)[0] == events[done]);
    assert(events.skip(done).drop_first() =~= events.skip(done + 1));
    lemma_apply_all_step(state, events.take(done + 1));
    assert(events.take(done + 1).drop_last() =~= events.take(done));
    assert(events.take(done + 1).last() == events[done]);
}

/// The state left by a non-empty series is the last event's step after the
/// rest.
proof fn lemma_apply_all_step<A, E: AggregateEvent<A>>(state: A, events: Seq<E>)
    requires
        events.len() > 0,
    ensures
        apply_all(state, events) == events.last().step(apply_all(state, events.drop_last())),
    decreases events.len(),
{
    if events.len() == 1 {
        assert(events.drop_first() =~= Seq::<E>::empty());
        assert(events.drop_last() =~= Seq::<E>::empty());
        assert(apply_all(state, events) == apply_all(
            events[0].step(state),
            events.drop_first(),
        ));
        assert(apply_all(state, events) == events.last().step(
            apply_all(state, events.drop_last()),
        ));
    } else {
        let s1 = events[0].step(state);
        let df = events.drop_first();
        let dl = events.drop_last();
        lemma_apply_all_step(s1, df);
        assert(df.drop_last() =~= dl.drop_first());
        assert(df.last() == events.last());
        assert(dl[0] == events[0]);
        assert(apply_all(state, events) == apply_all(s1, df));
        assert(apply_all(state, dl) == apply_all(dl[0].step(state), dl.drop_first()));
        assert(apply_all(state, dl) == apply_all(s1, df.drop_last()));
        assert(apply_all(state, events) == events.last().step(
            apply_all(state, events.drop_last()),
        ));
    }
}

/// An identified, specific instance of a hydrated aggregate.
pub struct Entity<I, A> {
    id: I,
    aggregate: HydratedAggregate<A>,
}

impl<I, A> Entity<I, A> {
    /// The entity's identifier, for specification purposes.
    pub closed spec fn spec_id(&self) -> I {
        self.id
    }

    /// The wrapped aggregate, for specification purposes.
    pub closed spec fn spec_aggregate(&self) -> HydratedAggregate<A> {
        self.aggregate
    }

    /// An entity from an identifier and an associated hydrated aggregate.
    pub fn new(id: I, aggregate: HydratedAggregate<A>) -> (e: Self)
        ensures
            e.spec_id() == id,
            e.spec_aggregate() == aggregate,
    {
        Entity { id, aggregate }
    }

    /// The entity's identifier.
    pub fn id(&self) -> (r: &I)
        ensures
            *r == self.spec_id(),
    {
        &self.id
    }

    /// An immutable reference to the underlying aggregate.
    pub fn aggregate(&self) -> (r: &HydratedAggregate<A>)
        ensures
            *r == self.spec_aggregate(),
    {
        &self.aggregate
    }

    /// A mutable reference to the underlying aggregate.
    pub fn aggregate_mut(&mut self) -> (r: &mut HydratedAggregate<A>)
        ensures
            *r == old(self).spec_aggregate(),
            final(self).spec_aggregate() == *final(r),
            final(self).spec_id() == old(self).spec_id(),
    {
        &mut self.aggregate
    }
}

impl<I, A> Entity<I, A> where I: AggregateId<A>, A: Aggregate {
    /// The stringified identifier.
    pub fn identifier_str(&self) -> (r: &str)
        ensures
            r@ == self.spec_id().spec_str(),
    {
        self.id.as_str()
    }
}

/// A demonstration aggregate: a plain counter.
#[derive(Debug)]
pub struct MyAggregate {
    pub count: i64,
}

impl Default for MyAggregate {
    /// A counter at zero.
    fn default() -> (r: Self)
        ensures
            r.count == 0,
    {
        MyAggregate { count: 0 }
    }
}

impl Aggregate for MyAggregate {
    fn aggregate_type() -> &'static str {
        "MyAggregate"
    }
}

/// A demonstration event: the counter moves up or down.
#[derive(Debug)]
pub enum MyEvent {
    Increment(i64),
    Decrement(i64),
}

impl Event for MyEvent {
    fn event_type(&self) -> (r: &'static str)
        ensures
            self is Increment ==> r@ == "Increment"@,
            self is Decrement ==> r@ == "Decrement"@,
    {
        match *self {
            MyEvent::Increment(_) => "Increment",
            MyEvent::Decrement(_) => "Decrement",
        }
    }
}

impl AggregateEvent<MyAggregate> for MyEvent {
    open spec fn enabled(&self, pre: MyAggregate) -> bool {
        match *self {
            MyEvent::Increment(x) => i64::MIN <= pre.count + x <= i64::MAX,
            MyEvent::Decrement(x) => i64::MIN <= pre.count - x <= i64::MAX,
        }
    }

    open spec fn step(&self, pre: MyAggregate) -> MyAggregate {
        match *self {
            MyEvent::Increment(x) => MyAggregate { count: (pre.count + x) as i64 },
            MyEvent::Decrement(x) => MyAggregate { count: (pre.count - x) as i64 },
        }
    }

    fn apply_to(self, aggregate: &mut MyAggregate) {
        match self {
            MyEvent::Increment(x) => {
                aggregate.count = aggregate.count + x;
            },
            MyEvent::Decrement(x) => {
                aggregate.count = aggregate.count - x;
            },
        }
    }
}

/// A demonstration identifier type.
#[derive(Debug)]
pub struct MyAggregateId(pub String);

impl AggregateId<MyAggregate> for MyAggregateId {
    open spec fn spec_str(&self) -> Seq<char> {
        self.0@
    }

    fn as_str(&self) -> (r: &str) {
        self.0.as_str()
    }
}

} // verus!
