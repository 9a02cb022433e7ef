//! Refreshing projections: every stored event of an aggregate is handed again to every
//! projector, event by event, stopping at the first failure.
use vstd::arithmetic::div_mod::{lemma_fundamental_div_mod, lemma_fundamental_div_mod_converse};
use vstd::prelude::*;

verus! {

/// Why a refresh stopped.
#[derive(Debug, Clone, PartialEq, Eq)]
pub enum RefreshError {
    /// The aggregate id could not be parsed.
    InvalidId,
    /// The store holds no event for the aggregate.
    NoEventFound,
    /// The store could not list the events.
    Store(String),
    /// A projector failed on an event.
    Projection(String),
}

impl RefreshError {
    /// The error's message.
    pub open spec fn message(self) -> Seq<char> {
        match self {
            RefreshError::InvalidId => "Unable to parse aggregate id"@,
            RefreshError::NoEventFound => "No event found"@,
            RefreshError::Store(msg) => msg@,
            RefreshError::Projection(msg) => msg@,
        }
    }

    pub fn to_string(&self) -> (r: String)
        ensures
            r@ == self.message(),
    {
        match self {
            RefreshError::InvalidId => String::from_str("Unable to parse aggregate id"),
            RefreshError::NoEventFound => String::from_str("No event found"),
            RefreshError::Store(msg) => msg.clone(),
            RefreshError::Projection(msg) => msg.clone(),
        }
    }
}

/// A refresher: the store to read the events from, and the projectors to hand them to.
pub struct Refresher<S, P> {
    event_store: S,
    projectors: Vec<P>,
}

impl<S, P> Refresher<S, P> {
    pub closed spec fn store_of(self) -> S {
        self.event_store
    }

    pub closed spec fn projectors_of(self) -> Seq<P> {
        self.projectors@
    }

    pub fn new(event_store: S, projectors: Vec<P>) -> (r: Refresher<S, P>)
        ensures
            r.store_of() == event_store,
            r.projectors_of() == projectors@,
    {
        Refresher { event_store, projectors }
    }

    pub fn event_store(&self) -> (r: &S)
        ensures
            *r == self.store_of(),
    {
        &self.event_store
    }

    pub fn projectors(&self) -> (r: &Vec<P>)
        ensures
            r@ == self.projectors_of(),
    {
        &self.projectors
    }
}

/// What came of reading the events of an aggregate from the store.
#[derive(Debug, Clone, PartialEq, Eq)]
pub enum Listing {
    /// The aggregate id could not be parsed, so nothing was read.
    UnparsableId,
    /// The store could not list the events; the message says why.
    Failed(String),
    /// The store listed this many events.
    Found(usize),
}

/// What a refresh does next.
#[derive(Debug, Clone, Copy, PartialEq, Eq, Structural)]
pub enum RefreshStep {
    /// Hand the event at index `event` to the projector at index `projector`.
    Notify { event: usize, projector: usize },
    /// Every event was handed to every projector.
    Done,
}

/// The (event, projector) pair that follows `at` when there are `projectors` projectors.
pub open spec fn successor(projectors: int, at: (int, int)) -> (int, int) {
    if at.1 + 1 < projectors {
        (at.0, at.1 + 1)
    } else {
        (at.0 + 1, 0)
    }
}

/// The (event, projector) pair after `k` successful notifications.
pub open spec fn position_after(projectors: int, k: nat) -> (int, int)
    decreases k,
{
    if k == 0 {
        (0, 0)
    } else {
        successor(projectors, position_after(projectors, (k - 1) as nat))
    }
}

/// The step of a refresh of `events` events with `projectors` projectors, at `at`.
pub open spec fn step_at(events: int, projectors: int, at: (int, int)) -> RefreshStep {
    if projectors == 0 || at.0 >= events {
        RefreshStep::Done
    } else {
        RefreshStep::Notify { event: at.0 as usize, projector: at.1 as usize }
    }
}

/// A refresh in progress: how many events and projectors there are, and which pair is next.
pub struct Refresh {
    events: usize,
    projectors: usize,
    event: usize,
    projector: usize,
}

impl Refresh {
    #[verifier::type_invariant]
    spec fn consistent(self) -> bool {
        &&& self.event <= self.events
        &&& (self.projector < self.projectors || self.projector == 0)
        &&& (self.event == self.events ==> self.projector == 0)
    }

    pub closed spec fn event_count(self) -> int {
        self.events as int
    }

    pub closed spec fn projector_count(self) -> int {
        self.projectors as int
    }

    /// The next (event, projector) pair.
    pub closed spec fn at(self) -> (int, int) {
        (self.event as int, self.projector as int)
    }

    /// A refresh of `event_count` events with `projector_count` projectors; there must be
    /// at least one event.
    pub fn start(event_count: usize, projector_count: usize) -> (r: Result<Refresh, RefreshError>)
        ensures
            event_count == 0 ==> r == Err::<Refresh, RefreshError>(RefreshError::NoEventFound),
            event_count > 0 ==> (r matches Ok(s) && s.event_count() == event_count
                && s.projector_count() == projector_count && s.at() == (0int, 0int)),
    {
        if event_count == 0 {
            Err(RefreshError::NoEventFound)
        } else {
            Ok(Refresh { events: event_count, projectors: projector_count, event: 0, projector: 0 })
        }
    }

    /// The first step of a refresh with `projector_count` projectors, from what came of
    /// reading the aggregate's events: an id that does not parse, a store that fails and an
    /// aggregate with no event each stop it with their error; otherwise it starts at the
    /// first event and the first projector.
    pub fn begin(listing: Listing, projector_count: usize) -> (r: Result<Refresh, RefreshError>)
        ensures
            match listing {
                Listing::UnparsableId => r == Err::<Refresh, RefreshError>(RefreshError::InvalidId),
                Listing::Failed(msg) => r == Err::<Refresh, RefreshError>(RefreshError::Store(msg)),
                Listing::Found(n) => if n == 0 {
                    r == Err::<Refresh, RefreshError>(RefreshError::NoEventFound)
                } else {
                    r matches Ok(s) && s.event_count() == n && s.projector_count() == projector_count
                        && s.at() == (0int, 0int)
                },
            },
    {
        match listing {
            Listing::UnparsableId => Err(RefreshError::InvalidId),
            Listing::Failed(msg) => Err(RefreshError::Store(msg)),
            Listing::Found(n) => Refresh::start(n, projector_count),
        }
    }

    /// What to do next.
    pub fn next(&self) -> (r: RefreshStep)
        ensures
            r == step_at(self.event_count(), self.projector_count(), self.at()),
    {
        if self.projectors == 0 || self.event >= self.events {
            RefreshStep::Done
        } else {
            RefreshStep::Notify { event: self.event, projector: self.projector }
        }
    }

    /// Takes the outcome of the notification that `next` asked for.
    pub fn on_notified(self, outcome: Result<(), String>) -> (r: Result<Refresh, RefreshError>)
        requires
            step_at(self.event_count(), self.projector_count(), self.at()) is Notify,
        ensures
            match outcome {
                Err(msg) => r == Err::<Refresh, RefreshError>(RefreshError::Projection(msg)),
                Ok(()) => r matches Ok(s) && s.event_count() == self.event_count()
                    && s.projector_count() == self.projector_count()
                    && s.at() == successor(self.projector_count(), self.at()),
            },
    {
        proof {
            use_type_invariant(&self);
        }
        match outcome {
            Err(msg) => Err(RefreshError::Projection(msg)),
            Ok(()) => {
                if self.projector + 1 < self.projectors {
                    Ok(Refresh { projector: self.projector + 1, ..self })
                } else {
                    Ok(Refresh { event: self.event + 1, projector: 0, ..self })
                }
            },
        }
    }
}

/// After `k` successful notifications with `projectors` projectors, the next pair is
/// event `k / projectors` and projector `k % projectors`: events are handed over one
/// after the other, each to every projector in order.
pub proof fn lemma_position_after(projectors: int, k: nat)
    requires
        projectors > 0,
    ensures
        position_after(projectors, k) == ((k as int) / projectors, (k as int) % projectors),
    decreases k,
{
    if k == 0 {
        lemma_fundamental_div_mod_converse(0, projectors, 0, 0);
    } else {
        let j = (k - 1) as nat;
        lemma_position_after(projectors, j);
        let ji = j as int;
        let ki = k as int;
        lemma_fundamental_div_mod(ji, projectors);
        let q = ji / projectors;
        let r = ji % projectors;
        if r + 1 < projectors {
            lemma_fundamental_div_mod_converse(ki, projectors, q, r + 1);
        } else {
            assert(ki == (q + 1) * projectors + 0) by (nonlinear_arith)
                requires
                    ji == projectors * q + r,
                    r + 1 == projectors,
                    ki == ji + 1,
            ;
            lemma_fundamental_div_mod_converse(ki, projectors, q + 1, 0);
        }
    }
}

/// A refresh of `events` events with `projectors` projectors, where every notification
/// succeeds, notifies `events * projectors` times, in event-major order, and is then done.
pub proof fn lemma_refresh_order(events: int, projectors: int, k: nat)
    requires
        events > 0,
        projectors > 0,
        k <= events * projectors,
    ensures
        k < events * projectors ==> step_at(events, projectors, position_after(projectors, k))
            == (RefreshStep::Notify {
                event: ((k as int) / projectors) as usize,
                projector: ((k as int) % projectors) as usize,
            }),
        k == events * projectors ==> step_at(events, projectors, position_after(projectors, k))
            == RefreshStep::Done,
{
    let ki = k as int;
    lemma_position_after(projectors, k);
    lemma_fundamental_div_mod(ki, projectors);
    if ki < events * projectors {
        assert(ki / projectors < events) by (nonlinear_arith)
            requires
                ki == projectors * (ki / projectors) + ki % projectors,
                0 <= ki % projectors,
                ki < events * projectors,
                projectors > 0,
        ;
    } else {
        lemma_fundamental_div_mod_converse(ki, projectors, events, 0);
    }
}

} // verus!
