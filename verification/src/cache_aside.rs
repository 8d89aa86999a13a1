//! The cache-aside read-through algorithm as a state machine.
//!
//! One `get_or_set_with_expire` call is a short conversation between the
//! machine and its driver. The machine's phase names the one piece of
//! outside work that is pending: read the key, decode a payload, invoke the
//! loader, encode the loaded value, write the payload. The driver performs
//! it and reports the outcome as an [`Event`]; [`CacheAside::step`] answers
//! with the next phase, until the phase is [`Phase::Done`].
//!
//! ```text
//! ReadCache -- hit ----> Decode ----------------------------> Done
//!           -- miss ---> Load -----> Encode ----> Populate -> Done
//!           -- outage -> Load ------------------------------> Done
//!           -- defect ----------------------------------------> Done
//! ```

use vstd::prelude::*;

use crate::error::CacheError;

verus! {

/// A failed cache read: the kind of the failure, by which the machine
/// decides, and the caller's own error value, which it passes on.
#[derive(Clone, Debug, PartialEq, Eq)]
pub struct ReadFailure<E> {
    pub kind: CacheError,
    pub cause: E,
}

/// The outcome of the outside work that a phase asked for.
#[derive(Debug, PartialEq, Eq)]
pub enum Event<T, E> {
    /// The cache was read: the stored payload, `None` for an absent key, or
    /// the failure.
    CacheRead(Result<Option<String>, ReadFailure<E>>),
    /// The payload of a hit was decoded.
    Decoded(Result<T, E>),
    /// The loader ran.
    Loaded(Result<T, E>),
    /// The loaded value was encoded.
    Encoded(Result<String, E>),
    /// The encoded value was written to the cache.
    Populated(Result<(), E>),
}

/// What the machine waits for.
#[derive(Debug, PartialEq, Eq)]
pub enum Phase<T, E> {
    /// Read the key from the cache.
    ReadCache,
    /// Decode `payload`, the value that the cache holds for the key.
    Decode { payload: String },
    /// Log `warning` if there is one, then invoke the loader. `populate`
    /// tells whether the loaded value will be written to the cache.
    Load { populate: bool, warning: Option<E> },
    /// Encode `value` for the cache.
    Encode { value: T },
    /// Write `payload` under the key with the expiry, atomically.
    Populate { value: T, payload: String },
    /// Log `warning` if there is one, then return `result`.
    Done { result: Result<T, E>, warning: Option<E> },
}

/// The state of one `get_or_set_with_expire` call.
#[derive(Debug)]
pub struct CacheAside<T, E> {
    key: String,
    expire_seconds: usize,
    phase: Phase<T, E>,
}

/// The mathematical value of an [`Event`].
pub enum EventModel<T, E> {
    CacheRead(Result<Option<Seq<char>>, ReadFailure<E>>),
    Decoded(Result<T, E>),
    Loaded(Result<T, E>),
    Encoded(Result<Seq<char>, E>),
    Populated(Result<(), E>),
}

/// The mathematical value of a [`Phase`].
pub enum PhaseModel<T, E> {
    ReadCache,
    Decode { payload: Seq<char> },
    Load { populate: bool, warning: Option<E> },
    Encode { value: T },
    Populate { value: T, payload: Seq<char> },
    Done { result: Result<T, E>, warning: Option<E> },
}

/// The mathematical value of a [`CacheAside`].
pub struct CacheAsideModel<T, E> {
    pub key: Seq<char>,
    pub expire_seconds: nat,
    pub phase: PhaseModel<T, E>,
}

impl<T, E> View for Event<T, E> {
    type V = EventModel<T, E>;

    open spec fn view(&self) -> EventModel<T, E> {
        match *self {
            Event::CacheRead(Ok(Some(payload))) => EventModel::CacheRead(Ok(Some(payload@))),
            Event::CacheRead(Ok(None)) => EventModel::CacheRead(Ok(None)),
            Event::CacheRead(Err(failure)) => EventModel::CacheRead(Err(failure)),
            Event::Decoded(decoded) => EventModel::Decoded(decoded),
            Event::Loaded(loaded) => EventModel::Loaded(loaded),
            Event::Encoded(Ok(payload)) => EventModel::Encoded(Ok(payload@)),
            Event::Encoded(Err(cause)) => EventModel::Encoded(Err(cause)),
            Event::Populated(written) => EventModel::Populated(written),
        }
    }
}

impl<T, E> View for Phase<T, E> {
    type V = PhaseModel<T, E>;

    open spec fn view(&self) -> PhaseModel<T, E> {
        match *self {
            Phase::ReadCache => PhaseModel::ReadCache,
            Phase::Decode { payload } => PhaseModel::Decode { payload: payload@ },
            Phase::Load { populate, warning } => PhaseModel::Load { populate, warning },
            Phase::Encode { value } => PhaseModel::Encode { value },
            Phase::Populate { value, payload } => PhaseModel::Populate { value, payload: payload@ },
            Phase::Done { result, warning } => PhaseModel::Done { result, warning },
        }
    }
}

impl<T, E> View for CacheAside<T, E> {
    type V = CacheAsideModel<T, E>;

    closed spec fn view(&self) -> CacheAsideModel<T, E> {
        CacheAsideModel {
            key: self.key@,
            expire_seconds: self.expire_seconds as nat,
            phase: self.phase@,
        }
    }
}

impl<T, E> PhaseModel<T, E> {
    /// The phase that follows `self` once `event` is reported.
    ///
    /// A hit is decoded and the decoder's outcome is the result. A miss
    /// invokes the loader; its value is encoded and written, and returned
    /// whether or not the write succeeds, the write's failure becoming a
    /// warning. A failed read invokes the loader without populating the
    /// cache, unless the failure is a defect, which ends the call. A failure
    /// of the decoder, of the loader or of the encoder ends the call with
    /// that failure. An event that the phase does not wait for changes
    /// nothing.
    pub open spec fn next(self, event: EventModel<T, E>) -> PhaseModel<T, E> {
        match (self, event) {
            (PhaseModel::ReadCache, EventModel::CacheRead(Ok(Some(payload)))) => PhaseModel::Decode {
                payload,
            },
            (PhaseModel::ReadCache, EventModel::CacheRead(Ok(None))) => PhaseModel::Load {
                populate: true,
                warning: None,
            },
            (PhaseModel::ReadCache, EventModel::CacheRead(Err(failure))) => {
                if failure.kind.spec_is_defect() {
                    PhaseModel::Done { result: Err(failure.cause), warning: None }
                } else {
                    PhaseModel::Load { populate: false, warning: Some(failure.cause) }
                }
            },
            (PhaseModel::Decode { .. }, EventModel::Decoded(decoded)) => PhaseModel::Done {
                result: decoded,
                warning: None,
            },
            (PhaseModel::Load { populate, .. }, EventModel::Loaded(Ok(value))) => {
                if populate {
                    PhaseModel::Encode { value }
                } else {
                    PhaseModel::Done { result: Ok(value), warning: None }
                }
            },
            (PhaseModel::Load { .. }, EventModel::Loaded(Err(cause))) => PhaseModel::Done {
                result: Err(cause),
                warning: None,
            },
            (PhaseModel::Encode { value }, EventModel::Encoded(Ok(payload))) => PhaseModel::Populate {
                value,
                payload,
            },
            (PhaseModel::Encode { .. }, EventModel::Encoded(Err(cause))) => PhaseModel::Done {
                result: Err(cause),
                warning: None,
            },
            (PhaseModel::Populate { value, .. }, EventModel::Populated(Ok(_))) => PhaseModel::Done {
                result: Ok(value),
                warning: None,
            },
            (PhaseModel::Populate { value, .. }, EventModel::Populated(Err(cause))) => PhaseModel::Done {
                result: Ok(value),
                warning: Some(cause),
            },
            (phase, _) => phase,
        }
    }

    /// The phase reached from `self` when `events` are reported in order.
    pub open spec fn run(self, events: Seq<EventModel<T, E>>) -> PhaseModel<T, E>
        decreases events.len(),
    {
        if events.len() == 0 {
            self
        } else {
            self.next(events.first()).run(events.drop_first())
        }
    }

    /// How many times the loader is asked for while `events` are reported in
    /// order: the number of steps that enter the phase `Load`.
    pub open spec fn loader_invocations(self, events: Seq<EventModel<T, E>>) -> nat
        decreases events.len(),
    {
        if events.len() == 0 {
            0
        } else {
            let entered: nat = if self.next(events.first()) is Load && !(self is Load) {
                1
            } else {
                0
            };
            entered + self.next(events.first()).loader_invocations(events.drop_first())
        }
    }

    /// Whether `event` is the outcome of the work that `self` asks for.
    pub open spec fn awaits(self, event: EventModel<T, E>) -> bool {
        match (self, event) {
            (PhaseModel::ReadCache, EventModel::CacheRead(_)) => true,
            (PhaseModel::Decode { .. }, EventModel::Decoded(_)) => true,
            (PhaseModel::Load { .. }, EventModel::Loaded(_)) => true,
            (PhaseModel::Encode { .. }, EventModel::Encoded(_)) => true,
            (PhaseModel::Populate { .. }, EventModel::Populated(_)) => true,
            _ => false,
        }
    }

    /// An upper bound on the pieces of outside work that are still to do.
    pub open spec fn work_left(self) -> nat {
        match self {
            PhaseModel::ReadCache => 4,
            PhaseModel::Load { .. } => 3,
            PhaseModel::Encode { .. } => 2,
            PhaseModel::Decode { .. } => 1,
            PhaseModel::Populate { .. } => 1,
            PhaseModel::Done { .. } => 0,
        }
    }

    /// The result of the call, once there is one.
    pub open spec fn outcome(self) -> Option<Result<T, E>> {
        match self {
            PhaseModel::Done { result, .. } => Some(result),
            _ => None,
        }
    }
}

impl<T, E> CacheAsideModel<T, E> {
    /// The state that follows `self` once `event` is reported: the key and
    /// the expiry stay, the phase moves on.
    pub open spec fn step(self, event: EventModel<T, E>) -> CacheAsideModel<T, E> {
        CacheAsideModel {
            key: self.key,
            expire_seconds: self.expire_seconds,
            phase: self.phase.next(event),
        }
    }
}

impl<T, E> CacheAside<T, E> {
    /// Begins a call for `key`; a value that the call loads is cached for
    /// `expire_seconds`.
    pub fn start(key: String, expire_seconds: usize) -> (machine: Self)
        ensures
            machine@ == (CacheAsideModel::<T, E> {
                key: key@,
                expire_seconds: expire_seconds as nat,
                phase: PhaseModel::ReadCache,
            }),
    {
        CacheAside { key, expire_seconds, phase: Phase::ReadCache }
    }

    /// Takes the outcome of the pending work and moves to the next phase.
    pub fn step(self, event: Event<T, E>) -> (machine: Self)
        ensures
            machine@ == self@.step(event@),
    {
        let CacheAside { key, expire_seconds, phase } = self;
        let phase = match phase {
            Phase::ReadCache => match event {
                Event::CacheRead(Ok(Some(payload))) => Phase::Decode { payload },
                Event::CacheRead(Ok(None)) => Phase::Load { populate: true, warning: None },
                Event::CacheRead(Err(failure)) => {
                    if failure.kind.is_defect() {
                        Phase::Done { result: Err(failure.cause), warning: None }
                    } else {
                        Phase::Load { populate: false, warning: Some(failure.cause) }
                    }
                },
                _ => Phase::ReadCache,
            },
            Phase::Decode { payload } => match event {
                Event::Decoded(decoded) => Phase::Done { result: decoded, warning: None },
                _ => Phase::Decode { payload },
            },
            Phase::Load { populate, warning } => match event {
                Event::Loaded(Ok(value)) => {
                    if populate {
                        Phase::Encode { value }
                    } else {
                        Phase::Done { result: Ok(value), warning: None }
                    }
                },
                Event::Loaded(Err(cause)) => Phase::Done { result: Err(cause), warning: None },
                _ => Phase::Load { populate, warning },
            },
            Phase::Encode { value } => match event {
                Event::Encoded(Ok(payload)) => Phase::Populate { value, payload },
                Event::Encoded(Err(cause)) => Phase::Done { result: Err(cause), warning: None },
                _ => Phase::Encode { value },
            },
            Phase::Populate { value, payload } => match event {
                Event::Populated(Ok(_)) => Phase::Done { result: Ok(value), warning: None },
                Event::Populated(Err(cause)) => Phase::Done { result: Ok(value), warning: Some(cause) },
                _ => Phase::Populate { value, payload },
            },
            Phase::Done { result, warning } => Phase::Done { result, warning },
        };
        CacheAside { key, expire_seconds, phase }
    }

    /// The pending work.
    pub fn phase(&self) -> (phase: &Phase<T, E>)
        ensures
            phase@ == self@.phase,
    {
        &self.phase
    }

    /// The key that the call reads and, after a miss, writes.
    pub fn key(&self) -> (key: &str)
        ensures
            key@ == self@.key,
    {
        self.key.as_str()
    }

    /// The expiry, in seconds, of a value that the call writes.
    pub fn expire_seconds(&self) -> (seconds: usize)
        ensures
            seconds == self@.expire_seconds,
    {
        self.expire_seconds
    }

    /// Whether the call has its result.
    pub fn is_done(&self) -> (done: bool)
        ensures
            done == (self@.phase is Done),
    {
        match &self.phase {
            Phase::Done { .. } => true,
            _ => false,
        }
    }

    /// Ends the call and hands out its phase, with the values that it holds.
    pub fn into_phase(self) -> (phase: Phase<T, E>)
        ensures
            phase@ == self@.phase,
    {
        self.phase
    }
}

/// From any phase but `ReadCache`, no sequence of events leads into `Load`.
proof fn lemma_no_invocation_after_read<T, E>(
    phase: PhaseModel<T, E>,
    events: Seq<EventModel<T, E>>,
)
    requires
        !(phase is ReadCache),
    ensures
        phase.loader_invocations(events) == 0,
    decreases events.len(),
{
    if events.len() > 0 {
        lemma_no_invocation_after_read(phase.next(events.first()), events.drop_first());
    }
}

/// Whatever is reported, and in whatever order, one call asks for the loader
/// at most once.
pub proof fn lemma_loader_invoked_at_most_once<T, E>(events: Seq<EventModel<T, E>>)
    ensures
        PhaseModel::<T, E>::ReadCache.loader_invocations(events) <= 1,
    decreases events.len(),
{
    if events.len() > 0 {
        let phase = PhaseModel::<T, E>::ReadCache.next(events.first());
        if phase is ReadCache {
            lemma_loader_invoked_at_most_once(events.drop_first());
        } else {
            lemma_no_invocation_after_read(phase, events.drop_first());
        }
    }
}

/// On a cache hit the loader is never asked for, whatever is reported after
/// the hit, and the decoder's outcome is the result of the call.
pub proof fn lemma_hit_skips_loader<T, E>(
    payload: Seq<char>,
    decoded: Result<T, E>,
    rest: Seq<EventModel<T, E>>,
)
    ensures
        PhaseModel::<T, E>::ReadCache.next(EventModel::CacheRead(Ok(Some(payload))))
            == (PhaseModel::<T, E>::Decode { payload }),
        PhaseModel::<T, E>::ReadCache.loader_invocations(
            seq![EventModel::CacheRead(Ok(Some(payload)))] + rest,
        ) == 0,
        PhaseModel::<T, E>::ReadCache.run(
            seq![EventModel::CacheRead(Ok(Some(payload))), EventModel::Decoded(decoded)],
        ).outcome() == Some(decoded),
{
    let hit = EventModel::<T, E>::CacheRead(Ok(Some(payload)));
    let start = PhaseModel::<T, E>::ReadCache;
    let all = seq![hit] + rest;
    assert(all.first() == hit);
    assert(all.drop_first() =~= rest);
    lemma_no_invocation_after_read(start.next(hit), rest);
    lemma_run_two(start, hit, EventModel::Decoded(decoded));
}

/// On a cache miss the loader is asked for exactly once, whatever is
/// reported after the miss. A failure of the loader is the result of the
/// call. A value that the loader returns, once encoded, is the result of the
/// call whether the write to the cache succeeds or fails.
pub proof fn lemma_miss_loads_once<T, E>(
    loaded: Result<T, E>,
    payload: Seq<char>,
    written: Result<(), E>,
    rest: Seq<EventModel<T, E>>,
)
    ensures
        PhaseModel::<T, E>::ReadCache.next(EventModel::CacheRead(Ok(None)))
            == (PhaseModel::<T, E>::Load { populate: true, warning: None }),
        PhaseModel::<T, E>::ReadCache.loader_invocations(seq![EventModel::CacheRead(Ok(None))] + rest)
            == 1,
        loaded is Err ==> PhaseModel::<T, E>::ReadCache.run(
            seq![EventModel::CacheRead(Ok(None)), EventModel::Loaded(loaded)],
        ).outcome() == Some(loaded),
        loaded is Ok ==> PhaseModel::<T, E>::ReadCache.run(
            seq![
                EventModel::CacheRead(Ok(None)),
                EventModel::Loaded(loaded),
                EventModel::Encoded(Ok(payload)),
                EventModel::Populated(written),
            ],
        ).outcome() == Some(loaded),
{
    let miss = EventModel::<T, E>::CacheRead(Ok(None));
    let start = PhaseModel::<T, E>::ReadCache;
    let all = seq![miss] + rest;
    assert(all.first() == miss);
    assert(all.drop_first() =~= rest);
    lemma_no_invocation_after_read(start.next(miss), rest);
    lemma_run_two(start, miss, EventModel::Loaded(loaded));
    let encode = start.next(miss).next(EventModel::Loaded(loaded));
    lemma_run_two(encode, EventModel::Encoded(Ok(payload)), EventModel::Populated(written));
    lemma_run_append(
        start,
        seq![miss, EventModel::Loaded(loaded)],
        seq![EventModel::Encoded(Ok(payload)), EventModel::Populated(written)],
    );
    assert(seq![miss, EventModel::Loaded(loaded)] + seq![
        EventModel::Encoded(Ok(payload)),
        EventModel::Populated(written),
    ] =~= seq![
        miss,
        EventModel::Loaded(loaded),
        EventModel::Encoded(Ok(payload)),
        EventModel::Populated(written),
    ]);
}

/// When the cache cannot be read for a reason that is no defect, as when
/// the pool cannot produce any connection, the loader is asked for exactly
/// once, the failure of the read becomes a warning, nothing is written to
/// the cache, and the loader's outcome is the result of the call.
pub proof fn lemma_outage_falls_back_to_loader<T, E>(
    failure: ReadFailure<E>,
    loaded: Result<T, E>,
    rest: Seq<EventModel<T, E>>,
)
    requires
        !failure.kind.spec_is_defect(),
    ensures
        PhaseModel::<T, E>::ReadCache.next(EventModel::CacheRead(Err(failure)))
            == (PhaseModel::<T, E>::Load { populate: false, warning: Some(failure.cause) }),
        PhaseModel::<T, E>::ReadCache.loader_invocations(
            seq![EventModel::CacheRead(Err(failure))] + rest,
        ) == 1,
        PhaseModel::<T, E>::ReadCache.run(
            seq![EventModel::CacheRead(Err(failure)), EventModel::Loaded(loaded)],
        ) == (PhaseModel::<T, E>::Done { result: loaded, warning: None }),
{
    let outage = EventModel::<T, E>::CacheRead(Err(failure));
    let start = PhaseModel::<T, E>::ReadCache;
    let all = seq![outage] + rest;
    assert(all.first() == outage);
    assert(all.drop_first() =~= rest);
    lemma_no_invocation_after_read(start.next(outage), rest);
    lemma_run_two(start, outage, EventModel::Loaded(loaded));
}

/// A failed read that is a defect ends the call with the failure: the
/// loader is never asked for.
pub proof fn lemma_defect_aborts<T, E>(failure: ReadFailure<E>, rest: Seq<EventModel<T, E>>)
    requires
        failure.kind.spec_is_defect(),
    ensures
        PhaseModel::<T, E>::ReadCache.next(EventModel::CacheRead(Err(failure)))
            == (PhaseModel::<T, E>::Done { result: Err(failure.cause), warning: None }),
        PhaseModel::<T, E>::ReadCache.loader_invocations(
            seq![EventModel::CacheRead(Err(failure))] + rest,
        ) == 0,
{
    let defect = EventModel::<T, E>::CacheRead(Err(failure));
    let all = seq![defect] + rest;
    assert(all.first() == defect);
    assert(all.drop_first() =~= rest);
    lemma_no_invocation_after_read(PhaseModel::<T, E>::ReadCache.next(defect), rest);
}

/// A call comes to its end: each outcome that the phase waits for brings
/// the call strictly nearer to its result, which is there after four
/// pieces of outside work at most.
pub proof fn lemma_awaited_event_makes_progress<T, E>(
    phase: PhaseModel<T, E>,
    event: EventModel<T, E>,
)
    requires
        phase.awaits(event),
    ensures
        phase.next(event).work_left() < phase.work_left() <= 4,
        phase.next(event).work_left() == 0 ==> phase.next(event) is Done,
{
}

/// Once the call has its result, no event changes it.
pub proof fn lemma_done_is_final<T, E>(phase: PhaseModel<T, E>, events: Seq<EventModel<T, E>>)
    requires
        phase is Done,
    ensures
        phase.run(events) == phase,
    decreases events.len(),
{
    if events.len() > 0 {
        lemma_done_is_final(phase, events.drop_first());
    }
}

/// Running two events is taking two steps.
proof fn lemma_run_two<T, E>(
    phase: PhaseModel<T, E>,
    first: EventModel<T, E>,
    second: EventModel<T, E>,
)
    ensures
        phase.run(seq![first, second]) == phase.next(first).next(second),
{
    let both = seq![first, second];
    assert(both.drop_first() =~= seq![second]);
    assert(seq![second].drop_first() =~= Seq::<EventModel<T, E>>::empty());
    assert(phase.next(first).run(seq![second]) == phase.next(first).next(second).run(
        Seq::<EventModel<T, E>>::empty(),
    ));
}

/// Running a sequence of events is running its first part, then the rest.
proof fn lemma_run_append<T, E>(
    phase: PhaseModel<T, E>,
    head: Seq<EventModel<T, E>>,
    tail: Seq<EventModel<T, E>>,
)
    ensures
        phase.run(head + tail) == phase.run(head).run(tail),
    decreases head.len(),
{
    if head.len() == 0 {
        assert(head + tail =~= tail);
    } else {
        assert((head + tail).first() == head.first());
        assert((head + tail).drop_first() =~= head.drop_first() + tail);
        lemma_run_append(phase.next(head.first()), head.drop_first(), tail);
    }
}

} // verus!
