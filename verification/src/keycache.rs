//! The cache of the provider's key set, as a state machine.
//!
//! The cache decides; its owner acts. Each call of [`KeyCache::step`] takes one
//! event (a caller asks for keys, a document arrived, a fetch failed) and
//! answers with what to do next. The cache never fetches anything itself, so
//! every decision it takes is stated and proved here.

use vstd::prelude::*;
use crate::error::KeyFault;
use crate::models::{EveJwtKeys, EveSsoMetaData};

verus! {

/// How long a key set is served before it is fetched anew, in seconds, if the
/// owner does not choose otherwise: three hours.
pub const DEFAULT_TTL: u64 = 10800;

/// Where the provider publishes its discovery document.
pub const DISCOVERY_URL: &'static str =
    "https://login.eveonline.com/.well-known/oauth-authorization-server";

/// A key set and the time it was fetched at, in seconds.
#[derive(Clone, Debug, PartialEq, Eq)]
pub struct KeySet {
    pub keys: EveJwtKeys,
    pub fetched_at: u64,
}

/// How far a refresh has come.
#[derive(Clone, Copy, Debug, PartialEq, Eq, Structural)]
pub enum Phase {
    /// No refresh is under way.
    Idle,
    /// The discovery document was asked for and has not arrived.
    AwaitingMetadata,
    /// The key set document was asked for and has not arrived.
    AwaitingKeys,
}

/// What happened.
#[derive(Debug, PartialEq, Eq)]
pub enum CacheEvent {
    /// A caller asks for the keys.
    Request,
    /// A caller that was told to wait asks again.
    Resume,
    /// The fetch of the discovery document ended.
    Metadata(Result<EveSsoMetaData, KeyFault>),
    /// The fetch of the key set document ended.
    Keys(Result<EveJwtKeys, KeyFault>),
}

/// What to do next.
#[derive(Clone, Debug, PartialEq, Eq)]
pub enum CacheAction {
    /// The cached key set is live: use it.
    Serve,
    /// A refresh is under way: wait for it to end, then resume.
    Wait,
    /// Fetch the discovery document and report how that ended.
    FetchMetadata,
    /// Fetch the key set document from this URL and report how that ended.
    FetchKeys(String),
    /// The refresh failed: give up on this attempt.
    Fail(KeyFault),
    /// The event answers no fetch that is under way: drop it.
    Ignore,
}

/// The state of the cache.
pub struct CacheState {
    pub ttl: u64,
    pub entry: Option<KeySet>,
    pub phase: Phase,
    /// How the last refresh that ended failed, if it did.
    pub failure: Option<KeyFault>,
}

impl CacheState {
    /// A key set is cached and at `now` it is no older than the time to live.
    pub open spec fn is_fresh(self, now: u64) -> bool {
        self.entry matches Some(set) && now - set.fetched_at <= self.ttl
    }

    /// The cache as it is when a refresh begins.
    pub open spec fn refreshing(self) -> CacheState {
        CacheState { phase: Phase::AwaitingMetadata, failure: None, ..self }
    }

    /// The cache as it is when a refresh ended in `fault`.
    pub open spec fn failed(self, fault: KeyFault) -> CacheState {
        CacheState { phase: Phase::Idle, failure: Some(fault), ..self }
    }

    /// The answer to a caller that asks for the keys at `now`: the cached set
    /// while it is fresh; else one refresh, which the first caller to ask
    /// begins and for which the others wait.
    pub open spec fn on_request(self, now: u64) -> (CacheState, CacheAction) {
        if self.is_fresh(now) {
            (self, CacheAction::Serve)
        } else if self.phase is Idle {
            (self.refreshing(), CacheAction::FetchMetadata)
        } else {
            (self, CacheAction::Wait)
        }
    }

    /// The answer to a caller that waited: it shares how the refresh ended, be
    /// that a fresh key set or a failure. Where there is neither, it is
    /// answered as one that asks for the first time.
    pub open spec fn on_resume(self, now: u64) -> (CacheState, CacheAction) {
        if !self.is_fresh(now) && self.phase is Idle && self.failure is Some {
            (self, CacheAction::Fail(self.failure->0))
        } else {
            self.on_request(now)
        }
    }

    /// The discovery document names where the key set is to be had.
    pub open spec fn on_metadata(self, outcome: Result<EveSsoMetaData, KeyFault>) -> (
        CacheState,
        CacheAction,
    ) {
        if !(self.phase is AwaitingMetadata) {
            (self, CacheAction::Ignore)
        } else {
            match outcome {
                Ok(meta) => (
                    CacheState { phase: Phase::AwaitingKeys, ..self },
                    CacheAction::FetchKeys(meta.jwks_uri),
                ),
                Err(fault) => (self.failed(fault), CacheAction::Fail(fault)),
            }
        }
    }

    /// A key set that arrives replaces the cached one whole.
    pub open spec fn on_keys(self, outcome: Result<EveJwtKeys, KeyFault>, now: u64) -> (
        CacheState,
        CacheAction,
    ) {
        if !(self.phase is AwaitingKeys) {
            (self, CacheAction::Ignore)
        } else {
            match outcome {
                Ok(keys) => (
                    CacheState {
                        entry: Some(KeySet { keys, fetched_at: now }),
                        phase: Phase::Idle,
                        failure: None,
                        ..self
                    },
                    CacheAction::Serve,
                ),
                Err(fault) => (self.failed(fault), CacheAction::Fail(fault)),
            }
        }
    }

    /// The state after `event` at time `now`, and the action it calls for.
    pub open spec fn next(self, event: CacheEvent, now: u64) -> (CacheState, CacheAction) {
        match event {
            CacheEvent::Request => self.on_request(now),
            CacheEvent::Resume => self.on_resume(now),
            CacheEvent::Metadata(outcome) => self.on_metadata(outcome),
            CacheEvent::Keys(outcome) => self.on_keys(outcome, now),
        }
    }
}

/// The cache of the provider's key set.
pub struct KeyCache {
    ttl: u64,
    entry: Option<KeySet>,
    phase: Phase,
    failure: Option<KeyFault>,
}

impl View for KeyCache {
    type V = CacheState;

    closed spec fn view(&self) -> CacheState {
        CacheState { ttl: self.ttl, entry: self.entry, phase: self.phase, failure: self.failure }
    }
}

impl KeyCache {
    /// An empty cache that serves a key set for `ttl` seconds.
    pub fn new(ttl: u64) -> (cache: KeyCache)
        ensures
            cache@ == (CacheState { ttl, entry: None, phase: Phase::Idle, failure: None }),
    {
        KeyCache { ttl, entry: None, phase: Phase::Idle, failure: None }
    }

    /// The key set that is cached, fresh or not.
    pub fn keys(&self) -> (res: Option<&EveJwtKeys>)
        ensures
            res is Some <==> self@.entry is Some,
            res matches Some(keys) ==> *keys == self@.entry->0.keys,
    {
        match &self.entry {
            None => None,
            Some(set) => Some(&set.keys),
        }
    }

    /// Whether the cached key set may be served at `now`.
    pub fn is_fresh(&self, now: u64) -> (fresh: bool)
        ensures
            fresh == self@.is_fresh(now),
    {
        match &self.entry {
            None => false,
            Some(set) => now <= set.fetched_at || now - set.fetched_at <= self.ttl,
        }
    }

    /// Takes one event at time `now` and says what to do next.
    pub fn step(&mut self, event: CacheEvent, now: u64) -> (action: CacheAction)
        ensures
            (final(self)@, action) == old(self)@.next(event, now),
    {
        match event {
            CacheEvent::Request => self.request(now),
            CacheEvent::Resume => {
                if !self.is_fresh(now) {
                    if let Phase::Idle = self.phase {
                        if let Some(fault) = self.failure {
                            return CacheAction::Fail(fault);
                        }
                    }
                }
                self.request(now)
            },
            CacheEvent::Metadata(outcome) => {
                match self.phase {
                    Phase::AwaitingMetadata => {},
                    _ => { return CacheAction::Ignore; },
                }
                match outcome {
                    Ok(meta) => {
                        self.phase = Phase::AwaitingKeys;
                        CacheAction::FetchKeys(meta.jwks_uri)
                    },
                    Err(fault) => self.fail(fault),
                }
            },
            CacheEvent::Keys(outcome) => {
                match self.phase {
                    Phase::AwaitingKeys => {},
                    _ => { return CacheAction::Ignore; },
                }
                match outcome {
                    Ok(keys) => {
                        self.entry = Some(KeySet { keys, fetched_at: now });
                        self.phase = Phase::Idle;
                        self.failure = None;
                        CacheAction::Serve
                    },
                    Err(fault) => self.fail(fault),
                }
            },
        }
    }

    fn request(&mut self, now: u64) -> (action: CacheAction)
        ensures
            (final(self)@, action) == old(self)@.on_request(now),
    {
        if self.is_fresh(now) {
            return CacheAction::Serve;
        }
        match self.phase {
            Phase::Idle => {
                self.phase = Phase::AwaitingMetadata;
                self.failure = None;
                CacheAction::FetchMetadata
            },
            _ => CacheAction::Wait,
        }
    }

    fn fail(&mut self, fault: KeyFault) -> (action: CacheAction)
        ensures
            final(self)@ == old(self)@.failed(fault),
            action == CacheAction::Fail(fault),
    {
        self.phase = Phase::Idle;
        self.failure = Some(fault);
        CacheAction::Fail(fault)
    }
}

/// The state after callers asked for the keys at each of `times`, in turn.
pub open spec fn after_requests(state: CacheState, times: Seq<u64>) -> CacheState
    decreases times.len(),
{
    if times.len() == 0 {
        state
    } else {
        after_requests(state.on_request(times[0]).0, times.drop_first())
    }
}

/// The answers to callers that asked for the keys at each of `times`, in turn.
pub open spec fn answers(state: CacheState, times: Seq<u64>) -> Seq<CacheAction>
    decreases times.len(),
{
    if times.len() == 0 {
        Seq::empty()
    } else {
        seq![state.on_request(times[0]).1] + answers(
            state.on_request(times[0]).0,
            times.drop_first(),
        )
    }
}

/// Every caller is answered.
pub proof fn lemma_answers_len(state: CacheState, times: Seq<u64>)
    ensures
        answers(state, times).len() == times.len(),
    decreases times.len(),
{
    if times.len() > 0 {
        lemma_answers_len(state.on_request(times[0]).0, times.drop_first());
    }
}

/// A key set that arrives at `at` is fresh from then until `ttl` seconds later.
pub proof fn lemma_arrived_keys_are_fresh(state: CacheState, keys: EveJwtKeys, at: u64, now: u64)
    requires
        state.phase is AwaitingKeys,
        now - at <= state.ttl,
    ensures
        state.on_keys(Ok(keys), at).0.is_fresh(now),
        state.on_keys(Ok(keys), at).0.entry == Some(KeySet { keys, fetched_at: at }),
{
}

/// What is served is never stale: whenever the answer is to use the cached key
/// set, a key set is cached and at `now` it is no older than the time to live.
pub proof fn lemma_served_keys_are_fresh(state: CacheState, event: CacheEvent, now: u64)
    ensures
        state.next(event, now).1 == CacheAction::Serve ==> state.next(event, now).0.is_fresh(now),
{
}

/// While the cached key set is fresh, callers are served from the cache: no
/// fetch is asked for, however many callers ask, and the cache stays as it is.
pub proof fn lemma_fresh_cache_serves(state: CacheState, times: Seq<u64>)
    requires
        forall|i: int| 0 <= i < times.len() ==> state.is_fresh(#[trigger] times[i]),
    ensures
        after_requests(state, times) == state,
        answers(state, times).len() == times.len(),
        forall|i: int| 0 <= i < times.len() ==> #[trigger] answers(state, times)[i]
            == CacheAction::Serve,
    decreases times.len(),
{
    lemma_answers_len(state, times);
    if times.len() > 0 {
        let rest = times.drop_first();
        assert(state.is_fresh(times[0]));
        assert forall|i: int| 0 <= i < rest.len() implies state.is_fresh(#[trigger] rest[i]) by {
            assert(rest[i] == times[i + 1]);
        }
        lemma_fresh_cache_serves(state, rest);
        assert forall|i: int| 0 <= i < times.len() implies #[trigger] answers(state, times)[i]
            == CacheAction::Serve by {
            if i > 0 {
                assert(answers(state, times)[i] == answers(state, rest)[i - 1]);
            }
        }
    }
}

/// While a refresh is under way and no fresh key set is cached, every caller
/// is told to wait: none begins a second refresh.
pub proof fn lemma_refresh_in_flight_is_awaited(state: CacheState, times: Seq<u64>)
    requires
        !(state.phase is Idle),
        forall|i: int| 0 <= i < times.len() ==> !state.is_fresh(#[trigger] times[i]),
    ensures
        after_requests(state, times) == state,
        answers(state, times).len() == times.len(),
        forall|i: int| 0 <= i < times.len() ==> #[trigger] answers(state, times)[i]
            == CacheAction::Wait,
    decreases times.len(),
{
    lemma_answers_len(state, times);
    if times.len() > 0 {
        let rest = times.drop_first();
        assert(!state.is_fresh(times[0]));
        assert forall|i: int| 0 <= i < rest.len() implies !state.is_fresh(#[trigger] rest[i]) by {
            assert(rest[i] == times[i + 1]);
        }
        lemma_refresh_in_flight_is_awaited(state, rest);
        assert forall|i: int| 0 <= i < times.len() implies #[trigger] answers(state, times)[i]
            == CacheAction::Wait by {
            if i > 0 {
                assert(answers(state, times)[i] == answers(state, rest)[i - 1]);
            }
        }
    }
}

/// When the cached key set has gone stale, or there is none, and callers ask
/// one after another before the refresh ends, exactly one fetch is asked for:
/// the first caller begins the refresh and all the others wait for it.
pub proof fn lemma_single_flight(state: CacheState, times: Seq<u64>)
    requires
        state.phase is Idle,
        times.len() > 0,
        forall|i: int| 0 <= i < times.len() ==> !state.is_fresh(#[trigger] times[i]),
    ensures
        answers(state, times).len() == times.len(),
        answers(state, times)[0] == CacheAction::FetchMetadata,
        forall|i: int| 1 <= i < times.len() ==> #[trigger] answers(state, times)[i]
            == CacheAction::Wait,
        after_requests(state, times) == state.refreshing(),
{
    lemma_answers_len(state, times);
    let rest = times.drop_first();
    let begun = state.refreshing();
    assert(!state.is_fresh(times[0]));
    assert(state.on_request(times[0]) == (begun, CacheAction::FetchMetadata));
    assert forall|i: int| 0 <= i < rest.len() implies !begun.is_fresh(#[trigger] rest[i]) by {
        assert(rest[i] == times[i + 1]);
        assert(!state.is_fresh(times[i + 1]));
    }
    lemma_refresh_in_flight_is_awaited(begun, rest);
    assert forall|i: int| 1 <= i < times.len() implies #[trigger] answers(state, times)[i]
        == CacheAction::Wait by {
        assert(answers(state, times)[i] == answers(begun, rest)[i - 1]);
    }
}

/// One refresh serves a whole window: from a cache with nothing fresh to
/// serve, the first caller is told to fetch the discovery document; that
/// document names the key set to fetch; and once the key set has arrived at
/// `at`, every caller that asks up to `ttl` seconds later is served from the
/// cache, with no further fetch.
pub proof fn lemma_one_refresh_serves_the_window(
    state: CacheState,
    asked: u64,
    meta: EveSsoMetaData,
    keys: EveJwtKeys,
    at: u64,
    times: Seq<u64>,
)
    requires
        state.phase is Idle,
        !state.is_fresh(asked),
        forall|i: int| 0 <= i < times.len() ==> #[trigger] times[i] - at <= state.ttl,
    ensures
        ({
            let begun = state.next(CacheEvent::Request, asked);
            let located = begun.0.next(CacheEvent::Metadata(Ok(meta)), asked);
            let filled = located.0.next(CacheEvent::Keys(Ok(keys)), at);
            &&& begun.1 == CacheAction::FetchMetadata
            &&& located.1 == CacheAction::FetchKeys(meta.jwks_uri)
            &&& filled.1 == CacheAction::Serve
            &&& filled.0.entry == Some(KeySet { keys, fetched_at: at })
            &&& after_requests(filled.0, times) == filled.0
            &&& answers(filled.0, times).len() == times.len()
            &&& forall|i: int| 0 <= i < times.len() ==> #[trigger] answers(filled.0, times)[i]
                == CacheAction::Serve
        }),
{
    let begun = state.next(CacheEvent::Request, asked);
    let located = begun.0.next(CacheEvent::Metadata(Ok(meta)), asked);
    let filled = located.0.next(CacheEvent::Keys(Ok(keys)), at);
    assert forall|i: int| 0 <= i < times.len() implies filled.0.is_fresh(#[trigger] times[i]) by {
        assert(times[i] - at <= state.ttl);
    }
    lemma_fresh_cache_serves(filled.0, times);
}

/// No event but a key set that arrives changes what is cached, and a caller
/// that asks never does.
pub proof fn lemma_entry_replaced_whole(state: CacheState, event: CacheEvent, now: u64)
    ensures
        state.next(event, now).0.entry == state.entry || (event matches CacheEvent::Keys(Ok(keys))
            && state.phase is AwaitingKeys && state.next(event, now).0.entry == Some(
            KeySet { keys, fetched_at: now },
        )),
        state.next(event, now).0.ttl == state.ttl,
{
}

} // verus!
