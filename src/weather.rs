//! The cache-first weather protocol.
use vstd::prelude::*;
use vstd::string::StringExecFns;
use crate::config::{Config, weather_url_spec};

verus! {

/// How long a cached weather snapshot stays valid, in seconds.
pub const WEATHER_TTL_SECS: u64 = 600;

/// Why a weather fetch failed.
#[derive(Debug)]
pub enum WeatherError {
    /// The weather service could not be reached.
    UpstreamUnavailable,
    /// The weather service answered with something that is not a snapshot.
    ParseError,
}

pub open spec fn cache_key_spec(lang: Seq<char>) -> Seq<char> {
    "weather_"@ + lang
}

/// The cache key of the weather snapshot in language `lang`.
pub fn cache_key(lang: &str) -> (r: String)
    ensures
        r@ == cache_key_spec(lang@),
{
    let mut key = String::from_str("weather_");
    key.append(lang);
    proof {
        reveal_strlit("weather_");
    }
    key
}

/// Where a weather fetch stands.
pub enum WeatherPhase {
    /// Nothing asked yet.
    Start,
    /// The cache lookup is under way.
    LookingUp,
    /// The cache missed; the upstream fetch is under way.
    Fetching,
    /// The result was handed out.
    Done,
}

/// What the driver reports back to the session.
pub enum WeatherEvent {
    /// The driver asks the session to begin.
    Begin,
    /// The cache's answer; an empty value counts as a miss.
    Cached(Option<String>),
    /// The upstream answer, already turned into the snapshot's serialized form.
    Upstream(Result<String, WeatherError>),
}

/// What the session asks the driver to do next.
pub enum WeatherAction {
    /// Read this key from the cache.
    CacheGet { key: String },
    /// Fetch current conditions from this URL.
    Fetch { url: String },
    /// Store `value` under `key` for `ttl_secs` seconds, then answer with `value`.
    StoreAndReturn { key: String, value: String, ttl_secs: u64 },
    /// Answer with this snapshot.
    Return(String),
    /// The fetch failed.
    Fail(WeatherError),
    /// The event does not belong to this phase: nothing to do.
    Wait,
}

/// The meaning of an action, over the text it carries.
pub enum WeatherStep {
    CacheGet(Seq<char>),
    Fetch(Seq<char>),
    StoreAndReturn(Seq<char>, Seq<char>),
    Return(Seq<char>),
    Fail(WeatherError),
    Wait,
}

pub open spec fn weather_step_of(a: WeatherAction) -> WeatherStep {
    match a {
        WeatherAction::CacheGet { key } => WeatherStep::CacheGet(key@),
        WeatherAction::Fetch { url } => WeatherStep::Fetch(url@),
        WeatherAction::StoreAndReturn { key, value, .. } => WeatherStep::StoreAndReturn(key@, value@),
        WeatherAction::Return(v) => WeatherStep::Return(v@),
        WeatherAction::Fail(e) => WeatherStep::Fail(e),
        WeatherAction::Wait => WeatherStep::Wait,
    }
}

/// The next phase and action for `e` in phase `p`, for cache key `key` and upstream `url`.
pub open spec fn weather_transition(
    p: WeatherPhase,
    key: Seq<char>,
    url: Seq<char>,
    e: WeatherEvent,
) -> (WeatherPhase, WeatherStep) {
    match (p, e) {
        (WeatherPhase::Start, WeatherEvent::Begin) => (WeatherPhase::LookingUp, WeatherStep::CacheGet(key)),
        (WeatherPhase::LookingUp, WeatherEvent::Cached(c)) => match c {
            Some(v) => if v@.len() > 0 {
                (WeatherPhase::Done, WeatherStep::Return(v@))
            } else {
                (WeatherPhase::Fetching, WeatherStep::Fetch(url))
            },
            None => (WeatherPhase::Fetching, WeatherStep::Fetch(url)),
        },
        (WeatherPhase::Fetching, WeatherEvent::Upstream(u)) => match u {
            Ok(v) => if v@.len() > 0 {
                (WeatherPhase::Done, WeatherStep::StoreAndReturn(key, v@))
            } else {
                (WeatherPhase::Done, WeatherStep::Fail(WeatherError::ParseError))
            },
            Err(err) => (WeatherPhase::Done, WeatherStep::Fail(err)),
        },
        _ => (p, WeatherStep::Wait),
    }
}

/// The actions that the events `evs` lead to from phase `p`.
pub open spec fn weather_steps(
    p: WeatherPhase,
    key: Seq<char>,
    url: Seq<char>,
    evs: Seq<WeatherEvent>,
) -> Seq<WeatherStep>
    decreases evs.len(),
{
    if evs.len() == 0 {
        Seq::empty()
    } else {
        let (q, k) = weather_transition(p, key, url, evs[0]);
        seq![k] + weather_steps(q, key, url, evs.drop_first())
    }
}

/// How many of `ks` are calls to the weather service.
pub open spec fn network_calls(ks: Seq<WeatherStep>) -> nat
    decreases ks.len(),
{
    if ks.len() == 0 {
        0
    } else {
        (if ks[0] is Fetch { 1nat } else { 0nat }) + network_calls(ks.drop_first())
    }
}

/// Once done, a session only waits.
proof fn lemma_weather_done(key: Seq<char>, url: Seq<char>, evs: Seq<WeatherEvent>)
    ensures
        weather_steps(WeatherPhase::Done, key, url, evs).len() == evs.len(),
        network_calls(weather_steps(WeatherPhase::Done, key, url, evs)) == 0,
    decreases evs.len(),
{
    if evs.len() > 0 {
        lemma_weather_done(key, url, evs.drop_first());
        let ks = weather_steps(WeatherPhase::Done, key, url, evs);
        assert(ks.drop_first() =~= weather_steps(WeatherPhase::Done, key, url, evs.drop_first()));
    }
}

pub open spec fn call_budget(p: WeatherPhase) -> nat {
    match p {
        WeatherPhase::Start | WeatherPhase::LookingUp => 1,
        _ => 0,
    }
}

proof fn lemma_call_budget(p: WeatherPhase, key: Seq<char>, url: Seq<char>, evs: Seq<WeatherEvent>)
    ensures
        network_calls(weather_steps(p, key, url, evs)) <= call_budget(p),
    decreases evs.len(),
{
    if evs.len() > 0 {
        let (q, k) = weather_transition(p, key, url, evs[0]);
        lemma_call_budget(q, key, url, evs.drop_first());
        let ks = weather_steps(p, key, url, evs);
        assert(ks[0] == k);
        assert(ks.drop_first() =~= weather_steps(q, key, url, evs.drop_first()));
    }
}

/// Whatever the cache and the weather service answer, one weather fetch
/// calls the weather service at most once.
pub proof fn lemma_at_most_one_call(key: Seq<char>, url: Seq<char>, evs: Seq<WeatherEvent>)
    ensures
        network_calls(weather_steps(WeatherPhase::Start, key, url, evs)) <= 1,
{
    lemma_call_budget(WeatherPhase::Start, key, url, evs);
}

/// On a cache hit the weather service is not called and the cached
/// snapshot is the answer, as it was stored.
pub proof fn lemma_cache_hit(key: Seq<char>, url: Seq<char>, cached: String, rest: Seq<WeatherEvent>)
    requires
        cached@.len() > 0,
    ensures
        ({
            let evs = seq![WeatherEvent::Begin, WeatherEvent::Cached(Some(cached))] + rest;
            let ks = weather_steps(WeatherPhase::Start, key, url, evs);
            &&& ks.len() == evs.len()
            &&& ks[0] == WeatherStep::CacheGet(key)
            &&& ks[1] == WeatherStep::Return(cached@)
            &&& network_calls(ks) == 0
        }),
{
    let e0 = WeatherEvent::Begin;
    let e1 = WeatherEvent::Cached(Some(cached));
    let evs = seq![e0, e1] + rest;
    let d1 = evs.drop_first();
    let d2 = d1.drop_first();
    assert(d2 =~= rest);
    assert(evs[0] == e0);
    assert(d1[0] == e1);
    lemma_weather_done(key, url, rest);
    let k2 = weather_steps(WeatherPhase::Done, key, url, d2);
    let k1 = weather_steps(WeatherPhase::LookingUp, key, url, d1);
    let k0 = weather_steps(WeatherPhase::Start, key, url, evs);
    assert(k1.drop_first() =~= k2);
    assert(k0.drop_first() =~= k1);
    assert(network_calls(k1) == 0);
    assert(network_calls(k0) == 0);
    assert(k0[1] == k1[0]);
}

/// On a cache miss the weather service is called exactly once, and its
/// snapshot is both stored under the key and the answer.
pub proof fn lemma_cache_miss(
    key: Seq<char>,
    url: Seq<char>,
    cached: Option<String>,
    fetched: String,
    rest: Seq<WeatherEvent>,
)
    requires
        cached is None || cached->0@.len() == 0,
        fetched@.len() > 0,
    ensures
        ({
            let evs = seq![
                WeatherEvent::Begin,
                WeatherEvent::Cached(cached),
                WeatherEvent::Upstream(Ok(fetched)),
            ] + rest;
            let ks = weather_steps(WeatherPhase::Start, key, url, evs);
            &&& ks.len() == evs.len()
            &&& ks[0] == WeatherStep::CacheGet(key)
            &&& ks[1] == WeatherStep::Fetch(url)
            &&& ks[2] == WeatherStep::StoreAndReturn(key, fetched@)
            &&& network_calls(ks) == 1
        }),
{
    let e0 = WeatherEvent::Begin;
    let e1 = WeatherEvent::Cached(cached);
    let e2 = WeatherEvent::Upstream(Ok(fetched));
    let evs = seq![e0, e1, e2] + rest;
    let d1 = evs.drop_first();
    let d2 = d1.drop_first();
    let d3 = d2.drop_first();
    assert(d3 =~= rest);
    assert(evs[0] == e0);
    assert(d1[0] == e1);
    assert(d2[0] == e2);
    lemma_weather_done(key, url, rest);
    let k3 = weather_steps(WeatherPhase::Done, key, url, d3);
    let k2 = weather_steps(WeatherPhase::Fetching, key, url, d2);
    let k1 = weather_steps(WeatherPhase::LookingUp, key, url, d1);
    let k0 = weather_steps(WeatherPhase::Start, key, url, evs);
    assert(k2.drop_first() =~= k3);
    assert(k1.drop_first() =~= k2);
    assert(k0.drop_first() =~= k1);
    assert(network_calls(k2) == 0);
    assert(network_calls(k1) == 1);
    assert(network_calls(k0) == 1);
    assert(k0[1] == k1[0] && k0[2] == k2[0]);
}

/// One weather fetch: cache first, the weather service on a miss.
pub struct WeatherSession {
    pub phase: WeatherPhase,
    pub key: String,
    pub url: String,
}

impl WeatherSession {
    /// A session for the weather in language `lang`.
    pub fn new(config: &Config, lang: &str) -> (r: WeatherSession)
        ensures
            r.phase is Start,
            r.key@ == cache_key_spec(lang@),
            r.url@ == weather_url_spec(
                config.base_url.weather_api@,
                config.weather.key@,
                config.weather.city@,
                lang@,
            ),
    {
        WeatherSession { phase: WeatherPhase::Start, key: cache_key(lang), url: config.weather_url(lang) }
    }

    /// Takes one event and says what to do next.
    pub fn step(&mut self, event: WeatherEvent) -> (r: WeatherAction)
        ensures
            (final(self).phase, weather_step_of(r)) == weather_transition(
                old(self).phase,
                old(self).key@,
                old(self).url@,
                event,
            ),
            final(self).key == old(self).key,
            final(self).url == old(self).url,
            r is StoreAndReturn ==> r->StoreAndReturn_ttl_secs == WEATHER_TTL_SECS,
    {
        match event {
            WeatherEvent::Begin => {
                if let WeatherPhase::Start = self.phase {
                    self.phase = WeatherPhase::LookingUp;
                    WeatherAction::CacheGet { key: self.key.clone() }
                } else {
                    WeatherAction::Wait
                }
            },
            WeatherEvent::Cached(c) => {
                if let WeatherPhase::LookingUp = self.phase {
                    match c {
                        Some(v) => {
                            if v.as_str().is_empty() {
                                self.phase = WeatherPhase::Fetching;
                                WeatherAction::Fetch { url: self.url.clone() }
                            } else {
                                self.phase = WeatherPhase::Done;
                                WeatherAction::Return(v)
                            }
                        },
                        None => {
                            self.phase = WeatherPhase::Fetching;
                            WeatherAction::Fetch { url: self.url.clone() }
                        },
                    }
                } else {
                    WeatherAction::Wait
                }
            },
            WeatherEvent::Upstream(u) => {
                if let WeatherPhase::Fetching = self.phase {
                    self.phase = WeatherPhase::Done;
                    match u {
                        Ok(v) => {
                            if v.as_str().is_empty() {
                                WeatherAction::Fail(WeatherError::ParseError)
                            } else {
                                WeatherAction::StoreAndReturn {
                                    key: self.key.clone(),
                                    value: v,
                                    ttl_secs: WEATHER_TTL_SECS,
                                }
                            }
                        },
                        Err(err) => WeatherAction::Fail(err),
                    }
                } else {
                    WeatherAction::Wait
                }
            },
        }
    }
}

} // verus!
