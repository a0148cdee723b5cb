//! The playback-status protocol: classifying upstream answers and the
//! fetch, refresh, retry-once sequence.
use vstd::prelude::*;
use crate::tokens::{TokenRecord, TokenResponse, apply_refresh, refreshed};

verus! {

/// An image of the album as the upstream service lists it.
pub struct ApiTrackImage {
    pub url: String,
}

/// An artist as the upstream service lists it.
pub struct ApiTrackArtist {
    pub name: String,
}

/// The album of the current item.
pub struct ApiTrackAlbum {
    pub release_date: String,
    pub images: Vec<ApiTrackImage>,
}

/// The current item of the upstream answer.
pub struct ApiTrackItem {
    pub name: String,
    pub artists: Vec<ApiTrackArtist>,
    pub album: ApiTrackAlbum,
    pub explicit: bool,
    pub duration_ms: i64,
}

/// A decoded upstream currently-playing answer.
pub struct ApiTrackData {
    pub progress_ms: i64,
    pub is_playing: bool,
    pub item: ApiTrackItem,
}

/// What this service reports of the track being played.
pub struct TrackSnapshot {
    pub title: String,
    pub release_date: String,
    pub artist: String,
    pub image: String,
    pub is_playing: bool,
    pub explicit: bool,
    pub duration: i64,
    pub progress: i64,
}

/// Outcome of one fetch attempt.
pub enum PlaybackStatus {
    Playing(TrackSnapshot),
    Idle,
    Unauthorized,
    UpstreamError(u16),
    /// The playback endpoint could not be reached, or its answer not read.
    Unreachable,
}

/// An answer has the first artist and the second image that a snapshot needs.
pub open spec fn complete(d: ApiTrackData) -> bool {
    d.item.artists@.len() >= 1 && d.item.album.images@.len() >= 2
}

/// `t` carries the upstream fields of `d` unchanged.
pub open spec fn projects(d: ApiTrackData, t: TrackSnapshot) -> bool {
    &&& complete(d)
    &&& t.title@ == d.item.name@
    &&& t.artist@ == d.item.artists@[0].name@
    &&& t.image@ == d.item.album.images@[1].url@
    &&& t.release_date@ == d.item.album.release_date@
    &&& t.is_playing == d.is_playing
    &&& t.explicit == d.item.explicit
    &&& t.duration == d.item.duration_ms
    &&& t.progress == d.progress_ms
}

/// Builds the snapshot of a complete answer.
pub fn track_snapshot(d: &ApiTrackData) -> (r: Option<TrackSnapshot>)
    ensures
        r is Some <==> complete(*d),
        r is Some ==> projects(*d, r->0),
{
    if d.item.artists.len() < 1 || d.item.album.images.len() < 2 {
        return None;
    }
    Some(TrackSnapshot {
        title: d.item.name.clone(),
        release_date: d.item.album.release_date.clone(),
        artist: d.item.artists[0].name.clone(),
        image: d.item.album.images[1].url.clone(),
        is_playing: d.is_playing,
        explicit: d.item.explicit,
        duration: d.item.duration_ms,
        progress: d.progress_ms,
    })
}

/// The shape of a fetch outcome, without its data.
pub enum Outcome {
    Playing,
    Idle,
    Unauthorized,
    UpstreamError(u16),
    Unreachable,
}

/// The outcome of an upstream answer with `status` and, where it decoded, `body`.
pub open spec fn outcome_of(status: u16, body: Option<ApiTrackData>) -> Outcome {
    if status == 200 {
        match body {
            Some(d) => if complete(d) { Outcome::Playing } else { Outcome::UpstreamError(200) },
            None => Outcome::UpstreamError(200),
        }
    } else if status == 204 {
        Outcome::Idle
    } else if status == 401 {
        Outcome::Unauthorized
    } else {
        Outcome::UpstreamError(status)
    }
}

/// A `204` answer is idle whatever its body, and never an error.
pub proof fn lemma_no_content_is_idle(body: Option<ApiTrackData>)
    ensures
        outcome_of(204, body) == Outcome::Idle,
{
}

pub open spec fn outcome(s: PlaybackStatus) -> Outcome {
    match s {
        PlaybackStatus::Playing(_) => Outcome::Playing,
        PlaybackStatus::Idle => Outcome::Idle,
        PlaybackStatus::Unauthorized => Outcome::Unauthorized,
        PlaybackStatus::UpstreamError(c) => Outcome::UpstreamError(c),
        PlaybackStatus::Unreachable => Outcome::Unreachable,
    }
}

/// `s` is the classification of the answer `status`, `body`.
pub open spec fn classified(status: u16, body: Option<ApiTrackData>, s: PlaybackStatus) -> bool {
    &&& outcome(s) == outcome_of(status, body)
    &&& s is Playing ==> projects(body->0, s->Playing_0)
}

/// Classifies one upstream answer. A `200` whose body did not decode, or
/// lacks the fields a snapshot needs, keeps its status as an upstream error.
pub fn classify(status: u16, body: Option<ApiTrackData>) -> (r: PlaybackStatus)
    ensures
        classified(status, body, r),
{
    if status == 200 {
        match body {
            Some(d) => match track_snapshot(&d) {
                Some(t) => PlaybackStatus::Playing(t),
                None => PlaybackStatus::UpstreamError(200),
            },
            None => PlaybackStatus::UpstreamError(200),
        }
    } else if status == 204 {
        PlaybackStatus::Idle
    } else if status == 401 {
        PlaybackStatus::Unauthorized
    } else {
        PlaybackStatus::UpstreamError(status)
    }
}

/// The body of a successful playback reply.
pub struct PlaybackBody {
    pub is_active: bool,
    pub track: Option<TrackSnapshot>,
}

/// What the playback endpoint answers.
pub enum PlaybackReply {
    /// `200` with a body.
    Body(PlaybackBody),
    /// `401`: the credentials were refused even after a refresh.
    Unauthorized,
    /// `500`: any other upstream failure.
    Failure,
}

impl PlaybackReply {
    /// The HTTP status of the reply.
    pub fn http_status(&self) -> (r: u16)
        ensures
            r == (match self {
                PlaybackReply::Body(_) => 200u16,
                PlaybackReply::Unauthorized => 401u16,
                PlaybackReply::Failure => 500u16,
            }),
    {
        match self {
            PlaybackReply::Body(_) => 200,
            PlaybackReply::Unauthorized => 401,
            PlaybackReply::Failure => 500,
        }
    }
}

/// Turns a final status into the endpoint's reply: playing and idle both
/// answer with a body, told apart by `is_active` and `track`.
pub fn reply(status: PlaybackStatus) -> (r: PlaybackReply)
    ensures
        match status {
            PlaybackStatus::Playing(t) => r == PlaybackReply::Body(PlaybackBody { is_active: true, track: Some(t) }),
            PlaybackStatus::Idle => r == PlaybackReply::Body(PlaybackBody { is_active: false, track: None }),
            PlaybackStatus::Unauthorized => r is Unauthorized,
            PlaybackStatus::UpstreamError(_) => r is Failure,
            PlaybackStatus::Unreachable => r is Failure,
        },
{
    match status {
        PlaybackStatus::Playing(t) => PlaybackReply::Body(PlaybackBody { is_active: true, track: Some(t) }),
        PlaybackStatus::Idle => PlaybackReply::Body(PlaybackBody { is_active: false, track: None }),
        PlaybackStatus::Unauthorized => PlaybackReply::Unauthorized,
        PlaybackStatus::UpstreamError(_) => PlaybackReply::Failure,
        PlaybackStatus::Unreachable => PlaybackReply::Failure,
    }
}

/// Where a playback fetch stands.
pub enum PlaybackPhase {
    /// Nothing asked yet.
    Start,
    /// The first fetch is under way.
    Fetching,
    /// The first fetch was refused; a refresh is under way.
    Refreshing,
    /// The one retry is under way.
    Retrying,
    /// The outcome was handed out.
    Done,
}

/// What the driver reports back to the session.
pub enum PlaybackEvent {
    /// The driver asks the session to begin.
    Begin,
    /// An upstream playback answer: its status and, where it decoded, its body.
    Fetched { status: u16, body: Option<ApiTrackData> },
    /// The playback endpoint could not be reached, or its answer not read.
    FetchFailed,
    /// The identity provider's answer, `None` where the call or its decoding failed.
    Refreshed(Option<TokenResponse>),
}

/// What the session asks the driver to do next.
pub enum PlaybackAction {
    /// Fetch the playback status with this access token.
    Fetch { access_token: String },
    /// Ask the identity provider for a new access token.
    Refresh { refresh_token: String },
    /// Store `save` where it is present, then fetch once more with this access token.
    Retry { access_token: String, save: Option<TokenRecord> },
    /// The fetch is over with this status.
    Finish(PlaybackStatus),
    /// The event does not belong to this phase: nothing to do.
    Wait,
}

/// The shape of an action, without its data.
pub enum Step {
    Fetch,
    Refresh,
    Retry,
    Finish(Outcome),
    Wait,
}

pub open spec fn step_of(a: PlaybackAction) -> Step {
    match a {
        PlaybackAction::Fetch { .. } => Step::Fetch,
        PlaybackAction::Refresh { .. } => Step::Refresh,
        PlaybackAction::Retry { .. } => Step::Retry,
        PlaybackAction::Finish(s) => Step::Finish(outcome(s)),
        PlaybackAction::Wait => Step::Wait,
    }
}

/// The next phase and the shape of the action for `e` in phase `p`.
pub open spec fn transition(p: PlaybackPhase, e: PlaybackEvent) -> (PlaybackPhase, Step) {
    match (p, e) {
        (PlaybackPhase::Start, PlaybackEvent::Begin) => (PlaybackPhase::Fetching, Step::Fetch),
        (PlaybackPhase::Fetching, PlaybackEvent::Fetched { status, body }) =>
            if status == 401 {
                (PlaybackPhase::Refreshing, Step::Refresh)
            } else {
                (PlaybackPhase::Done, Step::Finish(outcome_of(status, body)))
            },
        (PlaybackPhase::Fetching, PlaybackEvent::FetchFailed) => (
            PlaybackPhase::Done,
            Step::Finish(Outcome::Unreachable),
        ),
        (PlaybackPhase::Retrying, PlaybackEvent::FetchFailed) => (
            PlaybackPhase::Done,
            Step::Finish(Outcome::Unreachable),
        ),
        (PlaybackPhase::Refreshing, PlaybackEvent::Refreshed(_)) => (PlaybackPhase::Retrying, Step::Retry),
        (PlaybackPhase::Retrying, PlaybackEvent::Fetched { status, body }) =>
            (PlaybackPhase::Done, Step::Finish(outcome_of(status, body))),
        _ => (p, Step::Wait),
    }
}

/// The shapes of the actions that the events `evs` lead to from phase `p`.
pub open spec fn steps(p: PlaybackPhase, evs: Seq<PlaybackEvent>) -> Seq<Step>
    decreases evs.len(),
{
    if evs.len() == 0 {
        Seq::empty()
    } else {
        let (q, k) = transition(p, evs[0]);
        seq![k] + steps(q, evs.drop_first())
    }
}

/// How many of `ks` are refreshes.
pub open spec fn refreshes(ks: Seq<Step>) -> nat
    decreases ks.len(),
{
    if ks.len() == 0 {
        0
    } else {
        (if ks[0] is Refresh { 1nat } else { 0nat }) + refreshes(ks.drop_first())
    }
}

/// How many of `ks` are playback fetches, first attempt or retry.
pub open spec fn fetches(ks: Seq<Step>) -> nat
    decreases ks.len(),
{
    if ks.len() == 0 {
        0
    } else {
        (if ks[0] is Fetch || ks[0] is Retry { 1nat } else { 0nat }) + fetches(ks.drop_first())
    }
}

pub open spec fn refresh_budget(p: PlaybackPhase) -> nat {
    match p {
        PlaybackPhase::Start | PlaybackPhase::Fetching => 1,
        _ => 0,
    }
}

pub open spec fn fetch_budget(p: PlaybackPhase) -> nat {
    match p {
        PlaybackPhase::Start => 2,
        PlaybackPhase::Fetching | PlaybackPhase::Refreshing => 1,
        _ => 0,
    }
}

proof fn lemma_budgets(p: PlaybackPhase, evs: Seq<PlaybackEvent>)
    ensures
        refreshes(steps(p, evs)) <= refresh_budget(p),
        fetches(steps(p, evs)) <= fetch_budget(p),
    decreases evs.len(),
{
    if evs.len() > 0 {
        let (q, k) = transition(p, evs[0]);
        lemma_budgets(q, evs.drop_first());
        let ks = steps(p, evs);
        assert(ks[0] == k);
        assert(ks.drop_first() =~= steps(q, evs.drop_first()));
    }
}

/// Whatever the upstream services answer, one playback fetch asks the
/// identity provider at most once and the playback endpoint at most twice.
pub proof fn lemma_single_refresh(evs: Seq<PlaybackEvent>)
    ensures
        refreshes(steps(PlaybackPhase::Start, evs)) <= 1,
        fetches(steps(PlaybackPhase::Start, evs)) <= 2,
{
    lemma_budgets(PlaybackPhase::Start, evs);
}

/// When the first fetch and the retry are both refused, the fetch ends
/// `Unauthorized` after exactly one refresh and two fetches, and nothing
/// that comes after asks for more.
pub proof fn lemma_refused_twice(
    first: Option<ApiTrackData>,
    refresh: Option<TokenResponse>,
    retry: Option<ApiTrackData>,
    rest: Seq<PlaybackEvent>,
)
    ensures
        ({
            let evs = seq![
                PlaybackEvent::Begin,
                PlaybackEvent::Fetched { status: 401, body: first },
                PlaybackEvent::Refreshed(refresh),
                PlaybackEvent::Fetched { status: 401, body: retry },
            ] + rest;
            let ks = steps(PlaybackPhase::Start, evs);
            &&& ks.len() == evs.len()
            &&& ks[0] is Fetch
            &&& ks[1] is Refresh
            &&& ks[2] is Retry
            &&& ks[3] == Step::Finish(Outcome::Unauthorized)
            &&& refreshes(ks) == 1
            &&& fetches(ks) == 2
        }),
{
    let e0 = PlaybackEvent::Begin;
    let e1 = PlaybackEvent::Fetched { status: 401, body: first };
    let e2 = PlaybackEvent::Refreshed(refresh);
    let e3 = PlaybackEvent::Fetched { status: 401, body: retry };
    let evs = seq![e0, e1, e2, e3] + rest;
    let d1 = evs.drop_first();
    let d2 = d1.drop_first();
    let d3 = d2.drop_first();
    let d4 = d3.drop_first();
    assert(d4 =~= rest);
    lemma_done_waits(rest);
    assert(evs[0] == e0);
    assert(d1[0] == e1);
    assert(d2[0] == e2);
    assert(d3[0] == e3);
    let k4 = steps(PlaybackPhase::Done, d4);
    let k3 = steps(PlaybackPhase::Retrying, d3);
    let k2 = steps(PlaybackPhase::Refreshing, d2);
    let k1 = steps(PlaybackPhase::Fetching, d1);
    let k0 = steps(PlaybackPhase::Start, evs);
    assert(k3.drop_first() =~= k4);
    assert(k2.drop_first() =~= k3);
    assert(k1.drop_first() =~= k2);
    assert(k0.drop_first() =~= k1);
    assert(k3[0] == Step::Finish(Outcome::Unauthorized));
    assert(refreshes(k3) == 0 && fetches(k3) == 0);
    assert(k2[0] is Retry);
    assert(refreshes(k2) == 0 && fetches(k2) == 1);
    assert(k1[0] is Refresh);
    assert(refreshes(k1) == 1 && fetches(k1) == 1);
    assert(k0[0] is Fetch);
    assert(refreshes(k0) == 1 && fetches(k0) == 2);
    assert(k0[1] == k1[0] && k0[2] == k2[0] && k0[3] == k3[0]);
}

/// Once done, a session only waits.
proof fn lemma_done_waits(evs: Seq<PlaybackEvent>)
    ensures
        steps(PlaybackPhase::Done, evs).len() == evs.len(),
        refreshes(steps(PlaybackPhase::Done, evs)) == 0,
        fetches(steps(PlaybackPhase::Done, evs)) == 0,
    decreases evs.len(),
{
    if evs.len() > 0 {
        lemma_done_waits(evs.drop_first());
        let ks = steps(PlaybackPhase::Done, evs);
        assert(ks.drop_first() =~= steps(PlaybackPhase::Done, evs.drop_first()));
    }
}

/// One fetch of the playback status, with at most one refresh and one retry.
pub struct PlaybackSession {
    pub phase: PlaybackPhase,
    pub tokens: TokenRecord,
}

impl PlaybackSession {
    /// A session that will use `tokens`.
    pub fn new(tokens: TokenRecord) -> (r: PlaybackSession)
        ensures
            r.phase is Start,
            r.tokens == tokens,
    {
        PlaybackSession { phase: PlaybackPhase::Start, tokens }
    }

    /// Takes one event and says what to do next.
    pub fn step(&mut self, event: PlaybackEvent) -> (r: PlaybackAction)
        ensures
            (final(self).phase, step_of(r)) == transition(old(self).phase, event),
            r is Fetch ==> r->Fetch_access_token@ == old(self).tokens.access_token@,
            r is Refresh ==> r->Refresh_refresh_token@ == old(self).tokens.refresh_token@,
            r is Retry ==> {
                &&& event is Refreshed
                &&& refreshed(old(self).tokens, event->Refreshed_0, r->Retry_save)
                &&& r->Retry_access_token@ == final(self).tokens.access_token@
                &&& final(self).tokens == (match r->Retry_save {
                    Some(t) => t,
                    None => old(self).tokens,
                })
            },
            !(r is Retry) ==> final(self).tokens == old(self).tokens,
            r is Finish && event is Fetched ==> classified(event->status, event->body, r->Finish_0),
            r is Finish && !(event is Fetched) ==> event is FetchFailed && r->Finish_0 is Unreachable,
    {
        match event {
            PlaybackEvent::Begin => {
                if let PlaybackPhase::Start = self.phase {
                    self.phase = PlaybackPhase::Fetching;
                    PlaybackAction::Fetch { access_token: self.tokens.access_token.clone() }
                } else {
                    PlaybackAction::Wait
                }
            },
            PlaybackEvent::Fetched { status, body } => {
                match self.phase {
                    PlaybackPhase::Fetching => {
                        if status == 401 {
                            self.phase = PlaybackPhase::Refreshing;
                            PlaybackAction::Refresh { refresh_token: self.tokens.refresh_token.clone() }
                        } else {
                            self.phase = PlaybackPhase::Done;
                            PlaybackAction::Finish(classify(status, body))
                        }
                    },
                    PlaybackPhase::Retrying => {
                        self.phase = PlaybackPhase::Done;
                        PlaybackAction::Finish(classify(status, body))
                    },
                    _ => PlaybackAction::Wait,
                }
            },
            PlaybackEvent::FetchFailed => {
                match self.phase {
                    PlaybackPhase::Fetching | PlaybackPhase::Retrying => {
                        self.phase = PlaybackPhase::Done;
                        PlaybackAction::Finish(PlaybackStatus::Unreachable)
                    },
                    _ => PlaybackAction::Wait,
                }
            },
            PlaybackEvent::Refreshed(outcome) => {
                if let PlaybackPhase::Refreshing = self.phase {
                    self.phase = PlaybackPhase::Retrying;
                    let save = apply_refresh(&self.tokens, outcome);
                    match save {
                        Some(t) => {
                            let copy = TokenRecord {
                                access_token: t.access_token.clone(),
                                refresh_token: t.refresh_token.clone(),
                            };
                            let access_token = t.access_token.clone();
                            self.tokens = t;
                            PlaybackAction::Retry { access_token, save: Some(copy) }
                        },
                        None => PlaybackAction::Retry {
                            access_token: self.tokens.access_token.clone(),
                            save: None,
                        },
                    }
                } else {
                    PlaybackAction::Wait
                }
            },
        }
    }
}

} // verus!
