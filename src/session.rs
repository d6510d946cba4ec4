use vstd::prelude::*;

use crate::broadcast::{LiveStream, OAuthResponse, ResponseList};
use crate::dedup::{State, diff_new, fresh_only, new_in, seen};
use crate::platform::{TwitchAPIError, is_unauthorized};

verus! {

/// The settings of a run.
#[derive(Clone, Debug)]
pub struct ConfigFile {
    pub client_id: String,
    pub client_secret: String,
    pub target_user: String,
    /// The webhook URL.
    pub discord: String,
}

/// The start of every webhook URL, written into a fresh settings template.
pub const WEBHOOK_PREFIX: &'static str = "https://discord.com/api/webhooks/";

impl ConfigFile {
    /// The settings written out when there are none yet: empty fields and the webhook prefix.
    pub fn template() -> (r: Self)
        ensures
            r.client_id@.len() == 0,
            r.client_secret@.len() == 0,
            r.target_user@.len() == 0,
            r.discord@ == WEBHOOK_PREFIX@,
    {
        ConfigFile {
            client_id: String::new(),
            client_secret: String::new(),
            target_user: String::new(),
            discord: String::from_str(WEBHOOK_PREFIX),
        }
    }
}

impl State {
    /// A field-for-field copy.
    pub fn duplicate(&self) -> (r: Self)
        ensures
            r@ == self@,
    {
        State {
            auth: copy_auth(&self.auth),
            lives: match &self.lives {
                Some(l) => Some(l.duplicate()),
                None => None,
            },
        }
    }
}

/// A copy of an optional credential.
pub fn copy_auth(a: &Option<OAuthResponse>) -> (r: Option<OAuthResponse>)
    ensures
        r == *a,
{
    match a {
        Some(c) => Some(c.duplicate()),
        None => None,
    }
}

/// Where a run stands.
#[derive(Clone, Copy, Debug, PartialEq, Eq, Structural)]
pub enum Phase {
    /// Waiting for a credential from the token endpoint.
    Authenticating,
    /// Waiting for the live-set query's answer.
    Querying,
    /// Waiting for the webhook delivery of the new broadcasts.
    Notifying,
    /// Nothing more to do.
    Finished,
}

/// The outside work a run asks for next.
pub enum Command {
    /// Obtain a credential from the token endpoint.
    Login,
    /// Query the live-set with this credential.
    Query(OAuthResponse),
    /// Send a notification for these new broadcasts.
    Notify(ResponseList<LiveStream>),
    /// End the run.
    Stop,
}

/// The outcome of the outside work a run asked for.
pub enum Event {
    LoggedIn(OAuthResponse),
    Queried(Result<ResponseList<LiveStream>, TwitchAPIError>),
    /// The notification was sent; `true` when the webhook accepted it.
    Sent(bool),
}

/// What to do after a transition: first persist `save`, if any, then carry out `command`.
pub struct Step {
    pub save: Option<State>,
    pub command: Command,
}

/// One run of the poller: the persisted state it works on, the credential in use, whether
/// its one re-authentication has been spent, and the full live-set fetched.
pub struct Run {
    pub prior: Option<State>,
    pub auth: Option<OAuthResponse>,
    pub refreshed: bool,
    pub phase: Phase,
    pub fetched: Option<ResponseList<LiveStream>>,
}

/// What a persisted state holds, as values.
pub struct StateModel {
    pub auth: Option<OAuthResponse>,
    pub lives: Option<Seq<LiveStream>>,
}

impl View for State {
    type V = StateModel;

    open spec fn view(&self) -> StateModel {
        StateModel {
            auth: self.auth,
            lives: match self.lives {
                Some(l) => Some(l.data@),
                None => None,
            },
        }
    }
}

/// The value of an optional persisted state.
pub open spec fn state_of(o: Option<State>) -> Option<StateModel> {
    match o {
        Some(s) => Some(s@),
        None => None,
    }
}

/// The outside work asked for, as values.
pub enum CommandModel {
    Login,
    Query(OAuthResponse),
    Notify(Seq<LiveStream>),
    Stop,
}

impl View for Command {
    type V = CommandModel;

    open spec fn view(&self) -> CommandModel {
        match self {
            Command::Login => CommandModel::Login,
            Command::Query(c) => CommandModel::Query(*c),
            Command::Notify(l) => CommandModel::Notify(l.data@),
            Command::Stop => CommandModel::Stop,
        }
    }
}

/// The outcome of outside work, as values.
pub enum EventModel {
    LoggedIn(OAuthResponse),
    Queried(Result<Seq<LiveStream>, TwitchAPIError>),
    Sent(bool),
}

impl View for Event {
    type V = EventModel;

    open spec fn view(&self) -> EventModel {
        match self {
            Event::LoggedIn(c) => EventModel::LoggedIn(*c),
            Event::Queried(Ok(l)) => EventModel::Queried(Ok(l.data@)),
            Event::Queried(Err(e)) => EventModel::Queried(Err(*e)),
            Event::Sent(d) => EventModel::Sent(*d),
        }
    }
}

/// A step, as values.
pub struct StepModel {
    pub save: Option<StateModel>,
    pub command: CommandModel,
}

impl View for Step {
    type V = StepModel;

    open spec fn view(&self) -> StepModel {
        StepModel { save: state_of(self.save), command: self.command@ }
    }
}

/// A run, as values.
pub struct RunModel {
    pub prior: Option<StateModel>,
    pub auth: Option<OAuthResponse>,
    pub refreshed: bool,
    pub phase: Phase,
    pub fetched: Option<Seq<LiveStream>>,
}

impl View for Run {
    type V = RunModel;

    open spec fn view(&self) -> RunModel {
        RunModel {
            prior: state_of(self.prior),
            auth: self.auth,
            refreshed: self.refreshed,
            phase: self.phase,
            fetched: match self.fetched {
                Some(l) => Some(l.data@),
                None => None,
            },
        }
    }
}

/// The credential a persisted state holds, if any.
pub open spec fn stored_auth(prior: Option<StateModel>) -> Option<OAuthResponse> {
    match prior {
        Some(s) => s.auth,
        None => None,
    }
}

/// The last live-set a persisted state holds, if any.
pub open spec fn stored_lives(prior: Option<StateModel>) -> Option<Seq<LiveStream>> {
    match prior {
        Some(s) => s.lives,
        None => None,
    }
}

/// A persisted state with its credential cleared; no state stays none.
pub open spec fn discard_auth(prior: Option<StateModel>) -> Option<StateModel> {
    match prior {
        Some(s) => Some(StateModel { auth: None, lives: s.lives }),
        None => None,
    }
}

/// A persisted state (or a default one) holding the credential `c`.
pub open spec fn with_auth(prior: Option<StateModel>, c: OAuthResponse) -> Option<StateModel> {
    Some(StateModel { auth: Some(c), lives: stored_lives(prior) })
}

/// How a run begins from the persisted state `prior`: with a stored credential it queries
/// directly; otherwise it first authenticates.
pub open spec fn initial(prior: Option<StateModel>) -> (RunModel, StepModel) {
    match stored_auth(prior) {
        Some(c) => (
            RunModel { prior, auth: Some(c), refreshed: false, phase: Phase::Querying, fetched: None },
            StepModel { save: None, command: CommandModel::Query(c) },
        ),
        None => (
            RunModel { prior, auth: None, refreshed: false, phase: Phase::Authenticating, fetched: None },
            StepModel { save: None, command: CommandModel::Login },
        ),
    }
}

/// The end of a run, with nothing persisted.
pub open spec fn halt(m: RunModel) -> (RunModel, StepModel) {
    (RunModel { phase: Phase::Finished, ..m }, StepModel { save: None, command: CommandModel::Stop })
}

/// One transition of a run on an event: the run after it, and what to persist and do next.
/// - A credential, while authenticating, is queried with; after a re-authentication it is
///   persisted first.
/// - A fetched live-set, while querying, is reduced to its new broadcasts; these are notified
///   on, or, when there are none, the run persists the credential and the whole fetch and ends.
/// - A rejected credential (HTTP 401) on the first query clears the stored credential,
///   persisting that when there was one, and authenticates again; any other failure, or a
///   second rejection, ends the run.
/// - A delivered notification has the credential and the whole fetch persisted; then, or
///   when delivery failed, the run ends.
/// - Any event out of turn ends the run.
pub open spec fn transition(m: RunModel, e: EventModel) -> (RunModel, StepModel) {
    match e {
        EventModel::LoggedIn(c) => if m.phase == Phase::Authenticating {
            let prior = if m.refreshed {
                with_auth(m.prior, c)
            } else {
                m.prior
            };
            (
                RunModel { prior, auth: Some(c), phase: Phase::Querying, ..m },
                StepModel {
                    save: if m.refreshed {
                        prior
                    } else {
                        None
                    },
                    command: CommandModel::Query(c),
                },
            )
        } else {
            halt(m)
        },
        EventModel::Queried(Ok(f)) => if m.phase == Phase::Querying {
            let fresh = fresh_only(stored_lives(m.prior), f);
            if fresh.len() == 0 {
                (
                    RunModel { phase: Phase::Finished, fetched: Some(f), ..m },
                    StepModel {
                        save: Some(StateModel { auth: m.auth, lives: Some(f) }),
                        command: CommandModel::Stop,
                    },
                )
            } else {
                (
                    RunModel { phase: Phase::Notifying, fetched: Some(f), ..m },
                    StepModel { save: None, command: CommandModel::Notify(fresh) },
                )
            }
        } else {
            halt(m)
        },
        EventModel::Queried(Err(err)) => if m.phase == Phase::Querying && is_unauthorized(err)
            && !m.refreshed {
            (
                RunModel {
                    prior: discard_auth(m.prior),
                    auth: None,
                    refreshed: true,
                    phase: Phase::Authenticating,
                    ..m
                },
                StepModel {
                    save: if stored_auth(m.prior) is Some {
                        discard_auth(m.prior)
                    } else {
                        None
                    },
                    command: CommandModel::Login,
                },
            )
        } else {
            halt(m)
        },
        EventModel::Sent(delivered) => if m.phase == Phase::Notifying {
            (
                RunModel { phase: Phase::Finished, ..m },
                StepModel {
                    save: if delivered {
                        Some(StateModel { auth: m.auth, lives: m.fetched })
                    } else {
                        None
                    },
                    command: CommandModel::Stop,
                },
            )
        } else {
            halt(m)
        },
    }
}

impl Run {
    /// A query always has a credential to use, and a notification a fetched live-set.
    pub open spec fn wf(&self) -> bool {
        &&& self.phase == Phase::Querying ==> self.auth is Some
        &&& self.phase == Phase::Notifying ==> self.auth is Some && self.fetched is Some
    }

    /// Begins a run on the persisted state `prior` (none when there was none or it was unreadable).
    pub fn start(prior: Option<State>) -> (r: (Run, Step))
        ensures
            r.0.wf(),
            (r.0@, r.1@) == initial(state_of(prior)),
    {
        let stored = match &prior {
            Some(s) => copy_auth(&s.auth),
            None => None,
        };
        match stored {
            Some(c) => {
                let q = c.duplicate();
                (
                    Run { prior, auth: Some(c), refreshed: false, phase: Phase::Querying, fetched: None },
                    Step { save: None, command: Command::Query(q) },
                )
            },
            None => (
                Run { prior, auth: None, refreshed: false, phase: Phase::Authenticating, fetched: None },
                Step { save: None, command: Command::Login },
            ),
        }
    }

    fn finish(&mut self) -> (r: Step)
        requires
            old(self).wf(),
        ensures
            final(self).wf(),
            (final(self)@, r@) == halt(old(self)@),
    {
        self.phase = Phase::Finished;
        Step { save: None, command: Command::Stop }
    }

    /// Takes the outcome of the work last asked for, and says what to persist and do next.
    pub fn advance(&mut self, event: Event) -> (r: Step)
        requires
            old(self).wf(),
        ensures
            final(self).wf(),
            (final(self)@, r@) == transition(old(self)@, event@),
    {
        match event {
            Event::LoggedIn(c) => {
                if self.phase != Phase::Authenticating {
                    return self.finish();
                }
                let save = if self.refreshed {
                    let lives = match &self.prior {
                        Some(s) => match &s.lives {
                            Some(l) => Some(l.duplicate()),
                            None => None,
                        },
                        None => None,
                    };
                    let st = State { auth: Some(c.duplicate()), lives };
                    let kept = st.duplicate();
                    self.prior = Some(st);
                    Some(kept)
                } else {
                    None
                };
                self.auth = Some(c.duplicate());
                self.phase = Phase::Querying;
                Step { save, command: Command::Query(c) }
            },
            Event::Queried(Ok(f)) => {
                if self.phase != Phase::Querying {
                    return self.finish();
                }
                let mut fresh = f.duplicate();
                diff_new(&self.prior, &mut fresh);
                if fresh.data.len() == 0 {
                    let save = State { auth: copy_auth(&self.auth), lives: Some(f.duplicate()) };
                    self.fetched = Some(f);
                    self.phase = Phase::Finished;
                    Step { save: Some(save), command: Command::Stop }
                } else {
                    self.fetched = Some(f);
                    self.phase = Phase::Notifying;
                    Step { save: None, command: Command::Notify(fresh) }
                }
            },
            Event::Queried(Err(e)) => {
                if self.phase != Phase::Querying || !e.is_unauthorized() || self.refreshed {
                    return self.finish();
                }
                let had_auth = match &self.prior {
                    Some(s) => s.auth.is_some(),
                    None => false,
                };
                let save = match &mut self.prior {
                    Some(s) => {
                        s.auth = None;
                        if had_auth {
                            Some(s.duplicate())
                        } else {
                            None
                        }
                    },
                    None => None,
                };
                self.auth = None;
                self.refreshed = true;
                self.phase = Phase::Authenticating;
                Step { save, command: Command::Login }
            },
            Event::Sent(delivered) => {
                if self.phase != Phase::Notifying {
                    return self.finish();
                }
                self.phase = Phase::Finished;
                let save = if delivered {
                    let lives = match &self.fetched {
                        Some(l) => Some(l.duplicate()),
                        None => None,
                    };
                    Some(State { auth: copy_auth(&self.auth), lives })
                } else {
                    None
                };
                Step { save, command: Command::Stop }
            },
        }
    }
}

/// A credential rejected with HTTP 401 on a first query leads to exactly one
/// re-authentication and one retried query: whatever the retried query answers, and whatever
/// comes after it, the run neither authenticates nor queries again.
pub proof fn lemma_unauthorized_refreshes_once(
    m0: RunModel,
    err: TwitchAPIError,
    c: OAuthResponse,
    second: Result<Seq<LiveStream>, TwitchAPIError>,
    later: EventModel,
)
    requires
        m0.phase == Phase::Querying,
        !m0.refreshed,
        is_unauthorized(err),
    ensures
        ({
            let (m1, s1) = transition(m0, EventModel::Queried(Err(err)));
            let (m2, s2) = transition(m1, EventModel::LoggedIn(c));
            let (m3, s3) = transition(m2, EventModel::Queried(second));
            let (m4, s4) = transition(m3, later);
            &&& s1.command == CommandModel::Login
            &&& s2.command == CommandModel::Query(c)
            &&& !(s3.command is Login) && !(s3.command is Query)
            &&& !(s4.command is Login) && !(s4.command is Query)
        }),
{
}

/// A query that fails other than with HTTP 401 (a server error, a transport failure, an
/// unreadable body) ends the run at once: no re-authentication, nothing persisted.
pub proof fn lemma_other_failure_ends(m0: RunModel, err: TwitchAPIError)
    requires
        !is_unauthorized(err),
    ensures
        transition(m0, EventModel::Queried(Err(err))) == halt(m0),
        transition(m0, EventModel::Queried(Err(err))).1.command is Stop,
{
}

/// From a persisted state with a credential, a first query that succeeds never leads to
/// authentication: the run queries, then notifies or ends, then ends.
pub proof fn lemma_reuse_success_never_authenticates(
    prior: Option<StateModel>,
    f: Seq<LiveStream>,
    later: EventModel,
)
    requires
        stored_auth(prior) is Some,
    ensures
        ({
            let (m0, s0) = initial(prior);
            let (m1, s1) = transition(m0, EventModel::Queried(Ok(f)));
            let (m2, s2) = transition(m1, later);
            &&& s0.command is Query
            &&& s1.command is Notify || s1.command is Stop
            &&& s2.command is Stop
        }),
{
}

/// No broadcast of a live-set is new against that same live-set.
pub proof fn lemma_nothing_new_against_itself(f: Seq<LiveStream>)
    ensures
        fresh_only(Some(f), f).len() == 0,
{
    broadcast use vstd::seq_lib::group_filter_ensures;

    let r = f.filter(new_in(f));
    if r.len() > 0 {
        f.lemma_filter_pred(new_in(f), 0);
        f.lemma_filter_contains_rev(new_in(f), r[0]);
        let k = choose|k: int| 0 <= k < f.len() && f[k] == r[0];
        assert(seen(f, r[0].id@));
    }
}

/// Once the notification for a fetch with new broadcasts is delivered, the credential and the
/// whole fetch are persisted, and the same fetch on the next run has nothing new to announce.
pub proof fn lemma_delivered_fetch_not_renotified(m0: RunModel, f: Seq<LiveStream>)
    requires
        m0.phase == Phase::Querying,
        fresh_only(stored_lives(m0.prior), f).len() > 0,
    ensures
        ({
            let (m1, s1) = transition(m0, EventModel::Queried(Ok(f)));
            let (m2, s2) = transition(m1, EventModel::Sent(true));
            &&& s1.command == CommandModel::Notify(fresh_only(stored_lives(m0.prior), f))
            &&& s2.save == Some(StateModel { auth: m0.auth, lives: Some(f) })
            &&& fresh_only(stored_lives(s2.save), f).len() == 0
        }),
{
    lemma_nothing_new_against_itself(f);
}

} // verus!
