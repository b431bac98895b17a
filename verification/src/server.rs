//! The life of the server: it gets an access token, serves requests with it, and replaces it
//! when it expires.
use vstd::prelude::*;

use crate::token::{
    api_token, granted, needs_token, surely_needs_token, token_answer, ApiToken, Timestamp,
};

verus! {

/// The client id that tokens are asked for with, unless another one is given.
pub const CLIENT_ID: &'static str = "2c1ea588dfbc4a989e2426f8385297c3";

/// What a token is asked to allow.
pub const SCOPE: &'static str = "user-read-playback-state,user-read-private,user-read-email,playlist-read-private,user-library-read,user-library-modify,user-top-read,playlist-read-collaborative,playlist-modify-public,playlist-modify-private,user-follow-read,user-follow-modify,user-read-currently-playing,user-modify-playback-state,user-read-recently-played";

/// Whether something has come to its end.
#[derive(Clone, Copy, Debug, PartialEq, Eq, Structural)]
pub enum Progress {
    Pending,
    Ready,
}

/// What is to be done next in a poll of the server. `S` is the type of texts, `M` that of the
/// reports of the player.
#[derive(Debug, PartialEq, Eq)]
pub enum PollAction<S, M> {
    /// Look for a report of the player.
    PollEvents,
    /// Hand the report on to the task that serves requests.
    ForwardEvent(M),
    /// Find out whether the token at hand is still valid.
    CheckToken,
    /// Find out the client id that is set in the environment.
    ReadClientId,
    /// Begin to ask for a token.
    StartRequest { client_id: S, scope: S },
    /// Go on asking for a token.
    PollRequest,
    /// Make a client with the token, and begin to serve requests with it, for the device with
    /// the given name; reports of the player are handed on from now on.
    StartServer { token: ApiToken<S>, device_name: S },
    /// Give the token to the client.
    StoreToken { token: ApiToken<S> },
    /// Go on serving requests.
    PollServer,
    /// End the poll.
    Return(Progress),
}

impl<S: View, M> View for PollAction<S, M> {
    type V = PollAction<S::V, M>;

    open spec fn view(&self) -> PollAction<S::V, M> {
        match *self {
            PollAction::PollEvents => PollAction::PollEvents,
            PollAction::ForwardEvent(m) => PollAction::ForwardEvent(m),
            PollAction::CheckToken => PollAction::CheckToken,
            PollAction::ReadClientId => PollAction::ReadClientId,
            PollAction::StartRequest { client_id, scope } => PollAction::StartRequest {
                client_id: client_id@,
                scope: scope@,
            },
            PollAction::PollRequest => PollAction::PollRequest,
            PollAction::StartServer { token, device_name } => PollAction::StartServer {
                token: token@,
                device_name: device_name@,
            },
            PollAction::StoreToken { token } => PollAction::StoreToken { token: token@ },
            PollAction::PollServer => PollAction::PollServer,
            PollAction::Return(p) => PollAction::Return(p),
        }
    }
}

/// What came of asking for a token.
#[derive(Debug, PartialEq, Eq)]
pub enum TokenReply<S> {
    /// There is no answer yet.
    Pending,
    /// No token was granted.
    Failed,
    /// A token was granted at `now`, for `expires_in` seconds.
    Granted { access_token: S, expires_in: u32, now: Timestamp },
}

/// What a poll of the server goes on with. `S` is the type of texts, `M` that of the reports of
/// the player.
#[derive(Debug, PartialEq, Eq)]
pub enum PollEvent<S, M> {
    /// The server is polled.
    Begin,
    /// The report of the player that was next, if there was one.
    EventsPolled(Option<M>),
    /// What was to be done is done.
    Acknowledged,
    /// Whether a new token is needed.
    TokenChecked { needs_token: bool },
    /// The client id that is set in the environment, if one is.
    ClientIdRead(Option<S>),
    /// What came of asking for a token.
    RequestPolled(TokenReply<S>),
    /// Whether serving requests has come to its end.
    ServerPolled(Progress),
}

impl<S: View, M> View for PollEvent<S, M> {
    type V = PollEvent<S::V, M>;

    open spec fn view(&self) -> PollEvent<S::V, M> {
        match *self {
            PollEvent::Begin => PollEvent::Begin,
            PollEvent::EventsPolled(m) => PollEvent::EventsPolled(m),
            PollEvent::Acknowledged => PollEvent::Acknowledged,
            PollEvent::TokenChecked { needs_token } => PollEvent::TokenChecked { needs_token },
            PollEvent::ClientIdRead(Some(id)) => PollEvent::ClientIdRead(Some(id@)),
            PollEvent::ClientIdRead(None) => PollEvent::ClientIdRead(None),
            PollEvent::RequestPolled(TokenReply::Pending) => PollEvent::RequestPolled(
                TokenReply::Pending,
            ),
            PollEvent::RequestPolled(TokenReply::Failed) => PollEvent::RequestPolled(
                TokenReply::Failed,
            ),
            PollEvent::RequestPolled(
                TokenReply::Granted { access_token, expires_in, now },
            ) => PollEvent::RequestPolled(
                TokenReply::Granted { access_token: access_token@, expires_in, now },
            ),
            PollEvent::ServerPolled(p) => PollEvent::ServerPolled(p),
        }
    }
}

/// What a poll of the server waits for.
#[derive(Clone, Copy, Debug, PartialEq, Eq, Structural)]
pub enum Stage {
    /// The server is not being polled.
    Idle,
    PollingEvents,
    Forwarding,
    CheckingToken,
    ReadingClientId,
    StartingRequest,
    PollingRequest,
    /// A new token is being put to use.
    RenewingToken,
    PollingServer,
}

/// The server: the name of the device that it controls, whether a token is being asked for,
/// whether requests are being served, whether reports of the player are handed on, and what a
/// poll waits for. `S` is the type of texts.
#[derive(Debug)]
pub struct RestServer<S> {
    pub device_name: S,
    pub token_request: bool,
    pub rest_future: bool,
    pub event_tx: bool,
    pub stage: Stage,
}

impl<S: View> View for RestServer<S> {
    type V = RestServer<S::V>;

    open spec fn view(&self) -> RestServer<S::V> {
        RestServer {
            device_name: self.device_name@,
            token_request: self.token_request,
            rest_future: self.rest_future,
            event_tx: self.event_tx,
            stage: self.stage,
        }
    }
}

impl<S> RestServer<S> {
    /// Reports are handed on exactly while requests are served. A token is being asked for
    /// while its request is polled, and is not while a new one is put to use or requests are
    /// served with the one at hand.
    pub open spec fn well_formed(self) -> bool {
        &&& self.event_tx == self.rest_future
        &&& self.stage is PollingEvents || self.stage is Forwarding ==> self.event_tx
        &&& self.stage is PollingRequest || self.stage is StartingRequest ==> self.token_request
        &&& self.stage is ReadingClientId ==> !self.token_request
        &&& self.stage is RenewingToken || self.stage is PollingServer ==> self.rest_future
            && !self.token_request
    }

    /// `event` is what can come next.
    pub open spec fn expects<M>(self, event: PollEvent<S, M>) -> bool {
        match event {
            PollEvent::Begin => self.stage is Idle,
            PollEvent::EventsPolled(_) => self.stage is PollingEvents,
            PollEvent::Acknowledged => self.stage is Forwarding || self.stage is StartingRequest
                || self.stage is RenewingToken,
            PollEvent::TokenChecked { .. } => self.stage is CheckingToken,
            PollEvent::ClientIdRead(_) => self.stage is ReadingClientId,
            PollEvent::RequestPolled(TokenReply::Granted { expires_in, now, .. }) => self.stage
                is PollingRequest && now.can_add(expires_in),
            PollEvent::RequestPolled(_) => self.stage is PollingRequest,
            PollEvent::ServerPolled(_) => self.stage is PollingServer,
        }
    }

    pub open spec fn at(self, stage: Stage) -> RestServer<S> {
        RestServer { stage, ..self }
    }

    /// How a poll goes on once nothing is left to do about the token: requests are served,
    /// where they are already, but not while a token is being asked for.
    pub open spec fn served<M>(self) -> (RestServer<S>, PollAction<S, M>) {
        if !self.token_request && self.rest_future {
            (self.at(Stage::PollingServer), PollAction::PollServer)
        } else {
            (self.at(Stage::Idle), PollAction::Return(Progress::Pending))
        }
    }
}

/// The server after `event`, and what is to be done next.
pub open spec fn polled<M>(s: RestServer<Seq<char>>, event: PollEvent<Seq<char>, M>) -> (
    RestServer<Seq<char>>,
    PollAction<Seq<char>, M>,
) {
    match event {
        PollEvent::Begin => if s.event_tx {
            (s.at(Stage::PollingEvents), PollAction::PollEvents)
        } else {
            (s.at(Stage::CheckingToken), PollAction::CheckToken)
        },
        PollEvent::EventsPolled(Some(report)) => (
            s.at(Stage::Forwarding),
            PollAction::ForwardEvent(report),
        ),
        PollEvent::EventsPolled(None) => (s.at(Stage::CheckingToken), PollAction::CheckToken),
        PollEvent::Acknowledged => if s.stage is Forwarding {
            (s.at(Stage::CheckingToken), PollAction::CheckToken)
        } else {
            s.served()
        },
        PollEvent::TokenChecked { needs_token } => if !needs_token {
            s.served()
        } else if s.token_request {
            (s.at(Stage::PollingRequest), PollAction::PollRequest)
        } else {
            (s.at(Stage::ReadingClientId), PollAction::ReadClientId)
        },
        PollEvent::ClientIdRead(var) => (
            RestServer { token_request: true, stage: Stage::StartingRequest, ..s },
            PollAction::StartRequest {
                client_id: match var {
                    Some(id) => id,
                    None => CLIENT_ID@,
                },
                scope: SCOPE@,
            },
        ),
        PollEvent::RequestPolled(TokenReply::Pending) => s.served(),
        PollEvent::RequestPolled(TokenReply::Failed) => (
            RestServer { token_request: false, stage: Stage::Idle, ..s },
            PollAction::Return(Progress::Ready),
        ),
        PollEvent::RequestPolled(TokenReply::Granted { access_token, expires_in, now }) => {
            let token = granted(access_token, expires_in, now);
            if s.rest_future {
                (
                    RestServer { token_request: false, stage: Stage::RenewingToken, ..s },
                    PollAction::StoreToken { token },
                )
            } else {
                (
                    RestServer {
                        token_request: false,
                        rest_future: true,
                        event_tx: true,
                        stage: Stage::RenewingToken,
                        ..s
                    },
                    PollAction::StartServer { token, device_name: s.device_name },
                )
            }
        },
        PollEvent::ServerPolled(p) => (s.at(Stage::Idle), PollAction::Return(p)),
    }
}

impl RestServer<String> {
    /// The server for the device with the name `device_name`. It has no token, and serves no
    /// requests yet.
    pub fn new(device_name: String) -> (r: Self)
        ensures
            r@ == (RestServer {
                device_name: device_name@,
                token_request: false,
                rest_future: false,
                event_tx: false,
                stage: Stage::Idle,
            }),
            r@.well_formed(),
    {
        RestServer {
            device_name,
            token_request: false,
            rest_future: false,
            event_tx: false,
            stage: Stage::Idle,
        }
    }

    /// Whether `event` is what can come next.
    pub fn can_take<M>(&self, event: &PollEvent<String, M>) -> (r: bool)
        ensures
            r == self@.expects(event@),
    {
        let stage = self.stage;
        match event {
            PollEvent::Begin => stage == Stage::Idle,
            PollEvent::EventsPolled(_) => stage == Stage::PollingEvents,
            PollEvent::Acknowledged => stage == Stage::Forwarding || stage
                == Stage::StartingRequest || stage == Stage::RenewingToken,
            PollEvent::TokenChecked { .. } => stage == Stage::CheckingToken,
            PollEvent::ClientIdRead(_) => stage == Stage::ReadingClientId,
            PollEvent::RequestPolled(TokenReply::Granted { expires_in, now, .. }) => stage
                == Stage::PollingRequest && now.fits(*expires_in),
            PollEvent::RequestPolled(_) => stage == Stage::PollingRequest,
            PollEvent::ServerPolled(_) => stage == Stage::PollingServer,
        }
    }

    fn serve<M>(&mut self) -> (r: PollAction<String, M>)
        ensures
            (final(self)@, r@) == old(self)@.served::<M>(),
    {
        if !self.token_request && self.rest_future {
            self.stage = Stage::PollingServer;
            PollAction::PollServer
        } else {
            self.stage = Stage::Idle;
            PollAction::Return(Progress::Pending)
        }
    }

    /// Goes on with a poll of the server after `event`, and says what is to be done next.
    pub fn poll<M>(&mut self, event: PollEvent<String, M>) -> (r: PollAction<String, M>)
        requires
            old(self)@.well_formed(),
            old(self)@.expects(event@),
        ensures
            (final(self)@, r@) == polled(old(self)@, event@),
            final(self)@.well_formed(),
    {
        match event {
            PollEvent::Begin => {
                if self.event_tx {
                    self.stage = Stage::PollingEvents;
                    PollAction::PollEvents
                } else {
                    self.stage = Stage::CheckingToken;
                    PollAction::CheckToken
                }
            },
            PollEvent::EventsPolled(Some(report)) => {
                self.stage = Stage::Forwarding;
                PollAction::ForwardEvent(report)
            },
            PollEvent::EventsPolled(None) => {
                self.stage = Stage::CheckingToken;
                PollAction::CheckToken
            },
            PollEvent::Acknowledged => {
                if self.stage == Stage::Forwarding {
                    self.stage = Stage::CheckingToken;
                    PollAction::CheckToken
                } else {
                    self.serve()
                }
            },
            PollEvent::TokenChecked { needs_token } => {
                if !needs_token {
                    self.serve()
                } else if self.token_request {
                    self.stage = Stage::PollingRequest;
                    PollAction::PollRequest
                } else {
                    self.stage = Stage::ReadingClientId;
                    PollAction::ReadClientId
                }
            },
            PollEvent::ClientIdRead(var) => {
                self.token_request = true;
                self.stage = Stage::StartingRequest;
                let client_id = match var {
                    Some(id) => id,
                    None => CLIENT_ID.to_owned(),
                };
                PollAction::StartRequest { client_id, scope: SCOPE.to_owned() }
            },
            PollEvent::RequestPolled(TokenReply::Pending) => self.serve(),
            PollEvent::RequestPolled(TokenReply::Failed) => {
                self.token_request = false;
                self.stage = Stage::Idle;
                PollAction::Return(Progress::Ready)
            },
            PollEvent::RequestPolled(TokenReply::Granted { access_token, expires_in, now }) => {
                let token = api_token(access_token, expires_in, now);
                self.token_request = false;
                self.stage = Stage::RenewingToken;
                if self.rest_future {
                    PollAction::StoreToken { token }
                } else {
                    self.rest_future = true;
                    self.event_tx = true;
                    PollAction::StartServer { token, device_name: self.device_name.clone() }
                }
            },
            PollEvent::ServerPolled(p) => {
                self.stage = Stage::Idle;
                PollAction::Return(p)
            },
        }
    }

    /// Goes on with a poll of the server that waits to learn of the token at hand: `held` is
    /// the time until which it is valid. The poll goes on as after the answer to whether a new
    /// one is needed.
    pub fn check_token<M>(&mut self, held: Option<Option<Timestamp>>) -> (r: PollAction<
        String,
        M,
    >)
        requires
            old(self)@.well_formed(),
            old(self)@.stage is CheckingToken,
            held matches Some(Some(at)) ==> at.well_formed(),
        ensures
            final(self)@.well_formed(),
            exists|needed: bool|
                {
                    &&& (final(self)@, r@) == #[trigger] polled::<M>(
                        old(self)@,
                        PollEvent::TokenChecked { needs_token: needed },
                    )
                    &&& token_answer(held, needed)
                    &&& surely_needs_token(held) ==> needed
                },
    {
        let needed = needs_token(held);
        let r = self.poll(PollEvent::TokenChecked { needs_token: needed });
        assert((self@, r@) == polled::<M>(
            old(self)@,
            PollEvent::TokenChecked { needs_token: needed },
        ));
        r
    }
}

/// Requests are served only while no token is being asked for, and only with a token that was
/// found to be valid in the same poll, or that has just been granted: a request of the Web API
/// is never made with a token that is known to have expired.
pub proof fn served_only_with_valid_token<M>(
    s: RestServer<Seq<char>>,
    event: PollEvent<Seq<char>, M>,
)
    requires
        s.well_formed(),
        s.expects(event),
    ensures
        polled(s, event).1 is PollServer ==> {
            &&& !polled(s, event).0.token_request
            &&& polled(s, event).0.rest_future
            &&& event == (PollEvent::<Seq<char>, M>::TokenChecked { needs_token: false }) || s.stage
                is RenewingToken
        },
        polled(s, event).0.stage is RenewingToken <==> (polled(s, event).1 is StoreToken || polled(
            s,
            event,
        ).1 is StartServer),
{
}

/// Requests are served by one task, which is started once and is kept from then on. It serves
/// for the device that the server was made for.
pub proof fn server_is_started_once<M>(s: RestServer<Seq<char>>, event: PollEvent<Seq<char>, M>)
    requires
        s.well_formed(),
        s.expects(event),
    ensures
        s.rest_future ==> polled(s, event).0.rest_future,
        polled(s, event).1 matches PollAction::StartServer { device_name, .. } ==> {
            &&& !s.rest_future
            &&& polled(s, event).0.rest_future
            &&& device_name == s.device_name
        },
        polled(s, event).0.rest_future && !s.rest_future ==> polled(s, event).1 is StartServer,
        polled(s, event).0.device_name == s.device_name,
{
}

/// One token is asked for at a time: asking begins only where no answer is waited for, and ends
/// only with an answer.
pub proof fn one_token_request_at_a_time<M>(
    s: RestServer<Seq<char>>,
    event: PollEvent<Seq<char>, M>,
)
    requires
        s.well_formed(),
        s.expects(event),
    ensures
        polled(s, event).1 is StartRequest <==> !s.token_request && polled(
            s,
            event,
        ).0.token_request,
        s.token_request && !polled(s, event).0.token_request <==> (event matches
            PollEvent::RequestPolled(reply) && !(reply is Pending)),
{
}

/// The server ends only where no token was granted, or where serving requests has ended.
pub proof fn server_ends_only_without_token_or_task<M>(
    s: RestServer<Seq<char>>,
    event: PollEvent<Seq<char>, M>,
)
    requires
        s.well_formed(),
        s.expects(event),
    ensures
        polled(s, event).1 == PollAction::<Seq<char>, M>::Return(Progress::Ready) <==> {
            ||| event == PollEvent::<Seq<char>, M>::RequestPolled(TokenReply::Failed)
            ||| event == PollEvent::<Seq<char>, M>::ServerPolled(Progress::Ready)
        },
{
}

/// A step keeps the server well formed, and leads to what the next step expects.
pub proof fn steps_fit_together<M>(
    s: RestServer<Seq<char>>,
    event: PollEvent<Seq<char>, M>,
    answers: PollAnswers<M>,
)
    requires
        s.well_formed(),
        s.expects(event),
        answers.well_formed(),
    ensures
        polled(s, event).0.well_formed(),
        if polled(s, event).1 is Return {
            polled(s, event).0.stage is Idle
        } else {
            polled(s, event).0.expects(answers.to(polled(s, event).1))
        },
{
}

/// What the actions of one poll come to.
pub ghost struct PollAnswers<M> {
    pub received: Option<M>,
    pub needs_token: bool,
    pub client_id: Option<Seq<char>>,
    pub reply: TokenReply<Seq<char>>,
    pub server: Progress,
}

impl<M> PollAnswers<M> {
    pub open spec fn well_formed(self) -> bool {
        self.reply matches TokenReply::Granted { expires_in, now, .. } ==> now.can_add(expires_in)
    }

    /// What `action` comes to.
    pub open spec fn to(self, action: PollAction<Seq<char>, M>) -> PollEvent<Seq<char>, M> {
        match action {
            PollAction::PollEvents => PollEvent::EventsPolled(self.received),
            PollAction::CheckToken => PollEvent::TokenChecked { needs_token: self.needs_token },
            PollAction::ReadClientId => PollEvent::ClientIdRead(self.client_id),
            PollAction::PollRequest => PollEvent::RequestPolled(self.reply),
            PollAction::PollServer => PollEvent::ServerPolled(self.server),
            _ => PollEvent::Acknowledged,
        }
    }
}

/// A poll, from `event` on: the server afterwards, and what was done, for `steps` steps at most.
pub open spec fn poll_run<M>(
    s: RestServer<Seq<char>>,
    event: PollEvent<Seq<char>, M>,
    answers: PollAnswers<M>,
    steps: nat,
) -> (RestServer<Seq<char>>, Seq<PollAction<Seq<char>, M>>)
    decreases steps,
{
    let (next, action) = polled(s, event);
    if action is Return || steps <= 1 {
        (next, seq![action])
    } else {
        let (end, rest) = poll_run(next, answers.to(action), answers, (steps - 1) as nat);
        (end, seq![action] + rest)
    }
}

/// What a poll does about the reports of the player.
pub open spec fn about_reports<M>(s: RestServer<Seq<char>>, a: PollAnswers<M>) -> Seq<
    PollAction<Seq<char>, M>,
> {
    if !s.event_tx {
        Seq::empty()
    } else if let Some(report) = a.received {
        seq![PollAction::PollEvents, PollAction::ForwardEvent(report)]
    } else {
        seq![PollAction::PollEvents]
    }
}

/// What a poll does once it is known whether a token is needed.
pub open spec fn about_token<M>(s: RestServer<Seq<char>>, a: PollAnswers<M>) -> Seq<
    PollAction<Seq<char>, M>,
> {
    let serve = seq![PollAction::PollServer, PollAction::Return(a.server)];
    let wait = seq![PollAction::Return(Progress::Pending)];
    if !a.needs_token {
        if !s.token_request && s.rest_future {
            serve
        } else {
            wait
        }
    } else if !s.token_request {
        seq![
            PollAction::ReadClientId,
            PollAction::StartRequest {
                client_id: match a.client_id {
                    Some(id) => id,
                    None => CLIENT_ID@,
                },
                scope: SCOPE@,
            },
        ] + wait
    } else {
        seq![PollAction::PollRequest] + match a.reply {
            TokenReply::Pending => wait,
            TokenReply::Failed => seq![PollAction::Return(Progress::Ready)],
            TokenReply::Granted { access_token, expires_in, now } => {
                let token = granted(access_token, expires_in, now);
                seq![
                    if s.rest_future {
                        PollAction::StoreToken { token }
                    } else {
                        PollAction::StartServer { token, device_name: s.device_name }
                    },
                ] + serve
            },
        }
    }
}

proof fn lemma_about_token<M>(s: RestServer<Seq<char>>, a: PollAnswers<M>, steps: nat)
    requires
        s.well_formed(),
        s.stage is CheckingToken,
        a.well_formed(),
        steps >= 4,
    ensures
        ({
            let (end, actions) = poll_run(s, a.to(PollAction::CheckToken), a, steps);
            &&& end.stage is Idle
            &&& end.well_formed()
            &&& actions == about_token(s, a)
        }),
{
    reveal_with_fuel(poll_run, 4);
}

/// What a poll of the server comes to as a whole. It ends after seven actions at most. A report
/// of the player is handed on first. Where no token is needed, requests are served, unless a
/// token is still being asked for; where one is needed, asking for it begins or goes on, and
/// requests are served only once it is there and has been put to use.
pub proof fn poll_as_a_whole<M>(s: RestServer<Seq<char>>, a: PollAnswers<M>)
    requires
        s.well_formed(),
        s.stage is Idle,
        a.well_formed(),
    ensures
        poll_run(s, PollEvent::Begin, a, 7).0.stage is Idle,
        poll_run(s, PollEvent::Begin, a, 7).0.well_formed(),
        poll_run(s, PollEvent::Begin, a, 7).1 == about_reports(s, a)
            + seq![PollAction::CheckToken] + about_token(s, a),
{
    let checking = s.at(Stage::CheckingToken);
    let check = a.to(PollAction::CheckToken);
    let polling = s.at(Stage::PollingEvents);
    let received = PollEvent::<Seq<char>, M>::EventsPolled(a.received);
    let forwarding = s.at(Stage::Forwarding);
    assert(about_token(checking, a) == about_token(s, a));
    if !s.event_tx {
        lemma_about_token(checking, a, 6);
        assert(poll_run(s, PollEvent::Begin, a, 7).0 == poll_run(checking, check, a, 6).0);
    } else if a.received is None {
        lemma_about_token(checking, a, 5);
        assert(poll_run(polling, received, a, 6).0 == poll_run(checking, check, a, 5).0);
        assert(poll_run(s, PollEvent::Begin, a, 7).0 == poll_run(polling, received, a, 6).0);
    } else {
        let done = PollEvent::<Seq<char>, M>::Acknowledged;
        lemma_about_token(checking, a, 4);
        assert(poll_run(forwarding, done, a, 5).0 == poll_run(checking, check, a, 4).0);
        assert(poll_run(polling, received, a, 6).0 == poll_run(forwarding, done, a, 5).0);
        assert(poll_run(s, PollEvent::Begin, a, 7).0 == poll_run(polling, received, a, 6).0);
    }
}

/// The reports that `actions` hand on, in order.
pub open spec fn forwarded_in<M>(actions: Seq<PollAction<Seq<char>, M>>) -> Seq<M>
    decreases actions.len(),
{
    if actions.len() == 0 {
        Seq::empty()
    } else {
        forwarded_in(actions.drop_last()) + match actions.last() {
            PollAction::ForwardEvent(report) => seq![report],
            _ => Seq::empty(),
        }
    }
}

/// A poll, with what comes before it: the reports that the player sends, and whether the one
/// that has waited longest can be had.
pub ghost struct Turn<M> {
    pub sent: Seq<M>,
    pub ready: bool,
    pub needs_token: bool,
    pub client_id: Option<Seq<char>>,
    pub reply: TokenReply<Seq<char>>,
    pub server: Progress,
}

/// The server, the reports that wait to be taken, and those that were handed on so far.
pub ghost struct History<M> {
    pub server: RestServer<Seq<char>>,
    pub waiting: Seq<M>,
    pub forwarded: Seq<M>,
}

impl<M> Turn<M> {
    /// What the actions of the poll come to, where the reports in `queue` wait.
    pub open spec fn answers(self, queue: Seq<M>) -> PollAnswers<M> {
        PollAnswers {
            received: if self.ready && queue.len() > 0 {
                Some(queue[0])
            } else {
                None
            },
            needs_token: self.needs_token,
            client_id: self.client_id,
            reply: self.reply,
            server: self.server,
        }
    }

    pub open spec fn well_formed(self) -> bool {
        self.reply matches TokenReply::Granted { expires_in, now, .. } ==> now.can_add(expires_in)
    }
}

impl<M> History<M> {
    /// The server is not being polled.
    pub open spec fn well_formed(self) -> bool {
        self.server.well_formed() && self.server.stage is Idle
    }

    /// The reports that wait when the server is polled.
    pub open spec fn queue(self, turn: Turn<M>) -> Seq<M> {
        self.waiting + turn.sent
    }

    /// The poll: the server afterwards, and what was done.
    pub open spec fn poll(self, turn: Turn<M>) -> (
        RestServer<Seq<char>>,
        Seq<PollAction<Seq<char>, M>>,
    ) {
        poll_run(self.server, PollEvent::Begin, turn.answers(self.queue(turn)), 7)
    }

    /// What follows from a poll. A report that was looked for and could be had waits no more.
    pub open spec fn after(self, turn: Turn<M>) -> History<M> {
        let queue = self.queue(turn);
        let (server, actions) = self.poll(turn);
        let taken = actions.contains(PollAction::PollEvents) && turn.answers(queue).received
            is Some;
        History {
            server,
            waiting: if taken {
                queue.drop_first()
            } else {
                queue
            },
            forwarded: self.forwarded + forwarded_in(actions),
        }
    }

    /// What follows from one poll after another.
    pub open spec fn after_all(self, turns: Seq<Turn<M>>) -> History<M>
        decreases turns.len(),
    {
        if turns.len() == 0 {
            self
        } else {
            self.after_all(turns.drop_last()).after(turns.last())
        }
    }
}

/// All that the player sends in `turns`, in order.
pub open spec fn all_sent<M>(turns: Seq<Turn<M>>) -> Seq<M>
    decreases turns.len(),
{
    if turns.len() == 0 {
        Seq::empty()
    } else {
        all_sent(turns.drop_last()) + turns.last().sent
    }
}

proof fn lemma_forwarded_in_parts<M>(
    a: Seq<PollAction<Seq<char>, M>>,
    b: Seq<PollAction<Seq<char>, M>>,
)
    requires
        forall|i: int| 0 <= i < b.len() ==> !(#[trigger] b[i] is ForwardEvent),
    ensures
        forwarded_in(a + b) == forwarded_in(a),
    decreases b.len(),
{
    if b.len() == 0 {
        assert(a + b == a);
    } else {
        assert((a + b).drop_last() == a + b.drop_last());
        assert((a + b).last() == b.last());
        lemma_forwarded_in_parts(a, b.drop_last());
    }
}

/// A poll deals with reports at its beginning, and not any more after that.
proof fn lemma_reports_come_first<M>(s: RestServer<Seq<char>>, a: PollAnswers<M>) -> (rest: Seq<
    PollAction<Seq<char>, M>,
>)
    requires
        s.well_formed(),
        s.stage is Idle,
        a.well_formed(),
    ensures
        poll_run(s, PollEvent::Begin, a, 7).1 == about_reports(s, a) + rest,
        forall|i: int|
            0 <= i < rest.len() ==> !(#[trigger] rest[i] is ForwardEvent) && !(rest[i]
                is PollEvents),
{
    poll_as_a_whole(s, a);
    let rest = seq![PollAction::CheckToken] + about_token(s, a);
    assert(poll_run(s, PollEvent::Begin, a, 7).1 == about_reports(s, a) + rest);
    rest
}

/// The reports that the beginning of a poll hands on.
proof fn lemma_forwarded_first<M>(s: RestServer<Seq<char>>, a: PollAnswers<M>)
    ensures
        forwarded_in(about_reports(s, a)) == if s.event_tx && a.received is Some {
            seq![a.received->0]
        } else {
            Seq::empty()
        },
{
    let first = about_reports(s, a);
    reveal_with_fuel(forwarded_in, 3);
    if s.event_tx && a.received is Some {
        assert(first.drop_last() == seq![PollAction::<Seq<char>, M>::PollEvents]);
        assert(first.drop_last().drop_last() == Seq::<PollAction<Seq<char>, M>>::empty());
    } else if s.event_tx {
        assert(first.drop_last() == Seq::<PollAction<Seq<char>, M>>::empty());
    }
}

/// One poll hands on one report at most. While requests are not served yet, none is looked for,
/// and all of them wait. Afterwards the one that has waited longest is looked for once, before
/// anything else is done, and is handed on in the same poll, unchanged, where it can be had. No
/// poll loses a report, repeats one, or changes their order.
pub proof fn one_report_at_a_time<M>(h: History<M>, turn: Turn<M>)
    requires
        h.well_formed(),
        turn.well_formed(),
    ensures
        h.after(turn).well_formed(),
        forall|i: int|
            0 <= i < h.poll(turn).1.len() ==> (#[trigger] h.poll(turn).1[i] is PollEvents <==> i
                == 0 && h.server.event_tx),
        h.after(turn).forwarded == if h.server.event_tx && turn.ready && h.queue(turn).len() > 0 {
            h.forwarded.push(h.queue(turn)[0])
        } else {
            h.forwarded
        },
        h.after(turn).forwarded + h.after(turn).waiting == h.forwarded + h.waiting + turn.sent,
{
    let queue = h.queue(turn);
    let a = turn.answers(queue);
    let actions = h.poll(turn).1;
    assert(h.after(turn).well_formed()) by {
        poll_as_a_whole(h.server, a);
    }
    let first = about_reports(h.server, a);
    let rest = lemma_reports_come_first(h.server, a);
    lemma_forwarded_in_parts(first, rest);
    lemma_forwarded_first(h.server, a);
    if h.server.event_tx {
        assert(actions[0] is PollEvents);
        if a.received is Some {
            assert(queue == seq![queue[0]] + queue.drop_first());
        }
    }
    assert(h.after(turn).forwarded + h.after(turn).waiting == h.forwarded + queue);
    assert(h.forwarded + h.waiting + turn.sent == h.forwarded + queue);
}

/// Over any number of polls no report of the player is lost, repeated or changed: those that
/// were handed on, followed by those that wait, are those that were there before and those that
/// were sent since, in order.
pub proof fn no_report_is_lost<M>(h: History<M>, turns: Seq<Turn<M>>)
    requires
        h.well_formed(),
        forall|i: int| 0 <= i < turns.len() ==> (#[trigger] turns[i]).well_formed(),
    ensures
        h.after_all(turns).well_formed(),
        h.after_all(turns).forwarded + h.after_all(turns).waiting == h.forwarded + h.waiting
            + all_sent(turns),
    decreases turns.len(),
{
    if turns.len() > 0 {
        let before = h.after_all(turns.drop_last());
        no_report_is_lost(h, turns.drop_last());
        one_report_at_a_time(before, turns.last());
        assert(h.forwarded + h.waiting + all_sent(turns) == h.forwarded + h.waiting + all_sent(
            turns.drop_last(),
        ) + turns.last().sent);
    } else {
        assert(h.forwarded + h.waiting + all_sent(turns) == h.forwarded + h.waiting);
    }
}

/// What the task that serves requests gets of the player is the beginning of what the player
/// sent, also of what it sent before that task was there: it gets the first report first, and
/// none that comes later before one that comes earlier.
pub proof fn reports_come_in_order<M>(h: History<M>, turns: Seq<Turn<M>>)
    requires
        h.well_formed(),
        h.waiting.len() == 0,
        h.forwarded.len() == 0,
        forall|i: int| 0 <= i < turns.len() ==> (#[trigger] turns[i]).well_formed(),
    ensures
        h.after_all(turns).forwarded.is_prefix_of(all_sent(turns)),
        h.after_all(turns).waiting == all_sent(turns).skip(
            h.after_all(turns).forwarded.len() as int,
        ),
{
    no_report_is_lost(h, turns);
    let end = h.after_all(turns);
    assert(end.forwarded + end.waiting == all_sent(turns));
    assert(end.waiting == (end.forwarded + end.waiting).skip(end.forwarded.len() as int));
}

/// A poll begins by looking for a report of the player where reports are handed on, and by
/// checking the token where they are not. The report that is found is handed on as it is; after
/// that, or where there is none, the token is checked. Nothing else about the server changes.
pub proof fn reports_are_handed_on_as_they_are<M>(s: RestServer<Seq<char>>, report: M)
    ensures
        polled::<M>(s, PollEvent::Begin).1 is PollEvents <==> s.event_tx,
        polled::<M>(s, PollEvent::Begin).1 is CheckToken <==> !s.event_tx,
        polled(s, PollEvent::EventsPolled(Some(report))).1 == PollAction::<
            Seq<char>,
            M,
        >::ForwardEvent(report),
        polled::<M>(s, PollEvent::EventsPolled(None)).1 is CheckToken,
        s.stage is Forwarding ==> polled::<M>(s, PollEvent::Acknowledged).1 is CheckToken,
        polled::<M>(s, PollEvent::Begin).0 == (RestServer {
            stage: if s.event_tx {
                Stage::PollingEvents
            } else {
                Stage::CheckingToken
            },
            ..s
        }),
        polled(s, PollEvent::EventsPolled(Some(report))).0 == (RestServer {
            stage: Stage::Forwarding,
            ..s
        }),
        polled::<M>(s, PollEvent::EventsPolled(None)).0 == (RestServer {
            stage: Stage::CheckingToken,
            ..s
        }),
        s.stage is Forwarding ==> polled::<M>(s, PollEvent::Acknowledged).0 == (RestServer {
            stage: Stage::CheckingToken,
            ..s
        }),
{
}

/// What follows from whether a token is needed. Where it is, the answer to a request for one is
/// looked for if there is a request, and one is begun if there is none, with the client id that
/// is set in the environment, whatever it is, or else with that of the server, and for all that
/// the server does. Where it is not, requests are served if they are already and no token is
/// being asked for, and the poll ends otherwise.
pub proof fn tokens_are_asked_for_when_needed<M>(s: RestServer<Seq<char>>, id: Seq<char>)
    ensures
        ({
            let wanted = polled::<M>(s, PollEvent::TokenChecked { needs_token: true });
            let good = polled::<M>(s, PollEvent::TokenChecked { needs_token: false });
            let given = polled::<M>(s, PollEvent::ClientIdRead(Some(id)));
            let not_given = polled::<M>(s, PollEvent::ClientIdRead(None));
            &&& wanted.1 is PollRequest <==> s.token_request
            &&& wanted.1 is ReadClientId <==> !s.token_request
            &&& wanted.0 == (RestServer {
                stage: if s.token_request {
                    Stage::PollingRequest
                } else {
                    Stage::ReadingClientId
                },
                ..s
            })
            &&& given.1 matches PollAction::StartRequest { client_id, scope } && client_id == id
                && scope == SCOPE@
            &&& not_given.1 matches PollAction::StartRequest { client_id, scope } && client_id
                == CLIENT_ID@ && scope == SCOPE@
            &&& given.0 == (RestServer {
                token_request: true,
                stage: Stage::StartingRequest,
                ..s
            })
            &&& not_given.0 == given.0
            &&& good.1 is PollServer <==> s.rest_future && !s.token_request
            &&& good.1 == PollAction::<Seq<char>, M>::Return(Progress::Pending) <==> !(
            s.rest_future && !s.token_request)
            &&& good.0 == (RestServer {
                stage: if s.rest_future && !s.token_request {
                    Stage::PollingServer
                } else {
                    Stage::Idle
                },
                ..s
            })
        }),
        CLIENT_ID@ == "2c1ea588dfbc4a989e2426f8385297c3"@,
        SCOPE@
            == "user-read-playback-state,user-read-private,user-read-email,playlist-read-private,user-library-read,user-library-modify,user-top-read,playlist-read-collaborative,playlist-modify-public,playlist-modify-private,user-follow-read,user-follow-modify,user-read-currently-playing,user-modify-playback-state,user-read-recently-played"@,
{
}

/// What follows from the answer to a request for a token. The token that was granted is put to
/// use as it was granted: with its text, for its seconds, and until as many seconds after it was
/// granted, counted from whatever time that was. The server is started with it, for the device
/// that it was made for, where there is none yet, and otherwise gets it in place of the old one;
/// then requests are served. Where no token was granted the server ends, and while there is no
/// answer the poll does.
pub proof fn tokens_are_used_as_granted<M>(
    s: RestServer<Seq<char>>,
    access_token: Seq<char>,
    expires_in: u32,
    now: Timestamp,
)
    requires
        now.can_add(expires_in),
    ensures
        ({
            let reply = TokenReply::Granted { access_token, expires_in, now };
            let (next, action) = polled::<M>(s, PollEvent::RequestPolled(reply));
            &&& action matches PollAction::StoreToken { token } ==> token == granted(
                access_token,
                expires_in,
                now,
            )
            &&& action matches PollAction::StartServer { token, .. } ==> token == granted(
                access_token,
                expires_in,
                now,
            )
            &&& match action {
                PollAction::StoreToken { token } => s.rest_future && token.access_token
                    == access_token && token.expires_in == expires_in && token.expires_at is Some
                    && token.expires_at->0.secs - now.secs == expires_in && (now.nanos
                    < 1_000_000_000 ==> token.expires_at->0.nanos == now.nanos),
                PollAction::StartServer { token, device_name } => !s.rest_future && device_name
                    == s.device_name && token.access_token == access_token && token.expires_in
                    == expires_in && token.expires_at is Some && token.expires_at->0.secs
                    - now.secs == expires_in && (now.nanos < 1_000_000_000
                    ==> token.expires_at->0.nanos == now.nanos),
                _ => false,
            }
            &&& next.device_name == s.device_name
            &&& !next.token_request
            &&& next.rest_future
            &&& next.event_tx == (s.event_tx || !s.rest_future)
            &&& next.stage == Stage::RenewingToken
            &&& polled::<M>(next, PollEvent::Acknowledged).1 is PollServer
            &&& polled::<M>(next, PollEvent::Acknowledged).0 == (RestServer {
                stage: Stage::PollingServer,
                ..next
            })
        }),
        polled::<M>(s, PollEvent::RequestPolled(TokenReply::Failed)) == (
            RestServer { token_request: false, stage: Stage::Idle, ..s },
            PollAction::<Seq<char>, M>::Return(Progress::Ready),
        ),
        s.token_request ==> polled::<M>(s, PollEvent::RequestPolled(TokenReply::Pending)) == (
            RestServer { stage: Stage::Idle, ..s },
            PollAction::<Seq<char>, M>::Return(Progress::Pending),
        ),
{
}

/// The poll in which a request for a token is begun ends with that. Once a new token has been
/// put to use, requests are served. A poll that serves requests ends as serving them does.
pub proof fn polls_end_as_they_should<M>(s: RestServer<Seq<char>>, p: Progress)
    ensures
        s.stage is StartingRequest && s.token_request ==> polled::<M>(s, PollEvent::Acknowledged)
            == (
            RestServer { stage: Stage::Idle, ..s },
            PollAction::<Seq<char>, M>::Return(Progress::Pending),
        ),
        s.stage is RenewingToken && s.rest_future && !s.token_request ==> polled::<M>(
            s,
            PollEvent::Acknowledged,
        ) == (
            RestServer { stage: Stage::PollingServer, ..s },
            PollAction::<Seq<char>, M>::PollServer,
        ),
        polled::<M>(s, PollEvent::ServerPolled(p)) == (
            RestServer { stage: Stage::Idle, ..s },
            PollAction::<Seq<char>, M>::Return(p),
        ),
{
}

/// What can come next, for each thing that a poll waits for: the answer to what was to be done,
/// and of a token that was granted, one with a time that can be told.
pub proof fn answers_come_in_turn<M>(s: RestServer<Seq<char>>, event: PollEvent<Seq<char>, M>)
    ensures
        s.expects(event) <==> match event {
            PollEvent::Begin => s.stage is Idle,
            PollEvent::EventsPolled(_) => s.stage is PollingEvents,
            PollEvent::Acknowledged => s.stage is Forwarding || s.stage is StartingRequest
                || s.stage is RenewingToken,
            PollEvent::TokenChecked { .. } => s.stage is CheckingToken,
            PollEvent::ClientIdRead(_) => s.stage is ReadingClientId,
            PollEvent::RequestPolled(reply) => s.stage is PollingRequest && (reply matches
                TokenReply::Granted { expires_in, now, .. } ==> now.can_add(expires_in)),
            PollEvent::ServerPolled(_) => s.stage is PollingServer,
        },
{
}

/// Contracts speak of the server by all of its fields.
pub proof fn server_view_keeps_fields<S: View>(s: RestServer<S>)
    ensures
        s@.device_name == s.device_name@,
        s@.token_request == s.token_request,
        s@.rest_future == s.rest_future,
        s@.event_tx == s.event_tx,
        s@.stage == s.stage,
{
}

/// Contracts speak of an action by its kind and by all that it holds.
pub proof fn action_view_keeps_fields<S: View, M>(action: PollAction<S, M>)
    ensures
        match action {
            PollAction::PollEvents => action@ is PollEvents,
            PollAction::ForwardEvent(m) => action@ == PollAction::<S::V, M>::ForwardEvent(m),
            PollAction::CheckToken => action@ is CheckToken,
            PollAction::ReadClientId => action@ is ReadClientId,
            PollAction::StartRequest { client_id, scope } => action@ == (PollAction::<
                S::V,
                M,
            >::StartRequest { client_id: client_id@, scope: scope@ }),
            PollAction::PollRequest => action@ is PollRequest,
            PollAction::StartServer { token, device_name } => action@ == (PollAction::<
                S::V,
                M,
            >::StartServer { token: token@, device_name: device_name@ }),
            PollAction::StoreToken { token } => action@ == (PollAction::<S::V, M>::StoreToken {
                token: token@,
            }),
            PollAction::PollServer => action@ is PollServer,
            PollAction::Return(p) => action@ == PollAction::<S::V, M>::Return(p),
        },
{
}

/// Contracts speak of what a poll goes on with by its kind and by all that it holds.
pub proof fn poll_event_view_keeps_fields<S: View, M>(event: PollEvent<S, M>)
    ensures
        match event {
            PollEvent::Begin => event@ is Begin,
            PollEvent::EventsPolled(m) => event@ == PollEvent::<S::V, M>::EventsPolled(m),
            PollEvent::Acknowledged => event@ is Acknowledged,
            PollEvent::TokenChecked { needs_token } => event@ == (PollEvent::<
                S::V,
                M,
            >::TokenChecked { needs_token }),
            PollEvent::ClientIdRead(None) => event@ == PollEvent::<S::V, M>::ClientIdRead(None),
            PollEvent::ClientIdRead(Some(id)) => event@ == PollEvent::<S::V, M>::ClientIdRead(
                Some(id@),
            ),
            PollEvent::RequestPolled(TokenReply::Pending) => event@ == PollEvent::<
                S::V,
                M,
            >::RequestPolled(TokenReply::Pending),
            PollEvent::RequestPolled(TokenReply::Failed) => event@ == PollEvent::<
                S::V,
                M,
            >::RequestPolled(TokenReply::Failed),
            PollEvent::RequestPolled(
                TokenReply::Granted { access_token, expires_in, now },
            ) => event@ == PollEvent::<S::V, M>::RequestPolled(
                TokenReply::Granted { access_token: access_token@, expires_in, now },
            ),
            PollEvent::ServerPolled(p) => event@ == PollEvent::<S::V, M>::ServerPolled(p),
        },
{
}

} // verus!
