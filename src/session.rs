use crate::reply::{
    cannot_connect_reply, connection_failed_reply, greeting_reply, healthy_reply, not_ready_reply,
    not_responding_reply, ready_reply, Reply, ReplyView,
};
use vstd::prelude::*;

verus! {

/// The amount a greeting adds to its name's counter.
pub const GREETING_INCREMENT: i64 = 1;

/// The request being served.
#[derive(Debug, Clone, PartialEq, Eq)]
pub enum Endpoint {
    /// `GET /hello?name=<name>`.
    Hello { name: String },
    /// `GET /health`: liveness, the store must answer a ping.
    Health,
    /// `GET /readiness`: a connection to the store can be established.
    Readiness,
}

pub enum EndpointView {
    Hello { name: Seq<char> },
    Health,
    Readiness,
}

impl View for Endpoint {
    type V = EndpointView;

    open spec fn view(&self) -> EndpointView {
        match self {
            Endpoint::Hello { name } => EndpointView::Hello { name: name@ },
            Endpoint::Health => EndpointView::Health,
            Endpoint::Readiness => EndpointView::Readiness,
        }
    }
}

/// What the store did with the last action handed out.
#[derive(Debug, Clone, Copy, PartialEq, Eq, Structural)]
pub enum Event {
    ConnectSucceeded,
    ConnectFailed,
    /// The counter increment finished; `stored` says whether it took effect.
    /// A greeting is sent either way.
    IncrementFinished { stored: bool },
    PingSucceeded,
    PingFailed,
}

/// Where a session waits.
#[derive(Debug, Clone, Copy, PartialEq, Eq, Structural)]
pub enum Stage {
    AwaitConnect,
    AwaitIncrement,
    AwaitPing,
    Finished,
}

/// What the caller is to do next on the session's behalf.
#[derive(Debug, Clone, PartialEq, Eq)]
pub enum Action {
    /// Obtain a connection to the store.
    Connect,
    /// Add `by` to the counter under `key`; the outcome does not change the reply.
    Increment { key: String, by: i64 },
    /// Send the store a liveness ping.
    Ping,
    /// Send this reply; the session is over.
    Respond(Reply),
}

pub enum ActionView {
    Connect,
    Increment { key: Seq<char>, by: i64 },
    Ping,
    Respond(ReplyView),
}

impl View for Action {
    type V = ActionView;

    open spec fn view(&self) -> ActionView {
        match self {
            Action::Connect => ActionView::Connect,
            Action::Increment { key, by } => ActionView::Increment { key: key@, by: *by },
            Action::Ping => ActionView::Ping,
            Action::Respond(r) => ActionView::Respond(r@),
        }
    }
}

/// One request in flight.
#[derive(Debug)]
pub struct Session {
    endpoint: Endpoint,
    stage: Stage,
}

pub struct SessionView {
    pub endpoint: EndpointView,
    pub stage: Stage,
}

impl View for Session {
    type V = SessionView;

    closed spec fn view(&self) -> SessionView {
        SessionView { endpoint: self.endpoint@, stage: self.stage }
    }
}

/// The counter key of a greeting: `greetings:<name>`.
pub open spec fn counter_key_text(name: Seq<char>) -> Seq<char> {
    "greetings:"@ + name
}

impl SessionView {
    /// The stage is one that this endpoint passes through.
    pub open spec fn wf(self) -> bool {
        match self.stage {
            Stage::AwaitIncrement => self.endpoint is Hello,
            Stage::AwaitPing => self.endpoint is Health,
            _ => true,
        }
    }

    /// The events that can answer the action the session last handed out.
    pub open spec fn accepts(self, e: Event) -> bool {
        match self.stage {
            Stage::AwaitConnect => e is ConnectSucceeded || e is ConnectFailed,
            Stage::AwaitIncrement => e is IncrementFinished,
            Stage::AwaitPing => e is PingSucceeded || e is PingFailed,
            Stage::Finished => false,
        }
    }
}

/// A new session and its first action: every request begins by connecting.
pub open spec fn start(endpoint: EndpointView) -> (SessionView, ActionView) {
    (SessionView { endpoint, stage: Stage::AwaitConnect }, ActionView::Connect)
}

pub open spec fn finish(s: SessionView, reply: ReplyView) -> (SessionView, ActionView) {
    (SessionView { stage: Stage::Finished, ..s }, ActionView::Respond(reply))
}

/// The next session and action after `e`.
pub open spec fn step(s: SessionView, e: Event) -> (SessionView, ActionView)
    recommends
        s.wf(),
        s.accepts(e),
{
    match s.stage {
        Stage::AwaitConnect => match (s.endpoint, e) {
            (EndpointView::Hello { name }, Event::ConnectSucceeded) => (
                SessionView { stage: Stage::AwaitIncrement, ..s },
                ActionView::Increment { key: counter_key_text(name), by: GREETING_INCREMENT },
            ),
            (EndpointView::Hello { .. }, _) => finish(s, connection_failed_reply()),
            (EndpointView::Health, Event::ConnectSucceeded) => (
                SessionView { stage: Stage::AwaitPing, ..s },
                ActionView::Ping,
            ),
            (EndpointView::Health, _) => finish(s, cannot_connect_reply()),
            (EndpointView::Readiness, Event::ConnectSucceeded) => finish(s, ready_reply()),
            (EndpointView::Readiness, _) => finish(s, not_ready_reply()),
        },
        Stage::AwaitIncrement => match s.endpoint {
            EndpointView::Hello { name } => finish(s, greeting_reply(name)),
            _ => (s, ActionView::Connect),
        },
        Stage::AwaitPing => match e {
            Event::PingSucceeded => finish(s, healthy_reply()),
            _ => finish(s, not_responding_reply()),
        },
        Stage::Finished => (s, ActionView::Connect),
    }
}

/// Builds the counter key of a greeting: `greetings:<name>`.
pub fn counter_key(name: &str) -> (r: String)
    ensures
        r@ == counter_key_text(name@),
{
    let mut key = String::from_str("greetings:");
    key.append(name);
    key
}

impl Session {
    /// Opens a session for `endpoint` and returns its first action.
    pub fn start(endpoint: Endpoint) -> (r: (Session, Action))
        ensures
            (r.0@, r.1@) == start(endpoint@),
            r.0@.wf(),
    {
        (Session { endpoint, stage: Stage::AwaitConnect }, Action::Connect)
    }

    pub fn endpoint(&self) -> (r: &Endpoint)
        ensures
            r@ == self@.endpoint,
    {
        &self.endpoint
    }

    pub fn stage(&self) -> (r: Stage)
        ensures
            r == self@.stage,
    {
        self.stage
    }

    /// Whether the session has sent its reply.
    pub fn is_finished(&self) -> (r: bool)
        ensures
            r == (self@.stage is Finished),
    {
        match self.stage {
            Stage::Finished => true,
            _ => false,
        }
    }

    /// Whether `e` can answer the action the session last handed out.
    pub fn accepts(&self, e: Event) -> (r: bool)
        ensures
            r == self@.accepts(e),
    {
        match self.stage {
            Stage::AwaitConnect => match e {
                Event::ConnectSucceeded | Event::ConnectFailed => true,
                _ => false,
            },
            Stage::AwaitIncrement => match e {
                Event::IncrementFinished { .. } => true,
                _ => false,
            },
            Stage::AwaitPing => match e {
                Event::PingSucceeded | Event::PingFailed => true,
                _ => false,
            },
            Stage::Finished => false,
        }
    }

    /// Advances the session by the outcome `e` of its last action and returns the next action.
    pub fn on_event(&mut self, e: Event) -> (a: Action)
        requires
            old(self)@.wf(),
            old(self)@.accepts(e),
        ensures
            (final(self)@, a@) == step(old(self)@, e),
            final(self)@.wf(),
    {
        match self.stage {
            Stage::AwaitConnect => {
                let connected = match e {
                    Event::ConnectSucceeded => true,
                    _ => false,
                };
                match &self.endpoint {
                    Endpoint::Hello { name } => {
                        if connected {
                            let key = counter_key(name.as_str());
                            self.stage = Stage::AwaitIncrement;
                            Action::Increment { key, by: GREETING_INCREMENT }
                        } else {
                            self.stage = Stage::Finished;
                            Action::Respond(Reply::connection_failed())
                        }
                    },
                    Endpoint::Health => {
                        if connected {
                            self.stage = Stage::AwaitPing;
                            Action::Ping
                        } else {
                            self.stage = Stage::Finished;
                            Action::Respond(Reply::cannot_connect())
                        }
                    },
                    Endpoint::Readiness => {
                        self.stage = Stage::Finished;
                        if connected {
                            Action::Respond(Reply::ready())
                        } else {
                            Action::Respond(Reply::not_ready())
                        }
                    },
                }
            },
            Stage::AwaitIncrement => {
                let reply = match &self.endpoint {
                    Endpoint::Hello { name } => Reply::greet(name.as_str()),
                    _ => Reply::connection_failed(),
                };
                self.stage = Stage::Finished;
                Action::Respond(reply)
            },
            _ => {
                self.stage = Stage::Finished;
                match e {
                    Event::PingSucceeded => Action::Respond(Reply::healthy()),
                    _ => Action::Respond(Reply::not_responding()),
                }
            },
        }
    }
}

} // verus!
