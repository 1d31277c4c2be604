use crate::reply::{
    cannot_connect_reply, connection_failed_reply, greeting_reply, healthy_reply, not_ready_reply,
    not_responding_reply, ready_reply,
};
use crate::session::{
    counter_key_text, start, step, ActionView, EndpointView, Event, SessionView, Stage,
    GREETING_INCREMENT,
};
use vstd::prelude::*;

verus! {

pub open spec fn connect_outcome(connected: bool) -> Event {
    if connected {
        Event::ConnectSucceeded
    } else {
        Event::ConnectFailed
    }
}

pub open spec fn ping_outcome(answered: bool) -> Event {
    if answered {
        Event::PingSucceeded
    } else {
        Event::PingFailed
    }
}

/// Once connected, a greeting for any name adds one to the counter `greetings:<name>`
/// and then replies 200 with exactly `Hello, <name>!`, whether or not the increment
/// took effect. Without a connection it replies 500 `Redis connection failed`.
pub proof fn lemma_greeting(name: Seq<char>, stored: bool)
    ensures
        ({
            let s1 = start(EndpointView::Hello { name }).0;
            let (s2, a2) = step(s1, Event::ConnectSucceeded);
            let (s3, a3) = step(s2, Event::IncrementFinished { stored });
            &&& a2 == ActionView::Increment { key: counter_key_text(name), by: GREETING_INCREMENT }
            &&& GREETING_INCREMENT == 1
            &&& a3 == ActionView::Respond(greeting_reply(name))
            &&& a3 == step(s2, Event::IncrementFinished { stored: !stored }).1
            &&& s3.stage is Finished
            &&& step(s1, Event::ConnectFailed).1 == ActionView::Respond(connection_failed_reply())
        }),
{
}

/// The liveness probe replies 200 `healthy` exactly when it connects and the store
/// answers the ping; otherwise 503, saying whether the store could not be reached
/// or did not answer.
pub proof fn lemma_health(connected: bool, answered: bool)
    ensures
        ({
            let s1 = start(EndpointView::Health).0;
            let (s2, a2) = step(s1, connect_outcome(connected));
            let last = if connected {
                step(s2, ping_outcome(answered)).1
            } else {
                a2
            };
            &&& connected ==> a2 == ActionView::Ping
            &&& last == ActionView::Respond(
                if !connected {
                    cannot_connect_reply()
                } else if answered {
                    healthy_reply()
                } else {
                    not_responding_reply()
                },
            )
            &&& (last->0.code == 200) <==> (connected && answered)
            &&& (last->0.code == 200) ==> last->0.text == "healthy"@
            &&& (last->0.code != 200) ==> last->0.code == 503
        }),
{
}

/// The readiness probe only connects: it replies 200 `ready` exactly when the
/// connection is established, and 503 `not ready` otherwise.
pub proof fn lemma_readiness(connected: bool)
    ensures
        ({
            let (s2, a2) = step(start(EndpointView::Readiness).0, connect_outcome(connected));
            &&& a2 == ActionView::Respond(
                if connected {
                    ready_reply()
                } else {
                    not_ready_reply()
                },
            )
            &&& (a2->0.code == 200) <==> connected
            &&& s2.stage is Finished
        }),
{
}

/// Every accepted event keeps the session well formed and on its endpoint, and the
/// session hands out a reply exactly when it finishes.
pub proof fn lemma_reply_ends_session(s: SessionView, e: Event)
    requires
        s.wf(),
        s.accepts(e),
    ensures
        step(s, e).0.wf(),
        step(s, e).0.endpoint == s.endpoint,
        (step(s, e).1 is Respond) <==> (step(s, e).0.stage is Finished),
        step(s, e).0.stage != s.stage,
{
}

} // verus!
