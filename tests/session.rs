use greeting_service::reply::{greeting, BodyField, Reply};
use greeting_service::session::{counter_key, Action, Endpoint, Event, Session, Stage};

fn reply_of(action: Action) -> Reply {
    match action {
        Action::Respond(reply) => reply,
        other => panic!("expected a reply, got {:?}", other),
    }
}

fn hello(name: &str) -> Session {
    let (session, first) = Session::start(Endpoint::Hello { name: name.to_string() });
    assert_eq!(first, Action::Connect);
    session
}

#[test]
fn hello_world_when_store_reachable() {
    let mut s = hello("World");
    let next = s.on_event(Event::ConnectSucceeded);
    assert_eq!(next, Action::Increment { key: "greetings:World".to_string(), by: 1 });
    assert!(!s.is_finished());
    let reply = reply_of(s.on_event(Event::IncrementFinished { stored: true }));
    assert_eq!(reply.code, 200);
    assert_eq!(reply.field, BodyField::Message);
    assert_eq!(reply.text, "Hello, World!");
    assert!(s.is_finished());
}

#[test]
fn hello_reply_ignores_failed_increment() {
    let mut s = hello("Ada");
    s.on_event(Event::ConnectSucceeded);
    let reply = reply_of(s.on_event(Event::IncrementFinished { stored: false }));
    assert_eq!(reply, Reply { code: 200, field: BodyField::Message, text: "Hello, Ada!".to_string() });
}

#[test]
fn hello_accepts_empty_name() {
    let mut s = hello("");
    let next = s.on_event(Event::ConnectSucceeded);
    assert_eq!(next, Action::Increment { key: "greetings:".to_string(), by: 1 });
    let reply = reply_of(s.on_event(Event::IncrementFinished { stored: true }));
    assert_eq!(reply.text, "Hello, !");
}

#[test]
fn hello_keeps_unicode_name() {
    let mut s = hello("Zoë 世界");
    s.on_event(Event::ConnectSucceeded);
    let reply = reply_of(s.on_event(Event::IncrementFinished { stored: true }));
    assert_eq!(reply.text, "Hello, Zoë 世界!");
}

#[test]
fn hello_without_connection_is_server_error() {
    let mut s = hello("World");
    let reply = reply_of(s.on_event(Event::ConnectFailed));
    assert_eq!(reply.code, 500);
    assert_eq!(reply.field, BodyField::Message);
    assert_eq!(reply.text, "Redis connection failed");
    assert!(s.is_finished());
}

#[test]
fn health_when_store_unreachable() {
    let (mut s, first) = Session::start(Endpoint::Health);
    assert_eq!(first, Action::Connect);
    let reply = reply_of(s.on_event(Event::ConnectFailed));
    assert_eq!(reply.code, 503);
    assert_eq!(reply.field, BodyField::Status);
    assert_eq!(reply.text, "unhealthy - cannot connect to redis");
}

#[test]
fn health_when_ping_answered() {
    let (mut s, _) = Session::start(Endpoint::Health);
    assert_eq!(s.on_event(Event::ConnectSucceeded), Action::Ping);
    assert_eq!(s.stage(), Stage::AwaitPing);
    let reply = reply_of(s.on_event(Event::PingSucceeded));
    assert_eq!(reply, Reply { code: 200, field: BodyField::Status, text: "healthy".to_string() });
}

#[test]
fn health_when_ping_fails() {
    let (mut s, _) = Session::start(Endpoint::Health);
    s.on_event(Event::ConnectSucceeded);
    let reply = reply_of(s.on_event(Event::PingFailed));
    assert_eq!(reply.code, 503);
    assert_eq!(reply.text, "unhealthy - redis not responding");
}

#[test]
fn readiness_when_connected() {
    let (mut s, _) = Session::start(Endpoint::Readiness);
    let reply = reply_of(s.on_event(Event::ConnectSucceeded));
    assert_eq!(reply, Reply { code: 200, field: BodyField::Status, text: "ready".to_string() });
    assert!(s.is_finished());
}

#[test]
fn readiness_when_not_connected() {
    let (mut s, _) = Session::start(Endpoint::Readiness);
    let reply = reply_of(s.on_event(Event::ConnectFailed));
    assert_eq!(reply.code, 503);
    assert_eq!(reply.text, "not ready");
}

#[test]
fn sessions_accept_only_the_awaited_outcome() {
    let (mut s, _) = Session::start(Endpoint::Health);
    assert!(s.accepts(Event::ConnectFailed));
    assert!(!s.accepts(Event::PingSucceeded));
    assert!(!s.accepts(Event::IncrementFinished { stored: true }));
    s.on_event(Event::ConnectSucceeded);
    assert!(s.accepts(Event::PingFailed));
    assert!(!s.accepts(Event::ConnectSucceeded));
    s.on_event(Event::PingFailed);
    assert!(!s.accepts(Event::PingSucceeded));
    assert_eq!(s.endpoint(), &Endpoint::Health);
}

#[test]
fn greeting_and_key_texts() {
    assert_eq!(greeting("World"), "Hello, World!");
    assert_eq!(counter_key("World"), "greetings:World");
    assert_eq!(Reply::greet("x").text, "Hello, x!");
}
