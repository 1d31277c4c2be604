use vstd::prelude::*;

verus! {

/// The single field of a reply's JSON body: `{"message": ..}` or `{"status": ..}`.
#[derive(Debug, Clone, Copy, PartialEq, Eq, Structural)]
pub enum BodyField {
    Message,
    Status,
}

/// An HTTP reply: a status code and a body holding one text field.
#[derive(Debug, Clone, PartialEq, Eq)]
pub struct Reply {
    pub code: u16,
    pub field: BodyField,
    pub text: String,
}

/// What a reply means, with the text as a sequence of characters.
pub struct ReplyView {
    pub code: u16,
    pub field: BodyField,
    pub text: Seq<char>,
}

impl View for Reply {
    type V = ReplyView;

    open spec fn view(&self) -> ReplyView {
        ReplyView { code: self.code, field: self.field, text: self.text@ }
    }
}

/// The greeting for `name`: `Hello, <name>!`.
pub open spec fn greeting_text(name: Seq<char>) -> Seq<char> {
    "Hello, "@ + name + "!"@
}

pub open spec fn greeting_reply(name: Seq<char>) -> ReplyView {
    ReplyView { code: 200, field: BodyField::Message, text: greeting_text(name) }
}

pub open spec fn connection_failed_reply() -> ReplyView {
    ReplyView { code: 500, field: BodyField::Message, text: "Redis connection failed"@ }
}

pub open spec fn healthy_reply() -> ReplyView {
    ReplyView { code: 200, field: BodyField::Status, text: "healthy"@ }
}

pub open spec fn not_responding_reply() -> ReplyView {
    ReplyView { code: 503, field: BodyField::Status, text: "unhealthy - redis not responding"@ }
}

pub open spec fn cannot_connect_reply() -> ReplyView {
    ReplyView {
        code: 503,
        field: BodyField::Status,
        text: "unhealthy - cannot connect to redis"@,
    }
}

pub open spec fn ready_reply() -> ReplyView {
    ReplyView { code: 200, field: BodyField::Status, text: "ready"@ }
}

pub open spec fn not_ready_reply() -> ReplyView {
    ReplyView { code: 503, field: BodyField::Status, text: "not ready"@ }
}

/// Builds the text `Hello, <name>!`.
pub fn greeting(name: &str) -> (r: String)
    ensures
        r@ == greeting_text(name@),
{
    let mut text = String::from_str("Hello, ");
    text.append(name);
    text.append("!");
    text
}

impl Reply {
    /// 200 with the greeting for `name`.
    pub fn greet(name: &str) -> (r: Reply)
        ensures
            r@ == greeting_reply(name@),
    {
        Reply { code: 200, field: BodyField::Message, text: greeting(name) }
    }

    /// 500: no connection to the store could be obtained for a greeting.
    pub fn connection_failed() -> (r: Reply)
        ensures
            r@ == connection_failed_reply(),
    {
        Reply {
            code: 500,
            field: BodyField::Message,
            text: String::from_str("Redis connection failed"),
        }
    }

    /// 200: the store answered the liveness probe.
    pub fn healthy() -> (r: Reply)
        ensures
            r@ == healthy_reply(),
    {
        Reply { code: 200, field: BodyField::Status, text: String::from_str("healthy") }
    }

    /// 503: connected, but the store did not answer the liveness probe.
    pub fn not_responding() -> (r: Reply)
        ensures
            r@ == not_responding_reply(),
    {
        Reply {
            code: 503,
            field: BodyField::Status,
            text: String::from_str("unhealthy - redis not responding"),
        }
    }

    /// 503: the liveness probe could not even connect to the store.
    pub fn cannot_connect() -> (r: Reply)
        ensures
            r@ == cannot_connect_reply(),
    {
        Reply {
            code: 503,
            field: BodyField::Status,
            text: String::from_str("unhealthy - cannot connect to redis"),
        }
    }

    /// 200: a connection to the store can be established.
    pub fn ready() -> (r: Reply)
        ensures
            r@ == ready_reply(),
    {
        Reply { code: 200, field: BodyField::Status, text: String::from_str("ready") }
    }

    /// 503: no connection to the store can be established.
    pub fn not_ready() -> (r: Reply)
        ensures
            r@ == not_ready_reply(),
    {
        Reply { code: 503, field: BodyField::Status, text: String::from_str("not ready") }
    }
}

} // verus!
