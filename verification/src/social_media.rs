//! What the relay posts: the kinds of message, their text, and the requests
//! to the posting platform.

use vstd::prelude::*;
use crate::json::{json_field, json_field_of, json_object, json_object_text, member, members, objects, JsonField, Members};
use crate::text::joined;
use crate::time::{format_utc, utc_formatted};

verus! {

/// A queue message by kind.
#[derive(Debug, PartialEq, Eq)]
pub enum MessageType {
    Shout { content: String },
    Memo { title: String, link: String },
}

/// A queue message by kind, as texts.
pub enum Classified {
    Shout { content: Seq<char> },
    Memo { title: Seq<char>, link: Seq<char> },
}

impl View for MessageType {
    type V = Classified;

    open spec fn view(&self) -> Classified {
        match *self {
            MessageType::Shout { content } => Classified::Shout { content: content@ },
            MessageType::Memo { title, link } => Classified::Memo { title: title@, link: link@ },
        }
    }
}

/// Why a post did not happen.
#[derive(Debug, PartialEq, Eq)]
pub enum PostError {
    /// The answer to the session request holds no access token.
    Session,
    /// The time of the post cannot be written.
    Clock,
    /// The platform refused the post; its answer is kept.
    Rejected(String),
}

/// A POST request with a JSON body.
#[derive(Debug, PartialEq, Eq)]
pub struct HttpPost {
    pub url: String,
    /// The value of the `Authorization` header, where one is sent.
    pub authorization: Option<String>,
    pub body: String,
}

/// The text of a looked-up field, empty where it is no string.
pub open spec fn field_text(f: Option<JsonField>) -> Seq<char> {
    match f {
        Some(JsonField::Text(s)) => s@,
        _ => Seq::empty(),
    }
}

/// The kind of a message, given its body and what looking up `link` and
/// `title` in it finds: an announcement where the body is a JSON document
/// with a member `link`, else a shout of the whole body.
pub open spec fn classify_fields(body: Seq<char>, link: Option<JsonField>, title: Option<JsonField>) -> Classified {
    match link {
        Some(f) => if f is Missing {
            Classified::Shout { content: body }
        } else {
            Classified::Memo { title: field_text(title), link: field_text(link) }
        },
        None => Classified::Shout { content: body },
    }
}

/// The kind of the message with this body.
pub open spec fn classified(body: Seq<char>) -> Classified {
    classify_fields(body, json_field_of(body, "link"@), json_field_of(body, "title"@))
}

/// The text posted for a message: a shout verbatim, an announcement as a
/// fixed sentence around its title and link.
pub open spec fn post_text_of(m: Classified) -> Seq<char> {
    match m {
        Classified::Shout { content } => content,
        Classified::Memo { title, link } => "Huudan välihuudot pöytäkirjasta: "@ + title + " - "@
            + link,
    }
}

/// The body of the request that opens a session.
pub open spec fn session_body(password: Seq<char>) -> Seq<char> {
    json_object_text(
        seq![("identifier"@, "valihuutobot.bsky.social"@), ("password"@, password)],
        Seq::empty(),
    )
}

/// The body of the request that creates a post.
pub open spec fn record_body(text: Seq<char>, created_at: Seq<char>) -> Seq<char> {
    json_object_text(
        seq![("repo"@, "valihuutobot.bsky.social"@), ("collection"@, "app.bsky.feed.post"@)],
        seq![("record"@, seq![("text"@, text), ("createdAt"@, created_at)])],
    )
}

/// The time of a post as the platform wants it written.
pub open spec fn created_at_text(now_secs: int) -> Option<Seq<char>> {
    utc_formatted(now_secs, 0, "%Y-%m-%dT%H:%M:%SZ"@)
}

/// The text of a field, empty where it is no string.
fn text_of(f: &Option<JsonField>) -> (r: String)
    ensures
        r@ == field_text(*f),
{
    match f {
        Some(JsonField::Text(s)) => s.clone(),
        _ => String::new(),
    }
}

/// Classifies a message from its body and the two looked-up fields.
pub fn classify_parsed(body: &str, link: Option<JsonField>, title: Option<JsonField>) -> (r: MessageType)
    ensures
        r@ == classify_fields(body@, link, title),
{
    let is_memo = match &link {
        Some(JsonField::Missing) => false,
        Some(_) => true,
        None => false,
    };
    if is_memo {
        MessageType::Memo { title: text_of(&title), link: text_of(&link) }
    } else {
        MessageType::Shout { content: body.to_owned() }
    }
}

/// Classifies a message by its body.
pub fn classify(body: &str) -> (r: MessageType)
    ensures
        r@ == classified(body@),
{
    let link = json_field(body, "link");
    let title = json_field(body, "title");
    classify_parsed(body, link, title)
}

/// The text to post for a message.
pub fn post_text(message: &MessageType) -> (r: String)
    ensures
        r@ == post_text_of(message@),
{
    match message {
        MessageType::Shout { content } => content.clone(),
        MessageType::Memo { title, link } => {
            let a = joined("Huudan välihuudot pöytäkirjasta: ", title.as_str());
            let b = joined(a.as_str(), " - ");
            joined(b.as_str(), link.as_str())
        },
    }
}

/// The request that opens a session with the platform.
pub fn session_request(password: &str) -> (r: HttpPost)
    ensures
        r.url@ == "https://bsky.social/xrpc/com.atproto.server.createSession"@,
        r.authorization.is_none(),
        r.body@ == session_body(password@),
{
    let mut fields: Members = Vec::new();
    fields.push(member("identifier", "valihuutobot.bsky.social"));
    fields.push(member("password", password));
    let nested: Vec<(String, Members)> = Vec::new();
    proof {
        assert(members(fields@) =~= seq![
            ("identifier"@, "valihuutobot.bsky.social"@),
            ("password"@, password@),
        ]);
        assert(objects(nested@) =~= Seq::empty());
    }
    HttpPost {
        url: "https://bsky.social/xrpc/com.atproto.server.createSession".to_owned(),
        authorization: None,
        body: json_object(&fields, &nested),
    }
}

/// Takes the access token from the answer to a session request, given what
/// looking up `accessJwt` in it found.
pub fn token_from(field: Option<JsonField>) -> (r: Result<String, PostError>)
    ensures
        match field {
            Some(JsonField::Text(s)) => r.is_ok() && r.unwrap() == s,
            _ => r is Err && r->Err_0 is Session,
        },
{
    match field {
        Some(JsonField::Text(s)) => Ok(s),
        _ => Err(PostError::Session),
    }
}

/// Takes the access token from the answer to a session request: the string
/// member `accessJwt` of the JSON document, an error where there is none.
pub fn session_token(answer: &str) -> (r: Result<String, PostError>)
    ensures
        match json_field_of(answer@, "accessJwt"@) {
            Some(JsonField::Text(s)) => r.is_ok() && r.unwrap() == s,
            _ => r is Err && r->Err_0 is Session,
        },
{
    token_from(json_field(answer, "accessJwt"))
}

/// The request that posts `message` in the session of `token`, dated
/// `now_secs` seconds after the epoch. An instant that cannot be written is
/// an error.
pub fn record_request(token: &str, message: &MessageType, now_secs: i64) -> (r: Result<HttpPost, PostError>)
    ensures
        match created_at_text(now_secs as int) {
            Some(stamp) => {
                &&& r.is_ok()
                &&& r.unwrap().url@ == "https://bsky.social/xrpc/com.atproto.repo.createRecord"@
                &&& r.unwrap().authorization.is_some()
                &&& r.unwrap().authorization.unwrap()@ == "Bearer "@ + token@
                &&& r.unwrap().body@ == record_body(post_text_of(message@), stamp)
            },
            None => r is Err && r->Err_0 is Clock,
        },
{
    match format_utc(now_secs, 0, "%Y-%m-%dT%H:%M:%SZ") {
        None => Err(PostError::Clock),
        Some(stamp) => {
            let text = post_text(message);
            let mut fields: Members = Vec::new();
            fields.push(member("repo", "valihuutobot.bsky.social"));
            fields.push(member("collection", "app.bsky.feed.post"));
            let mut record: Members = Vec::new();
            record.push(member("text", text.as_str()));
            record.push(member("createdAt", stamp.as_str()));
            let ghost record_view = members(record@);
            let mut nested: Vec<(String, Members)> = Vec::new();
            nested.push(("record".to_owned(), record));
            proof {
                assert(members(fields@) =~= seq![
                    ("repo"@, "valihuutobot.bsky.social"@),
                    ("collection"@, "app.bsky.feed.post"@),
                ]);
                assert(record_view =~= seq![("text"@, text@), ("createdAt"@, stamp@)]);
                assert(objects(nested@) =~= seq![("record"@, record_view)]);
            }
            Ok(
                HttpPost {
                    url: "https://bsky.social/xrpc/com.atproto.repo.createRecord".to_owned(),
                    authorization: Some(joined("Bearer ", token)),
                    body: json_object(&fields, &nested),
                },
            )
        },
    }
}

/// Judges the platform's answer to a post: done on a status from 200 to
/// 299, else refused, with the answer's body as the reason.
pub fn post_outcome(status: u16, answer: String) -> (r: Result<(), PostError>)
    ensures
        200 <= status < 300 ==> r is Ok,
        !(200 <= status < 300) ==> r is Err && r->Err_0 is Rejected && r->Err_0->Rejected_0
            == answer,
{
    if status >= 200 && status < 300 {
        Ok(())
    } else {
        Err(PostError::Rejected(answer))
    }
}

/// What the relay has heard, at each turn of posting one message.
#[derive(Debug, PartialEq, Eq)]
pub enum PostStep {
    /// Nothing yet; `password` is the account's secret.
    Begin { password: String },
    /// The answer to the session request, and the present time in seconds
    /// after the epoch.
    Session { answer: String, now_secs: i64 },
    /// The status and the body of the answer to the post.
    Posted { status: u16, answer: String },
}

/// What the relay does next, at each turn of posting one message.
#[derive(Debug, PartialEq, Eq)]
pub enum PostAction {
    /// Send this request, which opens a session, and come back with the
    /// answer's body and the time.
    OpenSession(HttpPost),
    /// Send this request, which posts the message, and come back with the
    /// answer's status and body.
    Post(HttpPost),
    /// The message is posted.
    Done,
    /// The message is not posted.
    Failed(PostError),
}

/// The request is the one that posts `message` with the token `token` at
/// the time written `stamp`.
pub open spec fn is_record_request(r: HttpPost, token: Seq<char>, message: Classified, stamp: Seq<char>) -> bool {
    &&& r.url@ == "https://bsky.social/xrpc/com.atproto.repo.createRecord"@
    &&& r.authorization.is_some()
    &&& r.authorization.unwrap()@ == "Bearer "@ + token
    &&& r.body@ == record_body(post_text_of(message), stamp)
}

/// One turn of posting `message`: first the session request; on its
/// answer the post, in the session of the token found there; on the
/// platform's answer to the post, the end.
pub fn send_to_bluesky(message: &MessageType, step: PostStep) -> (r: PostAction)
    ensures
        step matches PostStep::Begin { password } ==> {
            &&& r is OpenSession
            &&& r->OpenSession_0.url@ == "https://bsky.social/xrpc/com.atproto.server.createSession"@
            &&& r->OpenSession_0.authorization.is_none()
            &&& r->OpenSession_0.body@ == session_body(password@)
        },
        step matches PostStep::Session { answer, now_secs } ==> match json_field_of(
            answer@,
            "accessJwt"@,
        ) {
            Some(JsonField::Text(token)) => match created_at_text(now_secs as int) {
                Some(stamp) => r is Post && is_record_request(
                    r->Post_0,
                    token@,
                    message@,
                    stamp,
                ),
                None => r is Failed && r->Failed_0 is Clock,
            },
            _ => r is Failed && r->Failed_0 is Session,
        },
        step matches PostStep::Posted { status, answer } ==> if 200 <= status < 300 {
            r is Done
        } else {
            r is Failed && r->Failed_0 is Rejected && r->Failed_0->Rejected_0 == answer
        },
{
    match step {
        PostStep::Begin { password } => PostAction::OpenSession(
            session_request(password.as_str()),
        ),
        PostStep::Session { answer, now_secs } => match session_token(answer.as_str()) {
            Ok(token) => match record_request(token.as_str(), message, now_secs) {
                Ok(request) => PostAction::Post(request),
                Err(e) => PostAction::Failed(e),
            },
            Err(e) => PostAction::Failed(e),
        },
        PostStep::Posted { status, answer } => match post_outcome(status, answer) {
            Ok(()) => PostAction::Done,
            Err(e) => PostAction::Failed(e),
        },
    }
}

} // verus!
