use crate::cache::{cache_key, contains_key, is_expired, key_of, lists, token_expired, KEY_PREFIX};
use crate::codec::{cached_token_of, extract_identity, identity_of, read_cached_token};
use crate::error::{make_error, stage_error, ErrorKind, HandlerError};
use crate::request::{
    code_grant, code_grant_query, missing_value, refresh_grant, refresh_grant_query, token_url,
    validate_params, Params, TOKEN_ENDPOINT,
};
use vstd::prelude::*;
use vstd::utf8::encode_utf8;

verus! {

/// Where a session stands: which outside result it waits for.
#[derive(Clone, Copy, Debug, PartialEq, Eq, Structural)]
pub enum Phase {
    /// Waiting for the listing of cached keys.
    Listing,
    /// Waiting for the cached token pair.
    Fetching,
    /// Waiting for the answer to a refresh-token grant.
    Refreshing,
    /// Waiting for the answer to an authorization-code grant.
    Exchanging,
    /// Waiting for the write of the token pair.
    Storing,
    /// The response has been decided.
    Done,
}

/// The result of the outside call that a session asked for.
#[derive(Debug)]
pub enum Event {
    /// The keys stored under the cache prefix, or why they could not be listed.
    KeysListed(Result<Vec<String>, String>),
    /// The cached object, or why it could not be read; and the clock, in
    /// seconds since the epoch (`None` when it reads before the epoch).
    ObjectFetched(Result<Vec<u8>, String>, Option<u64>),
    /// The provider's HTTP status and body, or why it could not be reached.
    TokenReceived(Result<(u16, String), String>),
    /// Whether the token pair was written.
    ObjectStored(Result<(), String>),
}

/// What a session asks to be done next.
#[derive(Debug)]
pub enum Action {
    /// List the keys of `bucket` under `prefix`.
    ListKeys { bucket: String, prefix: String },
    /// Read the object at `key` in `bucket`.
    FetchObject { bucket: String, key: String },
    /// Post to the token endpoint at `url`.
    RequestToken { url: String },
    /// Write `body` at `key` in `bucket`, replacing what is there.
    StoreObject { bucket: String, key: String, body: Vec<u8> },
    /// Answer the request: success, or the failure.
    Respond(Result<(), HandlerError>),
}

pub ghost enum EventView {
    KeysListed(Result<Seq<String>, Seq<char>>),
    ObjectFetched(Result<Seq<u8>, Seq<char>>, Option<u64>),
    TokenReceived(Result<(u16, Seq<char>), Seq<char>>),
    ObjectStored(Result<(), Seq<char>>),
}

/// An action as values; a response is its failure kind, `None` on success.
pub ghost enum ActionView {
    ListKeys(Seq<char>, Seq<char>),
    FetchObject(Seq<char>, Seq<char>),
    RequestToken(Seq<char>),
    StoreObject(Seq<char>, Seq<char>, Seq<u8>),
    Respond(Option<ErrorKind>),
}

pub ghost struct SessionView {
    pub code: Seq<char>,
    pub redirect_uri: Seq<char>,
    pub client_id: Seq<char>,
    pub client_secret: Seq<char>,
    pub bucket: Seq<char>,
    pub key: Seq<char>,
    pub phase: Phase,
}

impl View for Event {
    type V = EventView;

    open spec fn view(&self) -> EventView {
        match self {
            Event::KeysListed(Ok(keys)) => EventView::KeysListed(Ok(keys@)),
            Event::KeysListed(Err(m)) => EventView::KeysListed(Err(m@)),
            Event::ObjectFetched(Ok(b), now) => EventView::ObjectFetched(Ok(b@), *now),
            Event::ObjectFetched(Err(m), now) => EventView::ObjectFetched(Err(m@), *now),
            Event::TokenReceived(Ok((status, body))) => EventView::TokenReceived(Ok((*status, body@))),
            Event::TokenReceived(Err(m)) => EventView::TokenReceived(Err(m@)),
            Event::ObjectStored(Ok(())) => EventView::ObjectStored(Ok(())),
            Event::ObjectStored(Err(m)) => EventView::ObjectStored(Err(m@)),
        }
    }
}

impl View for Action {
    type V = ActionView;

    open spec fn view(&self) -> ActionView {
        match self {
            Action::ListKeys { bucket, prefix } => ActionView::ListKeys(bucket@, prefix@),
            Action::FetchObject { bucket, key } => ActionView::FetchObject(bucket@, key@),
            Action::RequestToken { url } => ActionView::RequestToken(url@),
            Action::StoreObject { bucket, key, body } => ActionView::StoreObject(bucket@, key@, body@),
            Action::Respond(Ok(())) => ActionView::Respond(None),
            Action::Respond(Err(e)) => ActionView::Respond(Some(e.kind)),
        }
    }
}

/// The key that a request with authorization code `code` reads and writes.
pub open spec fn target_of(code: Seq<char>) -> Option<Seq<char>> {
    match identity_of(code) {
        Some((user_id, app_id, _)) => Some(key_of(app_id, user_id)),
        None => None,
    }
}

impl SessionView {
    /// The session's key is the one its authorization code names.
    pub open spec fn wf(self) -> bool {
        target_of(self.code) == Some(self.key)
    }

    pub open spec fn at(self, phase: Phase) -> SessionView {
        SessionView { phase, ..self }
    }

    /// Whether `e` answers the call the session waits for.
    pub open spec fn accepts(self, e: EventView) -> bool {
        match self.phase {
            Phase::Listing => e is KeysListed,
            Phase::Fetching => e is ObjectFetched,
            Phase::Refreshing => e is TokenReceived,
            Phase::Exchanging => e is TokenReceived,
            Phase::Storing => e is ObjectStored,
            Phase::Done => false,
        }
    }

    /// The authorization-code grant for this request.
    pub open spec fn code_url(self) -> Seq<char> {
        TOKEN_ENDPOINT@ + code_grant(self.client_id, self.client_secret, self.code, self.redirect_uri)
    }

    /// The refresh-token grant for this request.
    pub open spec fn refresh_url(self, refresh_token: Seq<char>) -> Seq<char> {
        TOKEN_ENDPOINT@ + refresh_grant(self.client_id, self.client_secret, refresh_token)
    }
}

/// The body of a provider answer that granted a token, if it did (status 200).
pub open spec fn granted(r: Result<(u16, Seq<char>), Seq<char>>) -> Option<Seq<char>> {
    match r {
        Ok((status, body)) => if status == 200 {
            Some(body)
        } else {
            None
        },
        Err(_) => None,
    }
}

/// What a session does with a granted token pair: store it if it reads back.
pub open spec fn take_grant(s: SessionView, body: Seq<char>) -> (SessionView, ActionView) {
    let b = encode_utf8(body);
    match cached_token_of(b) {
        Some(_) => (s.at(Phase::Storing), ActionView::StoreObject(s.bucket, s.key, b)),
        None => (s.at(Phase::Done), ActionView::Respond(Some(ErrorKind::Codec))),
    }
}

/// The next state and action of a session in state `s` on event `e`.
///
/// A listed key is fetched; an unlisted one is obtained by an
/// authorization-code grant. A cached pair that is still valid is written back
/// unchanged; an expired one is refreshed, and a refused refresh falls back,
/// once, to the authorization-code grant. A granted pair is written only if
/// its access token's expiry can be read back from it.
pub open spec fn step_model(s: SessionView, e: EventView) -> (SessionView, ActionView) {
    let done = s.at(Phase::Done);
    match s.phase {
        Phase::Listing => match e {
            EventView::KeysListed(Ok(keys)) => if lists(keys, s.key) {
                (s.at(Phase::Fetching), ActionView::FetchObject(s.bucket, s.key))
            } else {
                (s.at(Phase::Exchanging), ActionView::RequestToken(s.code_url()))
            },
            EventView::KeysListed(Err(_)) => (done, ActionView::Respond(Some(ErrorKind::Storage))),
            _ => (done, ActionView::Respond(Some(ErrorKind::ClientInput))),
        },
        Phase::Fetching => match e {
            EventView::ObjectFetched(Ok(b), now) => match cached_token_of(b) {
                Some((exp, refresh)) => if token_expired(exp, now) {
                    (s.at(Phase::Refreshing), ActionView::RequestToken(s.refresh_url(refresh)))
                } else {
                    (s.at(Phase::Storing), ActionView::StoreObject(s.bucket, s.key, b))
                },
                None => (done, ActionView::Respond(Some(ErrorKind::Codec))),
            },
            EventView::ObjectFetched(Err(_), _) => (done, ActionView::Respond(Some(ErrorKind::Storage))),
            _ => (done, ActionView::Respond(Some(ErrorKind::ClientInput))),
        },
        Phase::Refreshing => match e {
            EventView::TokenReceived(r) => match granted(r) {
                Some(body) => take_grant(s, body),
                None => (s.at(Phase::Exchanging), ActionView::RequestToken(s.code_url())),
            },
            _ => (done, ActionView::Respond(Some(ErrorKind::ClientInput))),
        },
        Phase::Exchanging => match e {
            EventView::TokenReceived(r) => match granted(r) {
                Some(body) => take_grant(s, body),
                None => (done, ActionView::Respond(Some(ErrorKind::Provider))),
            },
            _ => (done, ActionView::Respond(Some(ErrorKind::ClientInput))),
        },
        Phase::Storing => match e {
            EventView::ObjectStored(Ok(())) => (done, ActionView::Respond(None)),
            EventView::ObjectStored(Err(_)) => (done, ActionView::Respond(Some(ErrorKind::Storage))),
            _ => (done, ActionView::Respond(Some(ErrorKind::ClientInput))),
        },
        Phase::Done => (done, ActionView::Respond(Some(ErrorKind::ClientInput))),
    }
}

/// The message of the failure that `e` brings a session in state `s` to, where
/// it is made of the stage and the outside cause alone.
pub open spec fn failure_text(s: SessionView, e: EventView) -> Option<Seq<char>> {
    match (s.phase, e) {
        (Phase::Listing, EventView::KeysListed(Err(m))) => Some("failed to list s3 bucket: "@ + m),
        (Phase::Fetching, EventView::ObjectFetched(Err(m), _)) => Some("failed to fetch item from s3: "@ + m),
        (Phase::Exchanging, EventView::TokenReceived(Err(m))) => Some("failed to get new token: "@ + m),
        (Phase::Exchanging, EventView::TokenReceived(Ok((status, body)))) => if status == 200 {
            None
        } else {
            Some("failed to get new token: "@ + body)
        },
        (Phase::Storing, EventView::ObjectStored(Err(m))) => Some("failed to upload token data to s3: "@ + m),
        _ => None,
    }
}

/// One request in progress.
#[derive(Debug)]
pub struct Session {
    pub params: Params,
    pub key: String,
    pub phase: Phase,
}

impl View for Session {
    type V = SessionView;

    open spec fn view(&self) -> SessionView {
        SessionView {
            code: self.params.code@,
            redirect_uri: self.params.redirect_uri@,
            client_id: self.params.client_id@,
            client_secret: self.params.client_secret@,
            bucket: self.params.bucket@,
            key: self.key@,
            phase: self.phase,
        }
    }
}

impl Session {
    /// Starts a request: checks the five values it needs, reads the identity in
    /// its authorization code and derives the cache key. On success the first
    /// action is the listing of the cache; on failure no outside call is due.
    pub fn begin(
        code: Option<String>,
        redirect_uri: Option<String>,
        client_id: Option<String>,
        client_secret: Option<String>,
        bucket: Option<String>,
    ) -> (r: Result<(Session, Action), HandlerError>)
        ensures
            match missing_value(code, redirect_uri, client_id, client_secret, bucket) {
                Some((kind, msg)) => r matches Err(e) && e.kind == kind && e.message@ == msg,
                None => match target_of(code->Some_0@) {
                    None => r matches Err(e) && e.kind == ErrorKind::Codec,
                    Some(key) => r matches Ok((s, a)) && s@ == (SessionView {
                        code: code->Some_0@,
                        redirect_uri: redirect_uri->Some_0@,
                        client_id: client_id->Some_0@,
                        client_secret: client_secret->Some_0@,
                        bucket: bucket->Some_0@,
                        key,
                        phase: Phase::Listing,
                    }) && a@ == ActionView::ListKeys(bucket->Some_0@, KEY_PREFIX@),
                },
            },
    {
        let params = validate_params(code, redirect_uri, client_id, client_secret, bucket)?;
        let claims = extract_identity(params.code.as_str())?;
        let key = cache_key(claims.app_id.as_str(), claims.user_id);
        let action = Action::ListKeys {
            bucket: params.bucket.clone(),
            prefix: String::from_str(KEY_PREFIX),
        };
        (Ok((Session { params, key, phase: Phase::Listing }, action)))
    }

    /// Whether `event` answers the call that the session waits for.
    pub fn accepts(&self, event: &Event) -> (r: bool)
        ensures
            r == self@.accepts(event@),
    {
        match self.phase {
            Phase::Listing => matches!(event, Event::KeysListed(_)),
            Phase::Fetching => matches!(event, Event::ObjectFetched(_, _)),
            Phase::Refreshing => matches!(event, Event::TokenReceived(_)),
            Phase::Exchanging => matches!(event, Event::TokenReceived(_)),
            Phase::Storing => matches!(event, Event::ObjectStored(_)),
            Phase::Done => false,
        }
    }

    fn finish(&mut self, e: HandlerError) -> (a: Action)
        ensures
            final(self)@ == old(self)@.at(Phase::Done),
            a matches Action::Respond(Err(r)) && r == e,
    {
        self.phase = Phase::Done;
        Action::Respond(Err(e))
    }

    fn code_grant_request(&self) -> (a: Action)
        ensures
            a@ == ActionView::RequestToken(self@.code_url()),
    {
        let query = code_grant_query(
            self.params.client_id.as_str(),
            self.params.client_secret.as_str(),
            self.params.code.as_str(),
            self.params.redirect_uri.as_str(),
        );
        Action::RequestToken { url: token_url(query.as_str()) }
    }

    fn store(&mut self, body: Vec<u8>) -> (a: Action)
        ensures
            final(self)@ == old(self)@.at(Phase::Storing),
            a@ == ActionView::StoreObject(old(self)@.bucket, old(self)@.key, body@),
    {
        self.phase = Phase::Storing;
        Action::StoreObject { bucket: self.params.bucket.clone(), key: self.key.clone(), body }
    }

    fn take_grant(&mut self, body: &String) -> (a: Action)
        ensures
            (final(self)@, a@) == take_grant(old(self)@, body@),
    {
        let bytes = body.as_str().as_bytes_vec();
        match read_cached_token(bytes.as_slice()) {
            Ok(_) => self.store(bytes),
            Err(e) => {
                let err = stage_error(ErrorKind::Codec, "provider returned an unusable token pair: ", e.message.as_str());
                self.finish(err)
            },
        }
    }

    /// Takes the result of the pending outside call and returns the next action.
    pub fn step(&mut self, event: Event) -> (a: Action)
        requires
            old(self)@.accepts(event@),
        ensures
            (final(self)@, a@) == step_model(old(self)@, event@),
            failure_text(old(self)@, event@) matches Some(m) ==> (a matches Action::Respond(Err(e)) && e.message@ == m),
    {
        match self.phase {
            Phase::Listing => match event {
                Event::KeysListed(Ok(keys)) => {
                    if contains_key(&keys, &self.key) {
                        self.phase = Phase::Fetching;
                        Action::FetchObject { bucket: self.params.bucket.clone(), key: self.key.clone() }
                    } else {
                        self.phase = Phase::Exchanging;
                        self.code_grant_request()
                    }
                },
                Event::KeysListed(Err(m)) => self.finish(stage_error(ErrorKind::Storage, "failed to list s3 bucket: ", m.as_str())),
                _ => self.finish(make_error(ErrorKind::ClientInput, "unexpected event")),
            },
            Phase::Fetching => match event {
                Event::ObjectFetched(Ok(b), now) => match read_cached_token(b.as_slice()) {
                    Ok((exp, refresh)) => {
                        if is_expired(exp, now) {
                            self.phase = Phase::Refreshing;
                            let query = refresh_grant_query(
                                self.params.client_id.as_str(),
                                self.params.client_secret.as_str(),
                                refresh.as_str(),
                            );
                            Action::RequestToken { url: token_url(query.as_str()) }
                        } else {
                            self.store(b)
                        }
                    },
                    Err(e) => self.finish(e),
                },
                Event::ObjectFetched(Err(m), _) => self.finish(stage_error(ErrorKind::Storage, "failed to fetch item from s3: ", m.as_str())),
                _ => self.finish(make_error(ErrorKind::ClientInput, "unexpected event")),
            },
            Phase::Refreshing => match event {
                Event::TokenReceived(Ok((status, body))) => {
                    if status == 200 {
                        self.take_grant(&body)
                    } else {
                        self.phase = Phase::Exchanging;
                        self.code_grant_request()
                    }
                },
                Event::TokenReceived(Err(_)) => {
                    self.phase = Phase::Exchanging;
                    self.code_grant_request()
                },
                _ => self.finish(make_error(ErrorKind::ClientInput, "unexpected event")),
            },
            Phase::Exchanging => match event {
                Event::TokenReceived(Ok((status, body))) => {
                    if status == 200 {
                        self.take_grant(&body)
                    } else {
                        self.finish(stage_error(ErrorKind::Provider, "failed to get new token: ", body.as_str()))
                    }
                },
                Event::TokenReceived(Err(m)) => self.finish(stage_error(ErrorKind::Provider, "failed to get new token: ", m.as_str())),
                _ => self.finish(make_error(ErrorKind::ClientInput, "unexpected event")),
            },
            Phase::Storing => match event {
                Event::ObjectStored(Ok(())) => {
                    self.phase = Phase::Done;
                    Action::Respond(Ok(()))
                },
                Event::ObjectStored(Err(m)) => self.finish(stage_error(ErrorKind::Storage, "failed to upload token data to s3: ", m.as_str())),
                _ => self.finish(make_error(ErrorKind::ClientInput, "unexpected event")),
            },
            Phase::Done => self.finish(make_error(ErrorKind::ClientInput, "unexpected event")),
        }
    }
}

/// The HTTP status and body that answer a request: 200 with an empty body on
/// success, 422 with the failure's message otherwise.
pub fn response_of(outcome: &Result<(), HandlerError>) -> (r: (u16, String))
    ensures
        match outcome {
            Ok(()) => r.0 == 200 && r.1@.len() == 0,
            Err(e) => r.0 == 422 && r.1@ == e.message@,
        },
{
    match outcome {
        Ok(()) => (200, String::new()),
        Err(e) => (422, e.message.clone()),
    }
}

/// Every step keeps the request and its cache key, and every read or write of
/// the cache goes to the key that the authorization code names, in the
/// request's bucket: a replayed request targets the same object.
pub proof fn step_keeps_target(s: SessionView, e: EventView)
    requires
        s.wf(),
    ensures
        step_model(s, e).0.wf(),
        step_model(s, e).0.at(s.phase) == s,
        step_model(s, e).1 matches ActionView::StoreObject(b, k, _) ==> b == s.bucket && target_of(s.code) == Some(k),
        step_model(s, e).1 matches ActionView::FetchObject(b, k) ==> b == s.bucket && target_of(s.code) == Some(k),
{
}

/// The same request fed the same results takes the same steps and reaches the
/// same response.
pub proof fn replay_is_equivalent(s1: SessionView, s2: SessionView, e1: EventView, e2: EventView)
    requires
        s1 == s2,
        e1 == e2,
    ensures
        step_model(s1, e1) == step_model(s2, e2),
{
}

/// Whatever a session writes to the cache reads back: it is a token pair whose
/// access token's expiry decodes.
pub proof fn stored_payload_reads_back(s: SessionView, e: EventView)
    ensures
        step_model(s, e).1 matches ActionView::StoreObject(_, _, b) ==> cached_token_of(b) is Some,
{
}

} // verus!
