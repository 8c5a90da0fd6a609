//! The API gateway: which endpoints need a token, which upstream service each
//! endpoint is forwarded to, and the step-by-step handling of one request.

use vstd::prelude::*;
use crate::auth::{admin_role, bearer_token, bearer_prefix, has_bearer_prefix, Claims};
use crate::text::{decimal, decimal_i32, lemma_prefixed_decimal_injective};

verus! {

/// An HTTP method.
#[derive(Debug, Clone, Copy, PartialEq, Eq, Structural)]
pub enum Method {
    Get,
    Post,
    Put,
    Delete,
}

/// An endpoint of the gateway, with the game id taken from its path.
#[derive(Debug, Clone, Copy, PartialEq, Eq, Structural)]
pub enum Endpoint {
    /// `GET /api/games`
    ListGames,
    /// `GET /api/games/:id`
    GetGame(i32),
    /// `POST /api/games`
    CreateGame,
    /// `PUT /api/games/:id`
    UpdateGame(i32),
    /// `DELETE /api/games/:id`
    DeleteGame(i32),
    /// `POST /api/images/:game_id`
    UploadImages(i32),
    /// `GET /api/images/:game_id`
    GetImages(i32),
    /// `DELETE /api/images/:game_id`
    DeleteImages(i32),
    /// `POST /api/videos/:game_id`
    UploadVideos(i32),
    /// `GET /api/videos/:game_id`
    GetVideos(i32),
    /// `DELETE /api/videos/:game_id`
    DeleteVideos(i32),
    /// `POST /api/login`
    Login,
    /// `POST /api/register`
    Register,
}

/// The method under which the gateway serves an endpoint.
pub open spec fn method_of(e: Endpoint) -> Method {
    match e {
        Endpoint::ListGames | Endpoint::GetGame(_) | Endpoint::GetImages(_) | Endpoint::GetVideos(_) => Method::Get,
        Endpoint::CreateGame | Endpoint::UploadImages(_) | Endpoint::UploadVideos(_) | Endpoint::Login | Endpoint::Register => Method::Post,
        Endpoint::UpdateGame(_) => Method::Put,
        Endpoint::DeleteGame(_) | Endpoint::DeleteImages(_) | Endpoint::DeleteVideos(_) => Method::Delete,
    }
}

/// The endpoints behind the token check: the management of games, images
/// and videos, reserved to the role `admin`.
pub open spec fn is_protected(e: Endpoint) -> bool {
    match e {
        Endpoint::CreateGame | Endpoint::UploadImages(_) | Endpoint::UploadVideos(_) | Endpoint::DeleteGame(_)
        | Endpoint::UpdateGame(_) | Endpoint::DeleteImages(_) | Endpoint::DeleteVideos(_) => true,
        _ => false,
    }
}

/// The method under which the gateway serves an endpoint.
pub fn method(e: &Endpoint) -> (m: Method)
    ensures
        m == method_of(*e),
{
    match e {
        Endpoint::ListGames | Endpoint::GetGame(_) | Endpoint::GetImages(_) | Endpoint::GetVideos(_) => Method::Get,
        Endpoint::CreateGame | Endpoint::UploadImages(_) | Endpoint::UploadVideos(_) | Endpoint::Login | Endpoint::Register => Method::Post,
        Endpoint::UpdateGame(_) => Method::Put,
        Endpoint::DeleteGame(_) | Endpoint::DeleteImages(_) | Endpoint::DeleteVideos(_) => Method::Delete,
    }
}

/// Whether a request to the endpoint must carry a valid token.
pub fn requires_auth(e: &Endpoint) -> (r: bool)
    ensures
        r == is_protected(*e),
{
    match e {
        Endpoint::CreateGame | Endpoint::UploadImages(_) | Endpoint::UploadVideos(_) | Endpoint::DeleteGame(_)
        | Endpoint::UpdateGame(_) | Endpoint::DeleteImages(_) | Endpoint::DeleteVideos(_) => true,
        _ => false,
    }
}

/// Reading is open to everyone; every endpoint that changes data (the
/// management of games, images and videos) needs a token of the role
/// `admin`, except logging in and registering.
pub proof fn law_writes_need_a_token(e: Endpoint)
    ensures
        is_protected(e) <==> (method_of(e) != Method::Get && !(e is Login) && !(e is Register)),
{
}

/// What of the client's request goes along with an upstream call.
#[derive(Debug, Clone, Copy, PartialEq, Eq, Structural)]
pub enum Forward {
    /// Nothing: no body, no headers.
    Nothing,
    /// The client's body, sent as `application/json`.
    BodyAsJson,
    /// The client's `Content-Type` and the client's body, read whole.
    ContentTypeAndBody,
    /// Every header of the client and the client's body, streamed.
    HeadersAndStream,
    /// The client's query parameters.
    Query,
}

/// One request that the gateway sends upstream.
pub struct UpstreamCall {
    pub method: Method,
    pub url: String,
    pub forward: Forward,
    /// The outcome of the call is ignored and the next call follows.
    pub best_effort: bool,
}

/// The URL of the game service for all games.
pub open spec fn games_url() -> Seq<char> {
    "http://game-service:8001/games"@
}

/// The URL of the game service for one game.
pub open spec fn game_url(id: int) -> Seq<char> {
    "http://game-service:8001/games/"@ + decimal(id)
}

/// The URL of the image service for a game's images.
pub open spec fn images_url(id: int) -> Seq<char> {
    "http://image-service:8003/images/"@ + decimal(id)
}

/// The URL of the video service for a game's videos.
pub open spec fn videos_url(id: int) -> Seq<char> {
    "http://video-service:8004/videos/"@ + decimal(id)
}

/// Requests about different games never reach the same upstream URL.
pub proof fn law_distinct_games_distinct_urls(a: int, b: int)
    requires
        a != b,
    ensures
        game_url(a) != game_url(b),
        images_url(a) != images_url(b),
        videos_url(a) != videos_url(b),
{
    if game_url(a) == game_url(b) {
        lemma_prefixed_decimal_injective("http://game-service:8001/games/"@, a, b);
    }
    if images_url(a) == images_url(b) {
        lemma_prefixed_decimal_injective("http://image-service:8003/images/"@, a, b);
    }
    if videos_url(a) == videos_url(b) {
        lemma_prefixed_decimal_injective("http://video-service:8004/videos/"@, a, b);
    }
}

/// How many upstream calls an endpoint makes.
pub open spec fn call_count(e: Endpoint) -> nat {
    match e {
        Endpoint::DeleteGame(_) => 3,
        _ => 1,
    }
}

/// The `i`-th upstream call of an endpoint, as plain values: method, URL,
/// what is forwarded, and whether its outcome is ignored.
pub open spec fn planned_call(e: Endpoint, i: int) -> (Method, Seq<char>, Forward, bool) {
    match e {
        Endpoint::ListGames => (Method::Get, games_url(), Forward::Query, false),
        Endpoint::GetGame(id) => (Method::Get, game_url(id as int), Forward::Nothing, false),
        Endpoint::CreateGame => (Method::Post, games_url(), Forward::BodyAsJson, false),
        Endpoint::UpdateGame(id) => (Method::Put, game_url(id as int), Forward::BodyAsJson, false),
        Endpoint::DeleteGame(id) => if i == 0 {
            (Method::Delete, images_url(id as int), Forward::Nothing, true)
        } else if i == 1 {
            (Method::Delete, videos_url(id as int), Forward::Nothing, true)
        } else {
            (Method::Delete, game_url(id as int), Forward::Nothing, false)
        },
        Endpoint::UploadImages(id) => (Method::Post, images_url(id as int), Forward::ContentTypeAndBody, false),
        Endpoint::GetImages(id) => (Method::Get, images_url(id as int), Forward::Nothing, false),
        Endpoint::DeleteImages(id) => (Method::Delete, images_url(id as int), Forward::Nothing, false),
        Endpoint::UploadVideos(id) => (Method::Post, videos_url(id as int), Forward::HeadersAndStream, false),
        Endpoint::GetVideos(id) => (Method::Get, videos_url(id as int), Forward::Nothing, false),
        Endpoint::DeleteVideos(id) => (Method::Delete, videos_url(id as int), Forward::Nothing, false),
        Endpoint::Login => (Method::Post, "http://auth-service:8002/login"@, Forward::BodyAsJson, false),
        Endpoint::Register => (Method::Post, "http://auth-service:8002/register"@, Forward::BodyAsJson, false),
    }
}

/// How many upstream calls an endpoint makes.
pub fn upstream_call_count(e: &Endpoint) -> (n: usize)
    ensures
        n == call_count(*e),
{
    match e {
        Endpoint::DeleteGame(_) => 3,
        _ => 1,
    }
}

fn url_with_id(prefix: &str, id: i32) -> (u: String)
    ensures
        u@ == prefix@ + decimal(id as int),
{
    let mut u = String::from_str(prefix);
    u.append(decimal_i32(id).as_str());
    u
}

/// The `i`-th upstream call of an endpoint.
pub fn upstream_call(e: &Endpoint, i: usize) -> (c: UpstreamCall)
    requires
        i < call_count(*e),
    ensures
        (c.method, c.url@, c.forward, c.best_effort) == planned_call(*e, i as int),
{
    match e {
        Endpoint::ListGames => UpstreamCall {
            method: Method::Get, url: String::from_str("http://game-service:8001/games"), forward: Forward::Query, best_effort: false,
        },
        Endpoint::GetGame(id) => UpstreamCall {
            method: Method::Get, url: url_with_id("http://game-service:8001/games/", *id), forward: Forward::Nothing, best_effort: false,
        },
        Endpoint::CreateGame => UpstreamCall {
            method: Method::Post, url: String::from_str("http://game-service:8001/games"), forward: Forward::BodyAsJson, best_effort: false,
        },
        Endpoint::UpdateGame(id) => UpstreamCall {
            method: Method::Put, url: url_with_id("http://game-service:8001/games/", *id), forward: Forward::BodyAsJson, best_effort: false,
        },
        Endpoint::DeleteGame(id) => if i == 0 {
            UpstreamCall {
                method: Method::Delete, url: url_with_id("http://image-service:8003/images/", *id), forward: Forward::Nothing, best_effort: true,
            }
        } else if i == 1 {
            UpstreamCall {
                method: Method::Delete, url: url_with_id("http://video-service:8004/videos/", *id), forward: Forward::Nothing, best_effort: true,
            }
        } else {
            UpstreamCall {
                method: Method::Delete, url: url_with_id("http://game-service:8001/games/", *id), forward: Forward::Nothing, best_effort: false,
            }
        },
        Endpoint::UploadImages(id) => UpstreamCall {
            method: Method::Post, url: url_with_id("http://image-service:8003/images/", *id), forward: Forward::ContentTypeAndBody, best_effort: false,
        },
        Endpoint::GetImages(id) => UpstreamCall {
            method: Method::Get, url: url_with_id("http://image-service:8003/images/", *id), forward: Forward::Nothing, best_effort: false,
        },
        Endpoint::DeleteImages(id) => UpstreamCall {
            method: Method::Delete, url: url_with_id("http://image-service:8003/images/", *id), forward: Forward::Nothing, best_effort: false,
        },
        Endpoint::UploadVideos(id) => UpstreamCall {
            method: Method::Post, url: url_with_id("http://video-service:8004/videos/", *id), forward: Forward::HeadersAndStream, best_effort: false,
        },
        Endpoint::GetVideos(id) => UpstreamCall {
            method: Method::Get, url: url_with_id("http://video-service:8004/videos/", *id), forward: Forward::Nothing, best_effort: false,
        },
        Endpoint::DeleteVideos(id) => UpstreamCall {
            method: Method::Delete, url: url_with_id("http://video-service:8004/videos/", *id), forward: Forward::Nothing, best_effort: false,
        },
        Endpoint::Login => UpstreamCall {
            method: Method::Post, url: String::from_str("http://auth-service:8002/login"), forward: Forward::BodyAsJson, best_effort: false,
        },
        Endpoint::Register => UpstreamCall {
            method: Method::Post, url: String::from_str("http://auth-service:8002/register"), forward: Forward::BodyAsJson, best_effort: false,
        },
    }
}

/// Deleting a game first removes its images and then its videos, whatever
/// becomes of those two calls, and only then deletes the game itself, whose
/// call alone decides the answer.
pub proof fn law_delete_game_cleans_up_first(id: i32)
    ensures
        call_count(Endpoint::DeleteGame(id)) == 3,
        planned_call(Endpoint::DeleteGame(id), 0) == (Method::Delete, images_url(id as int), Forward::Nothing, true),
        planned_call(Endpoint::DeleteGame(id), 1) == (Method::Delete, videos_url(id as int), Forward::Nothing, true),
        planned_call(Endpoint::DeleteGame(id), 2) == (Method::Delete, game_url(id as int), Forward::Nothing, false),
{
}

/// How the gateway answers once an endpoint's upstream call has replied.
#[derive(Debug, Clone, Copy, PartialEq, Eq, Structural)]
pub enum ReplyStyle {
    /// The upstream status, with no body.
    StatusOnly,
    /// The upstream status and body.
    Bytes,
    /// The upstream status and body, as `application/json`.
    BytesAsJson,
    /// 200 with the upstream body as text, whatever the upstream status was.
    Text,
}

/// How an endpoint answers once its upstream call has replied.
pub open spec fn reply_style(e: Endpoint) -> ReplyStyle {
    match e {
        Endpoint::ListGames | Endpoint::GetGame(_) | Endpoint::Login | Endpoint::Register => ReplyStyle::Text,
        Endpoint::CreateGame | Endpoint::UploadImages(_) | Endpoint::UploadVideos(_) => ReplyStyle::BytesAsJson,
        Endpoint::GetImages(_) | Endpoint::GetVideos(_) => ReplyStyle::Bytes,
        Endpoint::UpdateGame(_) | Endpoint::DeleteGame(_) | Endpoint::DeleteImages(_) | Endpoint::DeleteVideos(_) => ReplyStyle::StatusOnly,
    }
}

/// How an endpoint answers once its upstream call has replied.
pub fn reply_style_of(e: &Endpoint) -> (s: ReplyStyle)
    ensures
        s == reply_style(*e),
{
    match e {
        Endpoint::ListGames | Endpoint::GetGame(_) | Endpoint::Login | Endpoint::Register => ReplyStyle::Text,
        Endpoint::CreateGame | Endpoint::UploadImages(_) | Endpoint::UploadVideos(_) => ReplyStyle::BytesAsJson,
        Endpoint::GetImages(_) | Endpoint::GetVideos(_) => ReplyStyle::Bytes,
        Endpoint::UpdateGame(_) | Endpoint::DeleteGame(_) | Endpoint::DeleteImages(_) | Endpoint::DeleteVideos(_) => ReplyStyle::StatusOnly,
    }
}

/// The endpoints that give up (panic) when their upstream call cannot be
/// sent or its body cannot be read.
pub open spec fn panics_on_failure(e: Endpoint) -> bool {
    e is ListGames || e is GetGame || e is CreateGame || e is Login || e is Register
}

/// Whether the endpoint gives up (panics) when its upstream call cannot be
/// sent or its body cannot be read.
pub fn gives_up_on_failure(e: &Endpoint) -> (r: bool)
    ensures
        r == panics_on_failure(*e),
{
    match e {
        Endpoint::ListGames | Endpoint::GetGame(_) | Endpoint::CreateGame | Endpoint::Login | Endpoint::Register => true,
        _ => false,
    }
}

/// What the body of the gateway's answer is.
#[derive(Debug, Clone, Copy, PartialEq, Eq, Structural)]
pub enum ReplyBody {
    Empty,
    /// The body of the upstream reply, as it came.
    UpstreamBytes,
    /// The body of the upstream reply, decoded as text (`text/plain`).
    UpstreamText,
}

/// The gateway's answer to its client.
#[derive(Debug, Clone, Copy, PartialEq, Eq, Structural)]
pub struct Reply {
    pub status: u16,
    /// Whether the answer is labelled `application/json`.
    pub json: bool,
    pub body: ReplyBody,
}

/// Where the handling of one gateway request stands.
#[derive(Debug, Clone, Copy, PartialEq, Eq, Structural)]
pub enum Stage {
    AwaitAuthorization,
    AwaitTokenCheck,
    AwaitContentType,
    AwaitClientBody,
    AwaitUpstream,
    AwaitUpstreamBody,
    Done,
}

/// The handling of one gateway request.
pub struct Exchange {
    pub endpoint: Endpoint,
    pub stage: Stage,
    /// The index of the upstream call under way or next.
    pub call: usize,
    /// Whether the request's token has been checked and accepted.
    pub authenticated: bool,
    /// The claims of the accepted token, attached to the request.
    pub claims: Option<Claims>,
    /// The status of the last upstream reply.
    pub upstream_status: u16,
}

/// What the gateway observed after the last action.
pub enum Event {
    /// The `Authorization` header as text; `None` when it is absent or not visible ASCII.
    Authorization(Option<String>),
    /// The claims of the token when it decoded and validated under the
    /// shared secret, `None` when it did not.
    TokenChecked(Option<Claims>),
    /// Whether the client's request has a `Content-Type`.
    ContentType(bool),
    /// Whether the client's body could be read.
    ClientBody(bool),
    /// The status of the upstream reply, or `None` when the call could not be sent.
    Upstream(Option<u16>),
    /// Whether the body of the upstream reply could be read.
    UpstreamBody(bool),
}

/// What the gateway does next.
pub enum Action {
    ReadAuthorization,
    /// Decode and validate this token under the shared secret.
    CheckToken(String),
    ReadContentType,
    ReadClientBody,
    /// Make the upstream call with this index (see `upstream_call`).
    Send(usize),
    ReadUpstreamBody,
    Respond(Reply),
}

/// The stage that follows a passed (or absent) token check.
pub open spec fn after_auth(e: Endpoint) -> Stage {
    if e is UploadImages { Stage::AwaitContentType } else { Stage::AwaitUpstream }
}

/// The stages that come after the token check.
pub open spec fn past_auth(st: Stage) -> bool {
    st is AwaitContentType || st is AwaitClientBody || st is AwaitUpstream || st is AwaitUpstreamBody
}

/// The consistency of a request's handling.
pub open spec fn exchange_wf(x: Exchange) -> bool {
    &&& x.call < call_count(x.endpoint)
    &&& past_auth(x.stage) && is_protected(x.endpoint) ==> x.authenticated
    &&& (x.stage is AwaitAuthorization || x.stage is AwaitTokenCheck) ==> is_protected(x.endpoint)
    &&& (x.stage is AwaitContentType || x.stage is AwaitClientBody) ==> x.endpoint is UploadImages
}

/// Whether the event is the one the stage waits for.
pub open spec fn awaited(x: Exchange, ev: Event) -> bool {
    match x.stage {
        Stage::AwaitAuthorization => ev is Authorization,
        Stage::AwaitTokenCheck => ev is TokenChecked,
        Stage::AwaitContentType => ev is ContentType,
        Stage::AwaitClientBody => ev is ClientBody,
        Stage::AwaitUpstream => ev is Upstream,
        Stage::AwaitUpstreamBody => ev is UpstreamBody,
        Stage::Done => false,
    }
}

/// The events on which the endpoint gives up (panics) instead of answering.
pub open spec fn gives_up(x: Exchange, ev: Event) -> bool {
    &&& panics_on_failure(x.endpoint)
    &&& (ev matches Event::Upstream(None) || ev matches Event::UpstreamBody(false))
}

/// Whether the current upstream call is one whose outcome is ignored.
pub open spec fn best_effort_call(x: Exchange) -> bool {
    planned_call(x.endpoint, x.call as int).3
}

/// The stage after an event.
pub open spec fn next_stage(x: Exchange, ev: Event) -> Stage {
    match ev {
        Event::Authorization(h) => if h matches Some(v) && has_bearer_prefix(v@) { Stage::AwaitTokenCheck } else { Stage::Done },
        Event::TokenChecked(_) => if admitted(ev) { after_auth(x.endpoint) } else { Stage::Done },
        Event::ContentType(ok) => if ok { Stage::AwaitClientBody } else { Stage::Done },
        Event::ClientBody(ok) => if ok { Stage::AwaitUpstream } else { Stage::Done },
        Event::Upstream(r) => if best_effort_call(x) {
            Stage::AwaitUpstream
        } else if r is None || reply_style(x.endpoint) == ReplyStyle::StatusOnly {
            Stage::Done
        } else {
            Stage::AwaitUpstreamBody
        },
        Event::UpstreamBody(_) => Stage::Done,
    }
}

/// The upstream call index after an event: a best-effort call moves on to the next.
pub open spec fn next_call(x: Exchange, ev: Event) -> usize {
    if ev is Upstream && best_effort_call(x) { (x.call + 1) as usize } else { x.call }
}

/// Whether the token has been accepted after an event.
pub open spec fn next_authenticated(x: Exchange, ev: Event) -> bool {
    x.authenticated || admitted(ev)
}

/// The claims attached to the request after an event.
pub open spec fn next_claims(x: Exchange, ev: Event) -> Option<Claims> {
    if admitted(ev) { ev->TokenChecked_0 } else { x.claims }
}

/// A token check that lets the request through: the token is valid and
/// names the role `admin`, to which game and media management is reserved.
pub open spec fn admitted(ev: Event) -> bool {
    ev matches Event::TokenChecked(Some(c)) && c.role@ == admin_role()
}

/// The last upstream status after an event.
pub open spec fn next_upstream_status(x: Exchange, ev: Event) -> u16 {
    match ev {
        Event::Upstream(Some(s)) => s,
        _ => x.upstream_status,
    }
}

/// An answer with no body.
pub open spec fn bare(status: u16) -> Reply {
    Reply { status, json: false, body: ReplyBody::Empty }
}

/// The answer that an event brings about, if it ends the request.
pub open spec fn answer(x: Exchange, ev: Event) -> Option<Reply> {
    match ev {
        Event::Authorization(h) => if h matches Some(v) && has_bearer_prefix(v@) { None } else { Some(bare(401)) },
        Event::TokenChecked(c) => match c {
            None => Some(bare(401)),
            Some(cl) => if cl.role@ == admin_role() { None } else { Some(bare(403)) },
        },
        Event::ContentType(ok) => if ok { None } else { Some(bare(400)) },
        Event::ClientBody(ok) => if ok { None } else { Some(bare(400)) },
        Event::Upstream(r) => if best_effort_call(x) {
            None
        } else {
            match r {
                None => Some(bare(502)),
                Some(s) => if reply_style(x.endpoint) == ReplyStyle::StatusOnly { Some(bare(s)) } else { None },
            }
        },
        Event::UpstreamBody(ok) => if !ok {
            Some(bare(502))
        } else {
            match reply_style(x.endpoint) {
                ReplyStyle::Bytes => Some(Reply { status: x.upstream_status, json: false, body: ReplyBody::UpstreamBytes }),
                ReplyStyle::BytesAsJson => Some(Reply { status: x.upstream_status, json: true, body: ReplyBody::UpstreamBytes }),
                ReplyStyle::Text => Some(Reply { status: 200, json: false, body: ReplyBody::UpstreamText }),
                ReplyStyle::StatusOnly => Some(bare(x.upstream_status)),
            }
        },
    }
}

/// Whether `a` is the action that the new state `y` calls for, after `ev`.
pub open spec fn action_fits(y: Exchange, ev: Event, reply: Option<Reply>, a: Action) -> bool {
    match reply {
        Some(r) => a == Action::Respond(r),
        None => match y.stage {
            Stage::AwaitTokenCheck => ev matches Event::Authorization(Some(h))
                && a matches Action::CheckToken(t) && h@ == bearer_prefix() + t@,
            Stage::AwaitContentType => a is ReadContentType,
            Stage::AwaitClientBody => a is ReadClientBody,
            Stage::AwaitUpstream => a == Action::Send(y.call),
            Stage::AwaitUpstreamBody => a is ReadUpstreamBody,
            _ => false,
        },
    }
}

fn enter(x: Exchange) -> (r: (Exchange, Action))
    ensures
        r.0 == (Exchange { stage: after_auth(x.endpoint), ..x }),
        action_fits(r.0, Event::ClientBody(true), None, r.1),
{
    let call = x.call;
    match x.endpoint {
        Endpoint::UploadImages(_) => (Exchange { stage: Stage::AwaitContentType, ..x }, Action::ReadContentType),
        _ => (Exchange { stage: Stage::AwaitUpstream, ..x }, Action::Send(call)),
    }
}

fn finish(x: Exchange, status: u16) -> (d: (Exchange, Action))
    ensures
        d.0 == (Exchange { stage: Stage::Done, ..x }),
        d.1 == Action::Respond(bare(status)),
{
    (Exchange { stage: Stage::Done, ..x }, Action::Respond(Reply { status, json: false, body: ReplyBody::Empty }))
}

/// Starts handling a request to `e`: a protected endpoint first reads the
/// `Authorization` header; any other goes straight to its upstream call.
pub fn exchange_start(e: Endpoint) -> (r: (Exchange, Action))
    ensures
        exchange_wf(r.0),
        r.0.endpoint == e,
        r.0.call == 0,
        !r.0.authenticated,
        r.0.claims is None,
        is_protected(e) ==> r.0.stage == Stage::AwaitAuthorization && r.1 is ReadAuthorization,
        !is_protected(e) ==> r.0.stage == Stage::AwaitUpstream && r.1 == Action::Send(0),
{
    if requires_auth(&e) {
        (Exchange { endpoint: e, stage: Stage::AwaitAuthorization, call: 0, authenticated: false, claims: None, upstream_status: 0 },
            Action::ReadAuthorization)
    } else {
        enter(Exchange { endpoint: e, stage: Stage::AwaitAuthorization, call: 0, authenticated: false, claims: None, upstream_status: 0 })
    }
}

/// Decides the next step of a request from what the last step observed:
/// a missing or malformed `Authorization` header and a rejected token are
/// answered 401, a valid token whose role is not `admin` 403 (the token's
/// claims are attached to the request once it is accepted), a missing content type or unreadable body of an image
/// upload 400, an unreachable upstream or unreadable upstream body 502, and
/// otherwise the upstream reply is passed on as the endpoint's style says.
pub fn exchange_step(x: Exchange, ev: Event) -> (r: (Exchange, Action))
    requires
        exchange_wf(x),
        awaited(x, ev),
        !gives_up(x, ev),
    ensures
        exchange_wf(r.0),
        r.0.endpoint == x.endpoint,
        r.0.stage == next_stage(x, ev),
        r.0.call == next_call(x, ev),
        r.0.authenticated == next_authenticated(x, ev),
        r.0.claims == next_claims(x, ev),
        r.0.upstream_status == next_upstream_status(x, ev),
        action_fits(r.0, ev, answer(x, ev), r.1),
{
    let e = x.endpoint;
    let call_index = x.call;
    let last_status = x.upstream_status;
    match ev {
        Event::Authorization(h) => {
            match h {
                Some(v) => match bearer_token(v.as_str()) {
                    Some(t) => (
                        Exchange { stage: Stage::AwaitTokenCheck, ..x },
                        Action::CheckToken(String::from_str(t)),
                    ),
                    None => finish(x, 401),
                },
                None => finish(x, 401),
            }
        },
        Event::TokenChecked(c) => match c {
            None => finish(x, 401),
            Some(cl) => if cl.role == String::from_str("admin") {
                enter(Exchange { authenticated: true, claims: Some(cl), ..x })
            } else {
                finish(x, 403)
            },
        },
        Event::ContentType(ok) => if ok {
            (Exchange { stage: Stage::AwaitClientBody, ..x }, Action::ReadClientBody)
        } else {
            finish(x, 400)
        },
        Event::ClientBody(ok) => if ok {
            (Exchange { stage: Stage::AwaitUpstream, ..x }, Action::Send(call_index))
        } else {
            finish(x, 400)
        },
        Event::Upstream(r) => {
            let call = upstream_call(&e, call_index);
            if call.best_effort {
                let next: usize = call_index + 1;
                let status: u16 = match r {
                    Some(s) => s,
                    None => last_status,
                };
                (Exchange { call: next, upstream_status: status, ..x }, Action::Send(next))
            } else {
                match r {
                    None => finish(x, 502),
                    Some(s) => {
                        let style = reply_style_of(&e);
                        if style == ReplyStyle::StatusOnly {
                            (Exchange { stage: Stage::Done, upstream_status: s, ..x },
                                Action::Respond(Reply { status: s, json: false, body: ReplyBody::Empty }))
                        } else {
                            (Exchange { stage: Stage::AwaitUpstreamBody, upstream_status: s, ..x }, Action::ReadUpstreamBody)
                        }
                    },
                }
            }
        },
        Event::UpstreamBody(ok) => {
            if !ok {
                finish(x, 502)
            } else {
                let reply = match reply_style_of(&e) {
                    ReplyStyle::Bytes => Reply { status: last_status, json: false, body: ReplyBody::UpstreamBytes },
                    ReplyStyle::BytesAsJson => Reply { status: last_status, json: true, body: ReplyBody::UpstreamBytes },
                    ReplyStyle::Text => Reply { status: 200, json: false, body: ReplyBody::UpstreamText },
                    ReplyStyle::StatusOnly => Reply { status: last_status, json: false, body: ReplyBody::Empty },
                };
                (Exchange { stage: Stage::Done, ..x }, Action::Respond(reply))
            }
        },
    }
}

/// No protected endpoint is forwarded before its token was accepted: after
/// any step, a request that waits on its upstream (or on what precedes it)
/// is unprotected or had a valid token of the role `admin` on the way; a
/// valid token of any other role is answered 403, an invalid one 401.
pub proof fn law_no_forwarding_without_a_token(x: Exchange, ev: Event)
    requires
        exchange_wf(x),
        awaited(x, ev),
    ensures
        past_auth(next_stage(x, ev)) && is_protected(x.endpoint) ==> next_authenticated(x, ev),
        next_authenticated(x, ev) ==> x.authenticated || (ev matches Event::TokenChecked(Some(c)) && c.role@ == "admin"@),
        ev matches Event::TokenChecked(None) ==> answer(x, ev) == Some(Reply { status: 401, json: false, body: ReplyBody::Empty }),
        ev matches Event::TokenChecked(Some(c)) && c.role@ != "admin"@ ==>
            answer(x, ev) == Some(Reply { status: 403, json: false, body: ReplyBody::Empty }),
        ev matches Event::TokenChecked(Some(c)) && c.role@ == "admin"@ && x.stage == Stage::AwaitTokenCheck ==>
            answer(x, ev) is None && next_stage(x, ev) == after_auth(x.endpoint) && next_claims(x, ev) == ev->TokenChecked_0,
        ev matches Event::Authorization(h) ==> (
            answer(x, ev) == Some(bare(401)) <==> !(h matches Some(v) && has_bearer_prefix(v@))),
{
}

/// The outcome of a best-effort call changes nothing but the call index:
/// whether it failed or what status it got, the next call follows and no
/// answer is given.
pub proof fn law_best_effort_outcome_is_ignored(x: Exchange, r1: Option<u16>, r2: Option<u16>)
    requires
        exchange_wf(x),
        x.stage == Stage::AwaitUpstream,
        best_effort_call(x),
    ensures
        next_stage(x, Event::Upstream(r1)) == Stage::AwaitUpstream,
        next_call(x, Event::Upstream(r1)) == x.call + 1,
        answer(x, Event::Upstream(r1)) == answer(x, Event::Upstream(r2)),
        answer(x, Event::Upstream(r1)) is None,
{
}

/// The text endpoints answer 200 with the upstream body whatever status the
/// upstream gave, and the status-only endpoints pass the upstream status on.
pub proof fn law_text_endpoints_answer_ok(x: Exchange, s: u16)
    requires
        x.stage == Stage::AwaitUpstreamBody,
    ensures
        reply_style(x.endpoint) == ReplyStyle::Text ==>
            answer(x, Event::UpstreamBody(true)) == Some(Reply { status: 200, json: false, body: ReplyBody::UpstreamText }),
        reply_style(x.endpoint) == ReplyStyle::StatusOnly && !best_effort_call(x) ==>
            answer(x, Event::Upstream(Some(s))) == Some(bare(s)),
{
}

/// Where each endpoint is forwarded: the method, the exact upstream URL,
/// what goes along, and whether the outcome is ignored. The game service is
/// at `game-service:8001`, images at `image-service:8003`, videos at
/// `video-service:8004`, accounts at `auth-service:8002`; the id in a URL is
/// written in decimal.
pub proof fn law_endpoint_routes(id: i32)
    ensures
        planned_call(Endpoint::ListGames, 0) == (Method::Get, "http://game-service:8001/games"@, Forward::Query, false),
        planned_call(Endpoint::GetGame(id), 0)
            == (Method::Get, "http://game-service:8001/games/"@ + decimal(id as int), Forward::Nothing, false),
        planned_call(Endpoint::CreateGame, 0) == (Method::Post, "http://game-service:8001/games"@, Forward::BodyAsJson, false),
        planned_call(Endpoint::UpdateGame(id), 0)
            == (Method::Put, "http://game-service:8001/games/"@ + decimal(id as int), Forward::BodyAsJson, false),
        planned_call(Endpoint::DeleteGame(id), 0)
            == (Method::Delete, "http://image-service:8003/images/"@ + decimal(id as int), Forward::Nothing, true),
        planned_call(Endpoint::DeleteGame(id), 1)
            == (Method::Delete, "http://video-service:8004/videos/"@ + decimal(id as int), Forward::Nothing, true),
        planned_call(Endpoint::DeleteGame(id), 2)
            == (Method::Delete, "http://game-service:8001/games/"@ + decimal(id as int), Forward::Nothing, false),
        planned_call(Endpoint::UploadImages(id), 0)
            == (Method::Post, "http://image-service:8003/images/"@ + decimal(id as int), Forward::ContentTypeAndBody, false),
        planned_call(Endpoint::GetImages(id), 0)
            == (Method::Get, "http://image-service:8003/images/"@ + decimal(id as int), Forward::Nothing, false),
        planned_call(Endpoint::DeleteImages(id), 0)
            == (Method::Delete, "http://image-service:8003/images/"@ + decimal(id as int), Forward::Nothing, false),
        planned_call(Endpoint::UploadVideos(id), 0)
            == (Method::Post, "http://video-service:8004/videos/"@ + decimal(id as int), Forward::HeadersAndStream, false),
        planned_call(Endpoint::GetVideos(id), 0)
            == (Method::Get, "http://video-service:8004/videos/"@ + decimal(id as int), Forward::Nothing, false),
        planned_call(Endpoint::DeleteVideos(id), 0)
            == (Method::Delete, "http://video-service:8004/videos/"@ + decimal(id as int), Forward::Nothing, false),
        planned_call(Endpoint::Login, 0) == (Method::Post, "http://auth-service:8002/login"@, Forward::BodyAsJson, false),
        planned_call(Endpoint::Register, 0) == (Method::Post, "http://auth-service:8002/register"@, Forward::BodyAsJson, false),
        call_count(Endpoint::DeleteGame(id)) == 3,
        forall|e: Endpoint| !(e is DeleteGame) ==> call_count(e) == 1,
{
}

/// Logging in and registering reach different upstream URLs: the last path
/// segment is `login` for the one and `register` for the other.
pub proof fn law_login_and_register_differ()
    ensures
        planned_call(Endpoint::Login, 0).1 != planned_call(Endpoint::Register, 0).1,
        planned_call(Endpoint::Login, 0).1.skip(25) == "login"@,
        planned_call(Endpoint::Register, 0).1.skip(25) == "register"@,
{
    reveal_strlit("http://auth-service:8002/login");
    reveal_strlit("http://auth-service:8002/register");
    reveal_strlit("login");
    reveal_strlit("register");
    let l = planned_call(Endpoint::Login, 0).1;
    let r = planned_call(Endpoint::Register, 0).1;
    assert(l.skip(25) =~= "login"@);
    assert(r.skip(25) =~= "register"@);
    assert(l.len() != r.len());
}

/// The protected endpoints are exactly the management of games, images and
/// videos: creating, updating and deleting games, and uploading and
/// deleting images and videos.
pub proof fn law_protected_endpoints(e: Endpoint)
    ensures
        method_of(e) == Method::Get <==> (e is ListGames || e is GetGame || e is GetImages || e is GetVideos),
        method_of(e) == Method::Put <==> e is UpdateGame,
        method_of(e) == Method::Delete <==> (e is DeleteGame || e is DeleteImages || e is DeleteVideos),
        is_protected(e) <==> (e is CreateGame || e is UpdateGame || e is DeleteGame || e is UploadImages
            || e is DeleteImages || e is UploadVideos || e is DeleteVideos),
{
}

/// How each endpoint passes an upstream reply with status `s` on: creating a
/// game and uploading media read the reply and answer it with status `s` as
/// `application/json` (the created game's id, the service's answer);
/// listing media answers the reply's bytes with status `s`; listing games,
/// getting a game, logging in and registering answer 200 with the reply as
/// text; updating a game and deleting media answer `s` at once, with no body.
pub proof fn law_upstream_reply_per_endpoint(x: Exchange, s: u16)
    requires
        exchange_wf(x),
        x.stage == Stage::AwaitUpstream,
        !best_effort_call(x),
    ensures
        (x.endpoint is CreateGame || x.endpoint is UploadImages || x.endpoint is UploadVideos || x.endpoint is GetImages
            || x.endpoint is GetVideos || x.endpoint is ListGames || x.endpoint is GetGame || x.endpoint is Login
            || x.endpoint is Register) ==> next_stage(x, Event::Upstream(Some(s))) == Stage::AwaitUpstreamBody
            && answer(x, Event::Upstream(Some(s))) is None,
        (x.endpoint is UpdateGame || x.endpoint is DeleteGame || x.endpoint is DeleteImages || x.endpoint is DeleteVideos)
            ==> next_stage(x, Event::Upstream(Some(s))) == Stage::Done
            && answer(x, Event::Upstream(Some(s))) == Some(Reply { status: s, json: false, body: ReplyBody::Empty }),
{
}

/// The answer once the upstream body was read, endpoint by endpoint (see
/// `law_upstream_reply_per_endpoint`).
pub proof fn law_reply_body_per_endpoint(x: Exchange)
    requires
        x.stage == Stage::AwaitUpstreamBody,
    ensures
        (x.endpoint is CreateGame || x.endpoint is UploadImages || x.endpoint is UploadVideos) ==>
            answer(x, Event::UpstreamBody(true)) == Some(Reply { status: x.upstream_status, json: true, body: ReplyBody::UpstreamBytes }),
        (x.endpoint is GetImages || x.endpoint is GetVideos) ==>
            answer(x, Event::UpstreamBody(true)) == Some(Reply { status: x.upstream_status, json: false, body: ReplyBody::UpstreamBytes }),
        (x.endpoint is ListGames || x.endpoint is GetGame || x.endpoint is Login || x.endpoint is Register) ==>
            answer(x, Event::UpstreamBody(true)) == Some(Reply { status: 200, json: false, body: ReplyBody::UpstreamText }),
        answer(x, Event::UpstreamBody(false)) == Some(Reply { status: 502, json: false, body: ReplyBody::Empty }),
        next_stage(x, Event::UpstreamBody(true)) == Stage::Done,
{
}

} // verus!
