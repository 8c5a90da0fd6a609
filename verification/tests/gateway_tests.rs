use gameup::auth::Claims;
use gameup::gateway::{
    exchange_start, exchange_step, Exchange, method, requires_auth, upstream_call, upstream_call_count, Action, Endpoint, Event,
    Forward, Method, Reply, ReplyBody, Stage,
};

fn claims(role: &str) -> Option<Claims> {
    Some(Claims { sub: "someone".to_string(), role: role.to_string(), exp: 4_000_000_000 })
}

fn reply(a: &Action) -> Option<Reply> {
    match a {
        Action::Respond(r) => Some(*r),
        _ => None,
    }
}

#[test]
fn only_writes_need_a_token() {
    assert!(!requires_auth(&Endpoint::ListGames));
    assert!(!requires_auth(&Endpoint::GetGame(1)));
    assert!(!requires_auth(&Endpoint::GetVideos(1)));
    assert!(!requires_auth(&Endpoint::Login));
    assert!(!requires_auth(&Endpoint::Register));
    assert!(requires_auth(&Endpoint::CreateGame));
    assert!(requires_auth(&Endpoint::DeleteGame(1)));
    assert!(requires_auth(&Endpoint::UploadImages(1)));
    assert!(requires_auth(&Endpoint::DeleteVideos(1)));
    assert_eq!(method(&Endpoint::UpdateGame(1)), Method::Put);
}

#[test]
fn upstream_urls_carry_the_id() {
    let c = upstream_call(&Endpoint::GetGame(17), 0);
    assert_eq!(c.url, "http://game-service:8001/games/17");
    assert_eq!(c.method, Method::Get);
    let c = upstream_call(&Endpoint::UploadVideos(-3), 0);
    assert_eq!(c.url, "http://video-service:8004/videos/-3");
    assert_eq!(c.forward, Forward::HeadersAndStream);
    let c = upstream_call(&Endpoint::Login, 0);
    assert_eq!(c.url, "http://auth-service:8002/login");
    assert_eq!(c.forward, Forward::BodyAsJson);
}

#[test]
fn delete_game_removes_media_first() {
    let e = Endpoint::DeleteGame(5);
    assert_eq!(upstream_call_count(&e), 3);
    let urls: Vec<String> = (0..3).map(|i| upstream_call(&e, i).url).collect();
    assert_eq!(urls, vec![
        "http://image-service:8003/images/5".to_string(),
        "http://video-service:8004/videos/5".to_string(),
        "http://game-service:8001/games/5".to_string(),
    ]);
    assert!(upstream_call(&e, 0).best_effort);
    assert!(!upstream_call(&e, 2).best_effort);
}

/// A request to `e` past a valid `admin` token.
fn admitted(e: Endpoint) -> Exchange {
    let (x, _) = exchange_start(e);
    let (x, _) = exchange_step(x, Event::Authorization(Some("Bearer t".to_string())));
    let (x, _) = exchange_step(x, Event::TokenChecked(claims("admin")));
    x
}

#[test]
fn missing_or_malformed_authorization_is_refused() {
    let (x, a) = exchange_start(Endpoint::CreateGame);
    assert!(matches!(a, Action::ReadAuthorization));
    let (y, a) = exchange_step(x, Event::Authorization(None));
    assert_eq!(reply(&a), Some(Reply { status: 401, json: false, body: ReplyBody::Empty }));
    assert_eq!(y.stage, Stage::Done);
    let (x, _) = exchange_start(Endpoint::CreateGame);
    let (_, a) = exchange_step(x, Event::Authorization(Some("Token xyz".to_string())));
    assert_eq!(reply(&a).map(|r| r.status), Some(401));
}

#[test]
fn rejected_token_is_refused() {
    let (x, _) = exchange_start(Endpoint::DeleteImages(2));
    let (x, a) = exchange_step(x, Event::Authorization(Some("Bearer t0k".to_string())));
    assert!(matches!(a, Action::CheckToken(ref t) if t == "t0k"));
    let (_, a) = exchange_step(x, Event::TokenChecked(None));
    assert_eq!(reply(&a).map(|r| r.status), Some(401));
}

#[test]
fn token_of_a_plain_user_is_forbidden() {
    let (x, _) = exchange_start(Endpoint::UploadVideos(2));
    let (x, _) = exchange_step(x, Event::Authorization(Some("Bearer t".to_string())));
    let (y, a) = exchange_step(x, Event::TokenChecked(claims("user")));
    assert_eq!(reply(&a), Some(Reply { status: 403, json: false, body: ReplyBody::Empty }));
    assert!(!y.authenticated);
    assert!(y.claims.is_none());
}

#[test]
fn admin_token_leads_to_forwarding_with_its_claims() {
    let (x, _) = exchange_start(Endpoint::UpdateGame(8));
    let (x, _) = exchange_step(x, Event::Authorization(Some("Bearer t".to_string())));
    let (x, a) = exchange_step(x, Event::TokenChecked(claims("admin")));
    assert!(matches!(a, Action::Send(0)));
    assert!(x.authenticated);
    assert_eq!(x.claims.as_ref().map(|c| c.role.as_str()), Some("admin"));
    let (_, a) = exchange_step(x, Event::Upstream(Some(204)));
    assert_eq!(reply(&a), Some(Reply { status: 204, json: false, body: ReplyBody::Empty }));
    let (_, a) = exchange_step(admitted(Endpoint::UpdateGame(8)), Event::Upstream(None));
    assert_eq!(reply(&a).map(|r| r.status), Some(502));
}

#[test]
fn image_upload_checks_content_type_then_body() {
    let (_, a) = exchange_step(admitted(Endpoint::UploadImages(1)), Event::ContentType(false));
    assert_eq!(reply(&a).map(|r| r.status), Some(400));
    let (x, a) = exchange_step(admitted(Endpoint::UploadImages(1)), Event::ContentType(true));
    assert!(matches!(a, Action::ReadClientBody));
    let (_, a) = exchange_step(x, Event::ClientBody(false));
    assert_eq!(reply(&a).map(|r| r.status), Some(400));
    let (x, _) = exchange_step(admitted(Endpoint::UploadImages(1)), Event::ContentType(true));
    let (x, a) = exchange_step(x, Event::ClientBody(true));
    assert!(matches!(a, Action::Send(0)));
    let (x, a) = exchange_step(x, Event::Upstream(Some(201)));
    assert!(matches!(a, Action::ReadUpstreamBody));
    let (_, a) = exchange_step(x, Event::UpstreamBody(true));
    assert_eq!(reply(&a), Some(Reply { status: 201, json: true, body: ReplyBody::UpstreamBytes }));
}

#[test]
fn unreadable_upstream_body_is_bad_gateway() {
    let (x, _) = exchange_step(admitted(Endpoint::UploadVideos(1)), Event::Upstream(Some(200)));
    let (_, a) = exchange_step(x, Event::UpstreamBody(false));
    assert_eq!(reply(&a).map(|r| r.status), Some(502));
}

#[test]
fn public_reads_skip_the_token() {
    let (x, a) = exchange_start(Endpoint::GetImages(3));
    assert!(matches!(a, Action::Send(0)));
    let (x, _) = exchange_step(x, Event::Upstream(Some(404)));
    let (_, a) = exchange_step(x, Event::UpstreamBody(true));
    assert_eq!(reply(&a), Some(Reply { status: 404, json: false, body: ReplyBody::UpstreamBytes }));
}

#[test]
fn text_endpoints_answer_ok_whatever_upstream_said() {
    let (x, _) = exchange_start(Endpoint::Login);
    let (x, _) = exchange_step(x, Event::Upstream(Some(401)));
    let (_, a) = exchange_step(x, Event::UpstreamBody(true));
    assert_eq!(reply(&a), Some(Reply { status: 200, json: false, body: ReplyBody::UpstreamText }));
}

#[test]
fn delete_game_ignores_media_failures() {
    let x = admitted(Endpoint::DeleteGame(6));
    let (x, a) = exchange_step(x, Event::Upstream(None));
    assert!(matches!(a, Action::Send(1)));
    let (x, a) = exchange_step(x, Event::Upstream(Some(500)));
    assert!(matches!(a, Action::Send(2)));
    let (_, a) = exchange_step(x, Event::Upstream(Some(204)));
    assert_eq!(reply(&a), Some(Reply { status: 204, json: false, body: ReplyBody::Empty }));
}
