use live_notifier::broadcast::{LiveStream, OAuthResponse, ResponseList, Timestamp};
use live_notifier::dedup::{diff_new, State};
use live_notifier::notify::{
    attachment_name, build_embed, build_payload, channel_link, needs_multipart, LIVE_STARTED,
    UNKNOWN_TITLE,
};
use live_notifier::platform::{
    streams_by_name_url, streams_by_user_id_url, token_request_body, user_by_login_url,
    TwitchAPI, TwitchAPIError,
};
use live_notifier::session::{Command, ConfigFile, Event, Phase, Run};
use live_notifier::text::replace_token;

const TEMPLATE: &str =
    "https://static-cdn.jtvnw.net/previews-ttv/live_user_someone-{width}x{height}.jpg";

fn stream(id: &str, login: &str, title: Option<&str>, game: Option<&str>) -> LiveStream {
    LiveStream {
        id: id.to_string(),
        user_id: "42".to_string(),
        user_login: login.to_string(),
        user_name: Some("Someone".to_string()),
        game_id: None,
        game_name: game.map(|g| g.to_string()),
        stream_type: "live".to_string(),
        title: title.map(|t| t.to_string()),
        viewer_count: 3,
        started_at: Timestamp { secs: 1_615_346_291, nanos: 0 },
        thumbnail_url: Some(TEMPLATE.to_string()),
        is_mature: false,
    }
}

fn list(ids: &[&str]) -> ResponseList<LiveStream> {
    ResponseList { data: ids.iter().map(|i| stream(i, "someone", Some("t"), None)).collect() }
}

fn ids(l: &ResponseList<LiveStream>) -> Vec<String> {
    l.data.iter().map(|s| s.id.clone()).collect()
}

fn token(t: &str) -> OAuthResponse {
    OAuthResponse { access_token: t.to_string(), expires_in: 5000, token_type: "bearer".to_string() }
}

#[test]
fn diff_removes_ids_seen_last_time() {
    let prior = Some(State { auth: None, lives: Some(list(&["1", "3"])) });
    let mut fresh = list(&["1", "2", "3", "4"]);
    diff_new(&prior, &mut fresh);
    assert_eq!(ids(&fresh), vec!["2", "4"]);
}

#[test]
fn diff_is_identity_without_state() {
    let mut fresh = list(&["1", "2"]);
    diff_new(&None, &mut fresh);
    assert_eq!(ids(&fresh), vec!["1", "2"]);
}

#[test]
fn trim_without_last_set_keeps_all() {
    let st = State { auth: Some(token("x")), lives: None };
    let mut fresh = list(&["7"]);
    st.trim(&mut fresh);
    assert_eq!(ids(&fresh), vec!["7"]);
}

#[test]
fn trim_everything_seen_leaves_nothing() {
    let st = State { auth: None, lives: Some(list(&["7", "8"])) };
    let mut fresh = list(&["8", "7"]);
    st.trim(&mut fresh);
    assert!(fresh.data.is_empty());
}

#[test]
fn empty_list_builds_no_payload() {
    assert!(build_payload(&Vec::new(), &Vec::new()).is_none());
}

#[test]
fn title_is_taken_first() {
    let s = stream("1", "a", Some("Speedrun"), Some("Game"));
    assert_eq!(s.embed_title(), "Speedrun");
}

#[test]
fn title_falls_back_to_category() {
    let s = stream("1", "a", None, Some("Game"));
    assert_eq!(s.embed_title(), "Game");
}

#[test]
fn title_falls_back_to_placeholder() {
    let s = stream("1", "a", None, None);
    assert_eq!(s.embed_title(), UNKNOWN_TITLE);
    assert_eq!(s.embed_title(), "タイトル不明");
}

#[test]
fn thumbnail_url_with_both_tokens() {
    let s = stream("1", "a", None, None);
    assert_eq!(
        s.thumbnail_fetch_url().unwrap(),
        "https://static-cdn.jtvnw.net/previews-ttv/live_user_someone-0x0.jpg"
    );
}

#[test]
fn thumbnail_url_with_one_token() {
    let mut s = stream("1", "a", None, None);
    s.thumbnail_url = Some("https://x/img-{width}.png".to_string());
    assert_eq!(s.thumbnail_fetch_url().unwrap(), "https://x/img-0.png");
    s.thumbnail_url = Some("https://x/img-{height}.png".to_string());
    assert_eq!(s.thumbnail_fetch_url().unwrap(), "https://x/img-0.png");
}

#[test]
fn thumbnail_url_with_no_token() {
    let mut s = stream("1", "a", None, None);
    s.thumbnail_url = Some("https://x/img.png".to_string());
    assert_eq!(s.thumbnail_fetch_url().unwrap(), "https://x/img.png");
    s.thumbnail_url = None;
    assert!(s.thumbnail_fetch_url().is_none());
}

#[test]
fn replace_token_repeats_and_resumes() {
    assert_eq!(replace_token("{w}{w}x{w", "{w}", "0"), "00x{w");
    assert_eq!(replace_token("", "{w}", "0"), "");
    assert_eq!(replace_token("aaa", "aa", "b"), "ba");
}

#[test]
fn thumbnail_name_takes_url_extension() {
    let mut s = stream("123", "a", None, None);
    assert_eq!(s.thumbnail_name(), "123.jpg");
    s.thumbnail_url = Some("https://x/img-{width}x{height}.png".to_string());
    assert_eq!(s.thumbnail_name(), "123.png");
}

#[test]
fn thumbnail_name_defaults_to_jpg() {
    let mut s = stream("9", "a", None, None);
    s.thumbnail_url = Some("https://x/img".to_string());
    assert_eq!(s.thumbnail_name(), "9.jpg");
    s.thumbnail_url = Some("https://x/img.".to_string());
    assert_eq!(s.thumbnail_name(), "9.jpg");
    s.thumbnail_url = None;
    assert_eq!(s.thumbnail_name(), "9.jpg");
}

#[test]
fn attachment_name_forms() {
    assert_eq!(attachment_name(&"5".to_string(), &Some("webp".to_string())), "5.webp");
    assert_eq!(attachment_name(&"5".to_string(), &Some(String::new())), "5.jpg");
    assert_eq!(attachment_name(&"5".to_string(), &None), "5.jpg");
}

#[test]
fn embed_carries_link_category_and_time() {
    let s = stream("1", "someone", Some("T"), Some("Game"));
    let e = build_embed(&s, true);
    assert_eq!(e.title, "T");
    assert_eq!(e.url.as_deref(), Some("https://www.twitch.tv/someone"));
    assert_eq!(e.description.as_deref(), Some("Game"));
    assert_eq!(e.timestamp, Some(Timestamp { secs: 1_615_346_291, nanos: 0 }));
    assert_eq!(e.image.unwrap().url, "attachment://1.jpg");
    assert!(e.thumbnail.is_none());
    assert!(e.color.is_none());
    assert_eq!(channel_link(&"abc".to_string()), "https://www.twitch.tv/abc");
}

#[test]
fn failed_thumbnail_still_notifies_as_plain_json() {
    let streams = list(&["X"]).data;
    let fetched = vec![false];
    let body = build_payload(&streams, &fetched).unwrap();
    assert_eq!(body.content, LIVE_STARTED);
    assert!(body.avatar_url.is_none());
    assert_eq!(body.embeds.len(), 1);
    assert!(body.embeds[0].image.is_none());
    assert!(!needs_multipart(&fetched));
}

#[test]
fn fetched_thumbnail_goes_as_attachment() {
    let streams = list(&["X", "Y"]).data;
    let fetched = vec![false, true];
    let body = build_payload(&streams, &fetched).unwrap();
    assert!(body.embeds[0].image.is_none());
    assert_eq!(body.embeds[1].image.as_ref().unwrap().url, "attachment://Y.jpg");
    assert!(needs_multipart(&fetched));
    let short = build_payload(&streams, &vec![true]).unwrap();
    assert!(short.embeds[0].image.is_some());
    assert!(short.embeds[1].image.is_none());
}

#[test]
fn requests_are_formed() {
    assert_eq!(
        token_request_body("id", "sec"),
        "client_id=id&client_secret=sec&grant_type=client_credentials"
    );
    assert_eq!(streams_by_name_url("bob"), "https://api.twitch.tv/helix/streams?user_login=bob");
    assert_eq!(streams_by_user_id_url("12"), "https://api.twitch.tv/helix/streams?user_id=12");
    assert_eq!(user_by_login_url("bob"), "https://api.twitch.tv/helix/users?login=bob");
    let api = TwitchAPI::new(token("tok"), "cid".to_string());
    let h = api.headers();
    assert_eq!(h[0], ("Client-ID".to_string(), "cid".to_string()));
    assert_eq!(h[1], ("Authorization".to_string(), "Bearer tok".to_string()));
}

#[test]
fn unauthorized_is_only_401() {
    assert!(TwitchAPIError::Transport { status: Some(401) }.is_unauthorized());
    assert!(!TwitchAPIError::Transport { status: Some(500) }.is_unauthorized());
    assert!(!TwitchAPIError::Transport { status: None }.is_unauthorized());
    assert!(!TwitchAPIError::Parse { detail: "x".to_string() }.is_unauthorized());
}

#[test]
fn template_config_has_empty_fields_and_webhook_prefix() {
    let c = ConfigFile::template();
    assert_eq!(c.client_id, "");
    assert_eq!(c.client_secret, "");
    assert_eq!(c.target_user, "");
    assert_eq!(c.discord, "https://discord.com/api/webhooks/");
}

#[test]
fn empty_response_list() {
    let l: ResponseList<LiveStream> = ResponseList::new();
    assert!(l.data.is_empty());
}

#[test]
fn timestamp_bounds_nanos() {
    assert_eq!(Timestamp::new(5, 7), Some(Timestamp { secs: 5, nanos: 7 }));
    assert_eq!(Timestamp::new(5, 1_000_000_000), None);
}

#[test]
fn unauthorized_query_reauthenticates_once() {
    let prior = Some(State { auth: Some(token("old")), lives: None });
    let (mut run, step) = Run::start(prior);
    assert!(matches!(step.command, Command::Query(ref c) if c.access_token == "old"));
    let step = run.advance(Event::Queried(Err(TwitchAPIError::Transport { status: Some(401) })));
    assert!(matches!(step.command, Command::Login));
    let saved = step.save.unwrap();
    assert!(saved.auth.is_none());
    let step = run.advance(Event::LoggedIn(token("new")));
    assert!(matches!(step.command, Command::Query(ref c) if c.access_token == "new"));
    assert_eq!(step.save.unwrap().auth.unwrap().access_token, "new");
    let step = run.advance(Event::Queried(Err(TwitchAPIError::Transport { status: Some(401) })));
    assert!(matches!(step.command, Command::Stop));
    assert!(step.save.is_none());
    assert_eq!(run.phase, Phase::Finished);
}

#[test]
fn server_error_ends_without_reauthentication() {
    let prior = Some(State { auth: Some(token("old")), lives: None });
    let (mut run, _) = Run::start(prior);
    let step = run.advance(Event::Queried(Err(TwitchAPIError::Transport { status: Some(500) })));
    assert!(matches!(step.command, Command::Stop));
    assert!(step.save.is_none());
    assert_eq!(run.phase, Phase::Finished);
}

#[test]
fn successful_first_query_never_logs_in() {
    let prior = Some(State { auth: Some(token("old")), lives: None });
    let (mut run, step) = Run::start(prior);
    assert!(matches!(step.command, Command::Query(_)));
    let step = run.advance(Event::Queried(Ok(list(&["A"]))));
    assert!(matches!(step.command, Command::Notify(_)));
    let step = run.advance(Event::Sent(true));
    assert!(matches!(step.command, Command::Stop));
}

#[test]
fn no_state_logs_in_first() {
    let (mut run, step) = Run::start(None);
    assert!(matches!(step.command, Command::Login));
    let step = run.advance(Event::LoggedIn(token("t")));
    assert!(step.save.is_none());
    assert!(matches!(step.command, Command::Query(_)));
}

#[test]
fn only_new_broadcast_is_notified_and_whole_fetch_persisted() {
    let prior = Some(State { auth: Some(token("tok")), lives: Some(list(&["A"])) });
    let (mut run, _) = Run::start(prior);
    let step = run.advance(Event::Queried(Ok(list(&["A", "B"]))));
    match step.command {
        Command::Notify(l) => assert_eq!(ids(&l), vec!["B"]),
        _ => panic!("expected a notification"),
    }
    assert!(step.save.is_none());
    let step = run.advance(Event::Sent(true));
    let saved = step.save.unwrap();
    assert_eq!(ids(saved.lives.as_ref().unwrap()), vec!["A", "B"]);
    assert_eq!(saved.auth.unwrap().access_token, "tok");
}

#[test]
fn nothing_new_persists_and_stops() {
    let prior = Some(State { auth: Some(token("tok")), lives: Some(list(&["A"])) });
    let (mut run, _) = Run::start(prior);
    let step = run.advance(Event::Queried(Ok(list(&["A"]))));
    assert!(matches!(step.command, Command::Stop));
    assert_eq!(ids(step.save.unwrap().lives.as_ref().unwrap()), vec!["A"]);
}

#[test]
fn failed_delivery_persists_nothing() {
    let (mut run, _) = Run::start(Some(State { auth: Some(token("tok")), lives: None }));
    run.advance(Event::Queried(Ok(list(&["A"]))));
    let step = run.advance(Event::Sent(false));
    assert!(step.save.is_none());
    assert!(matches!(step.command, Command::Stop));
}
