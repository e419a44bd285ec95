use steam_api::{
    AchievementData, ApiError, DecodeError, DecodeErrorKind, Exchange, Json, Member, NewsItem,
    Number, RequestError, Step, SteamAPI,
};

const ID_ENDER_LILIES: i32 = 1369630;
const ID_ENDER_MAGNOLIA: i32 = 2725260;
const MY_PLAYER_ID: i64 = 76561198065075223;

fn create_api() -> Result<SteamAPI, ApiError> {
    SteamAPI::new(String::new())
}

fn text(s: &str) -> Json {
    Json::Text(s.to_string())
}

fn integer(n: i128) -> Json {
    Json::Number(Number::Integer(n))
}

fn fraction(x: f64) -> Json {
    Json::Number(Number::Real(x.to_bits()))
}

fn object(fields: Vec<(&str, Json)>) -> Json {
    Json::Object(
        fields
            .into_iter()
            .map(|(name, value)| Member { name: name.to_string(), value })
            .collect(),
    )
}

fn news_item(gid: &str, appid: i32) -> Json {
    object(vec![
        ("gid", text(gid)),
        ("title", text("Update")),
        ("url", text("https://example.com/u")),
        ("is_external_url", Json::Boolean(false)),
        ("author", text("team")),
        ("contents", text("News.")),
        ("feedlabel", text("Announcements")),
        ("date", integer(1718000000)),
        ("feedname", text("steam_community_announcements")),
        ("feed_type", integer(1)),
        ("appid", integer(appid as i128)),
    ])
}

fn news_body(appid: i32, items: usize) -> Json {
    let list: Vec<Json> = (0..items).map(|k| news_item(&format!("gid{}", k), appid)).collect();
    object(vec![(
        "appnews",
        object(vec![
            ("appid", integer(appid as i128)),
            ("newsitems", Json::List(list)),
            ("count", integer(250)),
        ]),
    )])
}

fn achievements_body(entries: Vec<(&str, f64)>) -> Json {
    let list: Vec<Json> = entries
        .into_iter()
        .map(|(name, percent)| object(vec![("name", text(name)), ("percent", fraction(percent))]))
        .collect();
    object(vec![("achievementpercentages", object(vec![("achievements", Json::List(list))]))])
}

fn replied(body: Json) -> Option<Exchange> {
    Some(Exchange::Replied { status: 200, body: Some(body) })
}

fn done<T: std::fmt::Debug>(step: Step<T>) -> Result<T, ApiError> {
    match step {
        Step::Done(result) => result,
        other => panic!("expected a result, got {:?}", other),
    }
}

#[test]
fn get_news() {
    // create API
    let api = create_api().unwrap();
    assert!(matches!(api.get_news_for_app(ID_ENDER_LILIES, 10, None), Step::Send(_)));
    let news = done(api.get_news_for_app(ID_ENDER_LILIES, 10, replied(news_body(ID_ENDER_LILIES, 10))));
    assert!(news.is_ok());
    println!("get news test have passed.");
}

#[test]
fn get_achievements() {
    // create API
    let api = create_api().unwrap();
    // for game which have achievements.
    let reply = replied(achievements_body(vec![("ACH_FIRST", 87.5), ("ACH_LAST", 3.25)]));
    let achievements = done(api.get_global_achievement_percentages_for_app(ID_ENDER_LILIES, reply));
    assert!(achievements.is_ok());
    let achievements = achievements.unwrap();
    assert_ne!(achievements.len(), 0);
    // for game which have NO achievements.
    let reply = replied(object(Vec::new()));
    let achievements = done(api.get_global_achievement_percentages_for_app(ID_ENDER_MAGNOLIA, reply));
    assert!(achievements.is_ok());
    println!("get achievements test have passed.");
}

#[test]
fn get_player_summaries() {
    // create API
    let api = create_api().unwrap();
    let step = api.get_player_summaries(MY_PLAYER_ID, None);
    assert_eq!(step, Step::Done(Err(ApiError::Request(RequestError::MissingCredential))));
}

#[test]
fn a_client_can_be_built_around_a_transport_or_not_at_all() {
    let transport = SteamAPI::new(String::new()).unwrap().transport().clone();
    let api = SteamAPI::with_transport("k".to_string(), Ok(transport)).unwrap();
    assert_eq!(api.api_key(), "k");
    assert_eq!(api.base_url(), "http://api.steampowered.com");
    assert_eq!(api.timeout_secs(), 10);
    let broken = reqwest::blocking::Client::new().get("not a url").send().unwrap_err();
    assert!(matches!(
        SteamAPI::with_transport("k".to_string(), Err(broken)),
        Err(ApiError::TransportInit)
    ));
}

#[test]
fn news_come_back_in_the_order_of_the_reply() {
    let api = create_api().unwrap();
    let items = done(api.get_news_for_app(440, 3, replied(news_body(440, 3)))).unwrap();
    let gids: Vec<&str> = items.iter().map(|item| item.gid.as_str()).collect();
    assert_eq!(gids, vec!["gid0", "gid1", "gid2"]);
    assert!(items.len() <= 3);
    assert!(items.iter().all(|item| item.appid == 440));
    assert!(items.iter().all(|item: &NewsItem| item.tags.is_none()));
}

#[test]
fn news_are_handed_on_unchecked() {
    let api = create_api().unwrap();
    let items = done(api.get_news_for_app(440, 1, replied(news_body(730, 2)))).unwrap();
    assert_eq!(items.len(), 2);
    assert!(items.iter().all(|item| item.appid == 730));
}

#[test]
fn an_empty_news_list_is_a_success() {
    let api = create_api().unwrap();
    assert_eq!(done(api.get_news_for_app(440, 0, replied(news_body(440, 0)))), Ok(Vec::new()));
}

#[test]
fn read_news_is_the_second_step_of_the_operation() {
    let items = SteamAPI::read_news(replied(news_body(440, 2)).unwrap()).unwrap();
    assert_eq!(items.len(), 2);
    assert_eq!(
        SteamAPI::read_news(Exchange::Failed { timed_out: false }),
        Err(ApiError::Request(RequestError::Network))
    );
}

#[test]
fn no_achievements_is_an_empty_success() {
    let api = create_api().unwrap();
    let absent = replied(object(Vec::new()));
    assert_eq!(done(api.get_global_achievement_percentages_for_app(1, absent)), Ok(Vec::new()));
    let null = replied(object(vec![("achievementpercentages", Json::Null)]));
    assert_eq!(done(api.get_global_achievement_percentages_for_app(1, null)), Ok(Vec::new()));
    let empty = replied(achievements_body(Vec::new()));
    assert_eq!(done(api.get_global_achievement_percentages_for_app(1, empty)), Ok(Vec::new()));
    assert_eq!(SteamAPI::read_achievements(replied(object(Vec::new())).unwrap()), Ok(Vec::new()));
}

#[test]
fn achievements_come_back_whole_and_in_order() {
    let api = create_api().unwrap();
    let reply = replied(achievements_body(vec![("B", 100.0), ("A", 0.0), ("C", 42.125)]));
    let list = done(api.get_global_achievement_percentages_for_app(1, reply)).unwrap();
    assert_eq!(
        list,
        vec![
            AchievementData { name: "B".to_string(), percent: Number::Real(100.0f64.to_bits()) },
            AchievementData { name: "A".to_string(), percent: Number::Real(0.0f64.to_bits()) },
            AchievementData { name: "C".to_string(), percent: Number::Real(42.125f64.to_bits()) },
        ]
    );
    assert!(list.iter().all(|entry| entry.percent.in_percent_range()));
}

#[test]
fn a_timeout_is_a_request_error_of_its_own_kind() {
    let api = SteamAPI::new("demo-key".to_string()).unwrap();
    let timeout = ApiError::Request(RequestError::Timeout);
    assert_eq!(
        done(api.get_news_for_app(1, 1, Some(Exchange::Failed { timed_out: true }))),
        Err(timeout.clone())
    );
    assert_eq!(
        done(api.get_global_achievement_percentages_for_app(1, Some(Exchange::Failed { timed_out: true }))),
        Err(timeout.clone())
    );
    assert_eq!(
        done(api.get_player_summaries(1, Some(Exchange::Failed { timed_out: true }))),
        Err(timeout)
    );
}

#[test]
fn a_transport_failure_is_a_network_error() {
    let api = SteamAPI::new("demo-key".to_string()).unwrap();
    let network = ApiError::Request(RequestError::Network);
    assert_eq!(
        done(api.get_news_for_app(1, 1, Some(Exchange::Failed { timed_out: false }))),
        Err(network.clone())
    );
    assert_eq!(
        done(api.get_player_summaries(1, Some(Exchange::Failed { timed_out: false }))),
        Err(network)
    );
}

#[test]
fn a_status_outside_the_two_hundreds_is_reported_with_the_status() {
    let api = create_api().unwrap();
    for status in [0u16, 100, 199, 300, 301, 403, 404, 500, 503, 65535] {
        let reply = Some(Exchange::Replied { status, body: Some(news_body(440, 1)) });
        assert_eq!(
            done(api.get_news_for_app(440, 1, reply)),
            Err(ApiError::Request(RequestError::Status(status)))
        );
    }
    let reply = Some(Exchange::Replied { status: 403, body: None });
    assert_eq!(
        done(api.get_global_achievement_percentages_for_app(440, reply)),
        Err(ApiError::Request(RequestError::Status(403)))
    );
}

#[test]
fn every_status_in_the_two_hundreds_is_a_success() {
    let api = create_api().unwrap();
    for status in [200u16, 201, 204, 250, 299] {
        let reply = Some(Exchange::Replied { status, body: Some(news_body(440, 1)) });
        assert!(done(api.get_news_for_app(440, 1, reply)).is_ok());
    }
}

#[test]
fn a_body_that_is_no_json_is_a_decode_error_at_the_root() {
    let api = create_api().unwrap();
    let expected = ApiError::Decode(DecodeError { path: String::new(), kind: DecodeErrorKind::NotJson });
    let reply = Some(Exchange::Replied { status: 200, body: None });
    assert_eq!(done(api.get_news_for_app(440, 1, reply)), Err(expected.clone()));
    let reply = Some(Exchange::Replied { status: 200, body: None });
    assert_eq!(done(api.get_global_achievement_percentages_for_app(440, reply)), Err(expected));
}

#[test]
fn a_body_of_another_shape_is_a_decode_error_with_its_path() {
    let api = create_api().unwrap();
    let body = object(vec![(
        "appnews",
        object(vec![
            ("appid", integer(440)),
            (
                "newsitems",
                Json::List(vec![news_item("a", 440), object(vec![("gid", integer(7))])]),
            ),
            ("count", integer(2)),
        ]),
    )]);
    assert_eq!(
        done(api.get_news_for_app(440, 2, replied(body))),
        Err(ApiError::Decode(DecodeError {
            path: "appnews.newsitems[1].gid".to_string(),
            kind: DecodeErrorKind::WrongType,
        }))
    );
    let body = achievements_body(vec![("A", 1.0)]);
    assert_eq!(
        done(api.get_news_for_app(440, 2, replied(body))),
        Err(ApiError::Decode(DecodeError {
            path: "appnews".to_string(),
            kind: DecodeErrorKind::Missing,
        }))
    );
}

#[test]
fn without_a_credential_the_player_summaries_are_never_asked_for() {
    let api = create_api().unwrap();
    let refused: Step<Json> = Step::Done(Err(ApiError::Request(RequestError::MissingCredential)));
    assert_eq!(api.get_player_summaries(MY_PLAYER_ID, None), refused);
    assert_eq!(api.get_player_summaries(MY_PLAYER_ID, replied(object(Vec::new()))), refused);
    assert_eq!(
        api.get_player_summaries(MY_PLAYER_ID, Some(Exchange::Failed { timed_out: true })),
        refused
    );
}

#[test]
fn with_a_credential_the_player_summaries_are_the_payload_as_it_came() {
    let api = SteamAPI::new("demo-key".to_string()).unwrap();
    assert!(matches!(api.get_player_summaries(MY_PLAYER_ID, None), Step::Send(_)));
    let payload = object(vec![(
        "response",
        object(vec![(
            "players",
            Json::List(vec![object(vec![
                ("steamid", text("76561198065075223")),
                ("personaname", text("someone")),
                ("communityvisibilitystate", integer(3)),
            ])]),
        )]),
    )]);
    let expected = object(vec![(
        "response",
        object(vec![(
            "players",
            Json::List(vec![object(vec![
                ("steamid", text("76561198065075223")),
                ("personaname", text("someone")),
                ("communityvisibilitystate", integer(3)),
            ])]),
        )]),
    )]);
    assert_eq!(done(api.get_player_summaries(MY_PLAYER_ID, replied(payload))), Ok(expected));
    let reply = Some(Exchange::Replied { status: 200, body: None });
    assert_eq!(
        done(api.get_player_summaries(MY_PLAYER_ID, reply)),
        Err(ApiError::Decode(DecodeError { path: String::new(), kind: DecodeErrorKind::NotJson }))
    );
}

#[test]
fn an_operation_is_over_after_one_reply() {
    let api = SteamAPI::new("demo-key".to_string()).unwrap();
    let replies = || {
        vec![
            Exchange::Failed { timed_out: true },
            Exchange::Failed { timed_out: false },
            Exchange::Replied { status: 500, body: None },
            Exchange::Replied { status: 200, body: None },
            Exchange::Replied { status: 200, body: Some(Json::Null) },
            Exchange::Replied { status: 200, body: Some(news_body(1, 1)) },
        ]
    };
    for reply in replies() {
        assert!(matches!(api.get_news_for_app(1, 1, Some(reply)), Step::Done(_)));
    }
    for reply in replies() {
        assert!(matches!(api.get_global_achievement_percentages_for_app(1, Some(reply)), Step::Done(_)));
    }
    for reply in replies() {
        assert!(matches!(api.get_player_summaries(1, Some(reply)), Step::Done(_)));
    }
}

#[test]
fn settle_tells_the_outcomes_apart() {
    assert_eq!(
        Exchange::Failed { timed_out: true }.settle(),
        Err(ApiError::Request(RequestError::Timeout))
    );
    assert_eq!(
        Exchange::Failed { timed_out: false }.settle(),
        Err(ApiError::Request(RequestError::Network))
    );
    assert_eq!(
        Exchange::Replied { status: 404, body: Some(Json::Null) }.settle(),
        Err(ApiError::Request(RequestError::Status(404)))
    );
    assert_eq!(
        Exchange::Replied { status: 200, body: None }.settle(),
        Err(ApiError::Decode(DecodeError { path: String::new(), kind: DecodeErrorKind::NotJson }))
    );
    assert_eq!(
        Exchange::Replied { status: 200, body: Some(Json::Boolean(true)) }.settle(),
        Ok(Json::Boolean(true))
    );
}
