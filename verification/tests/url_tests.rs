use steam_api::url::{build_endpoint, integer_parameter, push_query, text_parameter};
use steam_api::{Step, SteamAPI, MAX_LENGTH_NEWS, TIMEOUT_SECS};

fn sent<T: std::fmt::Debug>(step: Step<T>) -> String {
    match step {
        Step::Send(url) => url,
        other => panic!("expected a request, got {:?}", other),
    }
}

#[test]
fn base_url_pads_the_version_to_four_digits() {
    let api = SteamAPI::new(String::new()).unwrap();
    assert_eq!(
        api.create_base_url("ISteamNews", "GetNewsForApp", 2),
        "http://api.steampowered.com/ISteamNews/GetNewsForApp/v0002/"
    );
}

#[test]
fn base_url_keeps_a_long_version_whole() {
    let api = SteamAPI::new(String::new()).unwrap();
    assert_eq!(
        api.create_base_url("ISteamUser", "GetPlayerSummaries", 12345),
        "http://api.steampowered.com/ISteamUser/GetPlayerSummaries/v12345/"
    );
    assert_eq!(
        api.create_base_url("I", "M", 0),
        "http://api.steampowered.com/I/M/v0000/"
    );
}

#[test]
fn endpoint_is_built_from_any_origin() {
    assert_eq!(
        build_endpoint("http://localhost:8080", "ISteamNews", "GetNewsForApp", 1),
        "http://localhost:8080/ISteamNews/GetNewsForApp/v0001/"
    );
}

#[test]
fn query_keeps_the_order_of_the_parameters_and_ends_in_the_format() {
    let mut url = String::from("http://h/");
    let parameters = vec![
        integer_parameter("b", 2),
        text_parameter("a", "x"),
        integer_parameter("c", -3),
    ];
    push_query(&mut url, &parameters);
    assert_eq!(url, "http://h/?b=2&a=x&c=-3&format=json");
}

#[test]
fn query_without_parameters_is_the_format_alone() {
    let mut url = String::from("http://h/");
    push_query(&mut url, &Vec::new());
    assert_eq!(url, "http://h/?format=json");
}

#[test]
fn parameters_are_name_and_value() {
    assert_eq!(
        integer_parameter("appid", 1369630),
        ("appid".to_string(), "1369630".to_string())
    );
    assert_eq!(
        text_parameter("key", "abc"),
        ("key".to_string(), "abc".to_string())
    );
}

#[test]
fn news_url_names_app_count_and_length() {
    let api = SteamAPI::new(String::new()).unwrap();
    assert_eq!(
        sent(api.get_news_for_app(1369630, 10, None)),
        "http://api.steampowered.com/ISteamNews/GetNewsForApp/v0002/?appid=1369630&count=10&maxlength=300&format=json"
    );
}

#[test]
fn news_url_renders_a_negative_count_as_it_is() {
    let api = SteamAPI::new(String::new()).unwrap();
    assert_eq!(
        sent(api.get_news_for_app(440, -1, None)),
        "http://api.steampowered.com/ISteamNews/GetNewsForApp/v0002/?appid=440&count=-1&maxlength=300&format=json"
    );
}

#[test]
fn achievements_url_names_the_game() {
    let api = SteamAPI::new(String::new()).unwrap();
    assert_eq!(
        sent(api.get_global_achievement_percentages_for_app(2725260, None)),
        "http://api.steampowered.com/ISteamUserStats/GetGlobalAchievementPercentagesForApp/v0002/?gameid=2725260&format=json"
    );
}

#[test]
fn player_summaries_url_shows_the_credential() {
    let api = SteamAPI::new("demo-key".to_string()).unwrap();
    assert_eq!(
        sent(api.get_player_summaries(76561198065075223, None)),
        "http://api.steampowered.com/ISteamUser/GetPlayerSummaries/v0002/?key=demo-key&steamids=76561198065075223&format=json"
    );
}

#[test]
fn a_new_client_has_the_fixed_configuration() {
    let api = SteamAPI::new("demo-key".to_string()).unwrap();
    assert_eq!(api.base_url(), "http://api.steampowered.com");
    assert_eq!(api.api_key(), "demo-key");
    assert_eq!(api.max_length_news(), 300);
    assert_eq!(api.timeout_secs(), 10);
    assert_eq!(MAX_LENGTH_NEWS, 300);
    assert_eq!(TIMEOUT_SECS, 10);
}

#[test]
fn another_origin_changes_the_urls_and_nothing_else() {
    let api = SteamAPI::new("demo-key".to_string())
        .unwrap()
        .with_base_url("http://127.0.0.1:9".to_string());
    assert_eq!(api.base_url(), "http://127.0.0.1:9");
    assert_eq!(api.api_key(), "demo-key");
    assert_eq!(api.max_length_news(), 300);
    assert_eq!(api.timeout_secs(), 10);
    assert_eq!(
        sent(api.get_global_achievement_percentages_for_app(7, None)),
        "http://127.0.0.1:9/ISteamUserStats/GetGlobalAchievementPercentagesForApp/v0002/?gameid=7&format=json"
    );
}
