//! A client for the read-only web API of the Steam platform, without the
//! network.
//!
//! [`SteamAPI`] knows which URL each operation fetches and what the reply
//! means. It leaves the fetching to its caller: every operation is a step
//! function that first names the URL and then, handed the outcome of the
//! round trip, gives the result. Whatever the caller's transport does, the
//! URL and the reading of the reply are the ones proved here.

use vstd::prelude::*;

pub mod decode;
pub mod error;
pub mod exchange;
pub mod json;
pub mod response;
pub mod text;
pub mod url;

pub use error::{ApiError, DecodeError, DecodeErrorKind, RequestError};
pub use exchange::{Exchange, Step};
pub use json::{Json, Member, Number};
use json::{lookup, Lookup};
pub use response::{Achievement, AchievementData, AchievementPercentages, AppNews, News, NewsItem};

use error::ApiErrorView;
use exchange::{status_is_success, StepView};
use response::achievement::{achievement_of, AchievementDataView};
use response::news::{news_of, NewsItemView};
use text::decimal;
use url::{build_endpoint, endpoint, integer_parameter, push_query, query, text_parameter};

verus! {

/// The longest article body, in characters, that the service is asked for.
pub const MAX_LENGTH_NEWS: i32 = 300;

/// The time limit of a request, in seconds.
pub const TIMEOUT_SECS: u64 = 10;

/// The origin of the service.
pub open spec fn default_origin() -> Seq<char> {
    "http://api.steampowered.com"@
}

/// The HTTP client of the `reqwest` crate, which carries the requests. Nothing
/// is known here of what it holds.
#[verifier::external_type_specification]
#[verifier::external_body]
pub struct ExTransport(reqwest::blocking::Client);

/// The error of the `reqwest` crate. Nothing is known here of what it holds.
#[verifier::external_type_specification]
#[verifier::external_body]
pub struct ExTransportError(reqwest::Error);

/// Sets up the transport, with `timeout_secs` seconds as the time limit of
/// each request.
///
/// This is `reqwest::blocking::ClientBuilder::new`, then `timeout`, then
/// `build`. Whether `build` succeeds depends on the machine (it fails where
/// the TLS backend cannot be initialised or the resolver cannot load the
/// system's configuration), so nothing is claimed of the result. `build`
/// panics where it is called from within an async runtime.
#[verifier::external_body]
fn build_transport(timeout_secs: u64) -> Result<reqwest::blocking::Client, reqwest::Error> {
    reqwest::blocking::ClientBuilder::new()
        .timeout(std::time::Duration::from_secs(timeout_secs))
        .build()
}

/// The client: the transport, where the service is, what to ask it for, and
/// the credential to show it.
pub struct SteamAPI {
    client: reqwest::blocking::Client,
    base_url: String,
    api_key: String,
    max_length_news: i32,
    timeout_secs: u64,
}

/// A [`SteamAPI`] as a mathematical value.
pub struct SteamApiView {
    pub base_url: Seq<char>,
    /// The credential; empty where the client has none.
    pub api_key: Seq<char>,
    pub max_length_news: i32,
    pub timeout_secs: u64,
}

impl View for SteamAPI {
    type V = SteamApiView;

    closed spec fn view(&self) -> SteamApiView {
        SteamApiView {
            base_url: self.base_url@,
            api_key: self.api_key@,
            max_length_news: self.max_length_news,
            timeout_secs: self.timeout_secs,
        }
    }
}

impl SteamAPI {
    /// The transport that the client was built around.
    pub closed spec fn carrier(&self) -> reqwest::blocking::Client {
        self.client
    }
}

/// What is known of a client of the public service with the credential
/// `api_key`.
pub open spec fn default_client(api_key: Seq<char>) -> SteamApiView {
    SteamApiView {
        base_url: default_origin(),
        api_key,
        max_length_news: MAX_LENGTH_NEWS,
        timeout_secs: TIMEOUT_SECS,
    }
}

/// The URL that the news of an application are fetched from.
pub open spec fn news_url(api: SteamApiView, app_id: i32, count: i32) -> Seq<char> {
    endpoint(api.base_url, "ISteamNews"@, "GetNewsForApp"@, 2) + query(
        seq![
            ("appid"@, decimal(app_id as int)),
            ("count"@, decimal(count as int)),
            ("maxlength"@, decimal(api.max_length_news as int)),
        ],
    )
}

/// The URL that the achievement percentages of an application are fetched
/// from.
pub open spec fn achievements_url(api: SteamApiView, app_id: i32) -> Seq<char> {
    endpoint(api.base_url, "ISteamUserStats"@, "GetGlobalAchievementPercentagesForApp"@, 2) + query(
        seq![("gameid"@, decimal(app_id as int))],
    )
}

/// The URL that the summary of a player is fetched from.
pub open spec fn player_summaries_url(api: SteamApiView, steam_id: i64) -> Seq<char> {
    endpoint(api.base_url, "ISteamUser"@, "GetPlayerSummaries"@, 2) + query(
        seq![("key"@, api.api_key), ("steamids"@, decimal(steam_id as int))],
    )
}

/// The news items that an exchange amounts to: those of the reply's envelope,
/// in its order, or the error that the exchange or the decoding ends in.
pub open spec fn news_result(exchange: Exchange) -> Result<Seq<NewsItemView>, ApiErrorView> {
    match exchange.settled() {
        Ok(body) => match news_of(body, Seq::empty()) {
            Ok(news) => Ok(news.appnews.newsitems),
            Err(e) => Err(ApiErrorView::Decode(e)),
        },
        Err(e) => Err(e),
    }
}

/// The achievements that an exchange amounts to: those of the reply's
/// envelope, in its order, and none where the envelope is empty.
pub open spec fn achievements_result(exchange: Exchange) -> Result<
    Seq<AchievementDataView>,
    ApiErrorView,
> {
    match exchange.settled() {
        Ok(body) => match achievement_of(body, Seq::empty()) {
            Ok(reply) => match reply.achievementpercentages {
                Some(percentages) => Ok(percentages.achievements),
                None => Ok(Seq::empty()),
            },
            Err(e) => Err(ApiErrorView::Decode(e)),
        },
        Err(e) => Err(e),
    }
}

/// The step of the news operation.
pub open spec fn news_step(api: SteamApiView, app_id: i32, count: i32, reply: Option<Exchange>) -> StepView<
    Seq<NewsItemView>,
> {
    match reply {
        None => StepView::Send(news_url(api, app_id, count)),
        Some(exchange) => StepView::Done(news_result(exchange)),
    }
}

/// The step of the achievements operation.
pub open spec fn achievements_step(api: SteamApiView, app_id: i32, reply: Option<Exchange>) -> StepView<
    Seq<AchievementDataView>,
> {
    match reply {
        None => StepView::Send(achievements_url(api, app_id)),
        Some(exchange) => StepView::Done(achievements_result(exchange)),
    }
}

/// The step of the player-summaries operation. Without a credential the
/// operation is over before anything is sent.
pub open spec fn player_summaries_step(
    api: SteamApiView,
    steam_id: i64,
    reply: Option<Exchange>,
) -> StepView<Json> {
    if api.api_key.len() == 0 {
        StepView::Done(Err(ApiErrorView::Request(RequestError::MissingCredential)))
    } else {
        match reply {
            None => StepView::Send(player_summaries_url(api, steam_id)),
            Some(exchange) => StepView::Done(exchange.settled()),
        }
    }
}

impl SteamAPI {
    /// A client of the public service that shows the credential `api_key`;
    /// an empty `api_key` stands for no credential. Sets up the transport,
    /// with a time limit of ten seconds for each request, and sends nothing.
    /// Whether the transport can be set up is for the machine to decide; where
    /// it cannot, there is no client.
    pub fn new(api_key: String) -> (r: Result<SteamAPI, ApiError>)
        ensures
            match r {
                Ok(api) => api@ == default_client(api_key@),
                Err(e) => e.deep_view() == ApiErrorView::TransportInit,
            },
    {
        SteamAPI::with_transport(api_key, build_transport(TIMEOUT_SECS))
    }

    /// The client of the public service around a transport that was set up,
    /// or the error that there is none.
    pub fn with_transport(
        api_key: String,
        transport: Result<reqwest::blocking::Client, reqwest::Error>,
    ) -> (r: Result<SteamAPI, ApiError>)
        ensures
            match transport {
                Ok(client) => r matches Ok(api) && api@ == default_client(api_key@) && api.carrier()
                    == client,
                Err(_) => r matches Err(e) && e.deep_view() == ApiErrorView::TransportInit,
            },
    {
        match transport {
            Ok(client) => Ok(
                SteamAPI {
                    client,
                    base_url: String::from_str("http://api.steampowered.com"),
                    api_key,
                    max_length_news: MAX_LENGTH_NEWS,
                    timeout_secs: TIMEOUT_SECS,
                },
            ),
            Err(_) => Err(ApiError::TransportInit),
        }
    }

    /// The transport, for whoever carries the requests.
    pub fn transport(&self) -> (transport: &reqwest::blocking::Client)
        ensures
            *transport == self.carrier(),
    {
        &self.client
    }

    /// The URL of an endpoint of the service, without a query string.
    pub fn create_base_url(&self, interface: &str, method: &str, version: u32) -> (url: String)
        ensures
            url@ == endpoint(self@.base_url, interface@, method@, version as nat),
    {
        build_endpoint(self.base_url.as_str(), interface, method, version)
    }

    /// Reads the news items out of the outcome of a round trip.
    pub fn read_news(exchange: Exchange) -> (r: Result<Vec<NewsItem>, ApiError>)
        ensures
            match r {
                Ok(items) => news_result(exchange) == Ok::<Seq<NewsItemView>, ApiErrorView>(
                    items.deep_view(),
                ),
                Err(e) => news_result(exchange) == Err::<Seq<NewsItemView>, ApiErrorView>(
                    e.deep_view(),
                ),
            },
    {
        proof {
            reveal_strlit("");
        }
        match exchange.settle() {
            Ok(body) => {
                assert(""@ =~= Seq::<char>::empty());
                match News::decode(&body, "") {
                    Ok(news) => Ok(news.appnews.newsitems),
                    Err(e) => Err(ApiError::Decode(e)),
                }
            },
            Err(e) => Err(e),
        }
    }

    /// The news of an application: at most `count` items, as the service
    /// ranks them.
    pub fn get_news_for_app(&self, app_id: i32, count: i32, reply: Option<Exchange>) -> (step: Step<
        Vec<NewsItem>,
    >)
        ensures
            step.deep_view() == news_step(self@, app_id, count, reply),
    {
        match reply {
            None => {
                let mut url: String = self.create_base_url("ISteamNews", "GetNewsForApp", 2);
                let mut parameters: Vec<(String, String)> = Vec::new();
                parameters.push(integer_parameter("appid", app_id as i64));
                parameters.push(integer_parameter("count", count as i64));
                parameters.push(integer_parameter("maxlength", self.max_length_news as i64));
                push_query(&mut url, &parameters);
                assert(parameters.deep_view() =~= seq![
                    ("appid"@, decimal(app_id as int)),
                    ("count"@, decimal(count as int)),
                    ("maxlength"@, decimal(self@.max_length_news as int)),
                ]);
                Step::Send(url)
            },
            Some(exchange) => Step::Done(SteamAPI::read_news(exchange)),
        }
    }

    /// Reads the achievements out of the outcome of a round trip. A reply
    /// without achievements is a success with an empty list.
    pub fn read_achievements(exchange: Exchange) -> (r: Result<Vec<AchievementData>, ApiError>)
        ensures
            match r {
                Ok(list) => achievements_result(exchange) == Ok::<
                    Seq<AchievementDataView>,
                    ApiErrorView,
                >(list.deep_view()),
                Err(e) => achievements_result(exchange) == Err::<
                    Seq<AchievementDataView>,
                    ApiErrorView,
                >(e.deep_view()),
            },
    {
        proof {
            reveal_strlit("");
        }
        match exchange.settle() {
            Ok(body) => {
                assert(""@ =~= Seq::<char>::empty());
                match Achievement::decode(&body, "") {
                    Ok(reply) => match reply.achievementpercentages {
                        Some(percentages) => Ok(percentages.achievements),
                        None => {
                            let list: Vec<AchievementData> = Vec::new();
                            assert(list.deep_view() =~= Seq::<AchievementDataView>::empty());
                            Ok(list)
                        },
                    },
                    Err(e) => Err(ApiError::Decode(e)),
                }
            },
            Err(e) => Err(e),
        }
    }

    /// The achievements of an application, each with the share of players
    /// that have unlocked it; none where the application defines none.
    pub fn get_global_achievement_percentages_for_app(
        &self,
        app_id: i32,
        reply: Option<Exchange>,
    ) -> (step: Step<Vec<AchievementData>>)
        ensures
            step.deep_view() == achievements_step(self@, app_id, reply),
    {
        match reply {
            None => {
                let mut url: String = self.create_base_url(
                    "ISteamUserStats",
                    "GetGlobalAchievementPercentagesForApp",
                    2,
                );
                let mut parameters: Vec<(String, String)> = Vec::new();
                parameters.push(integer_parameter("gameid", app_id as i64));
                push_query(&mut url, &parameters);
                assert(parameters.deep_view() =~= seq![("gameid"@, decimal(app_id as int))]);
                Step::Send(url)
            },
            Some(exchange) => Step::Done(SteamAPI::read_achievements(exchange)),
        }
    }

    /// The summary of a player, as the JSON document that the service sent.
    /// The operation needs a credential: without one it ends in
    /// [`RequestError::MissingCredential`], and asks for nothing to be sent.
    pub fn get_player_summaries(&self, steam_id: i64, reply: Option<Exchange>) -> (step: Step<Json>)
        ensures
            step.deep_view() == player_summaries_step(self@, steam_id, reply),
    {
        if self.api_key.as_str().is_empty() {
            return Step::Done(Err(ApiError::Request(RequestError::MissingCredential)));
        }
        match reply {
            None => {
                let mut url: String = self.create_base_url("ISteamUser", "GetPlayerSummaries", 2);
                let mut parameters: Vec<(String, String)> = Vec::new();
                parameters.push(text_parameter("key", self.api_key.as_str()));
                parameters.push(integer_parameter("steamids", steam_id));
                push_query(&mut url, &parameters);
                assert(parameters.deep_view() =~= seq![
                    ("key"@, self@.api_key),
                    ("steamids"@, decimal(steam_id as int)),
                ]);
                Step::Send(url)
            },
            Some(exchange) => Step::Done(exchange.settle()),
        }
    }

    /// The origin of the service that this client asks.
    pub fn base_url(&self) -> (origin: &str)
        ensures
            origin@ == self@.base_url,
    {
        self.base_url.as_str()
    }

    /// The credential that this client shows; empty where it has none.
    pub fn api_key(&self) -> (key: &str)
        ensures
            key@ == self@.api_key,
    {
        self.api_key.as_str()
    }

    /// The longest article body, in characters, that this client asks for.
    pub fn max_length_news(&self) -> (length: i32)
        ensures
            length == self@.max_length_news,
    {
        self.max_length_news
    }

    /// The time, in seconds, that the transport is to wait for a reply.
    pub fn timeout_secs(&self) -> (seconds: u64)
        ensures
            seconds == self@.timeout_secs,
    {
        self.timeout_secs
    }

    /// The same client, asking the service at another origin.
    pub fn with_base_url(self, base_url: String) -> (api: SteamAPI)
        ensures
            api@ == (SteamApiView { base_url: base_url@, ..self@ }),
            api.carrier() == self.carrier(),
    {
        SteamAPI {
            client: self.client,
            base_url,
            api_key: self.api_key,
            max_length_news: self.max_length_news,
            timeout_secs: self.timeout_secs,
        }
    }
}

/// Whether news items are what was asked for: at most `count` of them, each
/// of the application `app_id`.
pub open spec fn keeps_to_request(items: Seq<NewsItemView>, app_id: i32, count: i32) -> bool {
    &&& items.len() <= count
    &&& forall|i: int| 0 <= i < items.len() ==> (#[trigger] items[i]).appid == app_id
}

/// Whether every achievement has a share of players between 0 and 100.
pub open spec fn all_percentages(list: Seq<AchievementDataView>) -> bool {
    forall|i: int| 0 <= i < list.len() ==> (#[trigger] list[i]).percent.is_percentage()
}

/// The client hands on what the service sent and checks none of it, so the
/// items are what was asked for exactly where the service's reply is: at
/// most `count` items, each of the application asked for, come back from a
/// reply that holds at most `count` items, each of that application.
pub proof fn lemma_news_keep_to_request(
    api: SteamApiView,
    app_id: i32,
    count: i32,
    exchange: Exchange,
)
    requires
        count >= 0,
        exchange.settled() is Ok,
        news_of(exchange.settled()->Ok_0, Seq::empty()) is Ok,
        keeps_to_request(
            news_of(exchange.settled()->Ok_0, Seq::empty())->Ok_0.appnews.newsitems,
            app_id,
            count,
        ),
    ensures
        news_step(api, app_id, count, Some(exchange)) matches StepView::Done(Ok(items))
            && keeps_to_request(items, app_id, count),
{
}

/// An application without achievements is no error: a successful reply whose
/// envelope leaves the achievements out, or has `null` for them, gives the
/// empty list.
pub proof fn lemma_no_achievements_is_success(
    api: SteamApiView,
    app_id: i32,
    status: u16,
    body: Json,
)
    requires
        status_is_success(status),
        body is Object,
        lookup(body->Object_0@, "achievementpercentages"@) is Missing || lookup(
            body->Object_0@,
            "achievementpercentages"@,
        ) == Lookup::Found(Json::Null),
    ensures
        achievements_step(api, app_id, Some(Exchange::Replied { status, body: Some(body) }))
            == StepView::Done(
            Ok::<Seq<AchievementDataView>, ApiErrorView>(Seq::<AchievementDataView>::empty()),
        ),
{
}

/// An application with achievements gives them all: a reply that decodes to
/// a list that is not empty gives that list, and where every share in the
/// reply lies between 0 and 100, so does every share in the list.
pub proof fn lemma_achievements_are_handed_on(api: SteamApiView, app_id: i32, exchange: Exchange)
    requires
        exchange.settled() is Ok,
        achievement_of(exchange.settled()->Ok_0, Seq::empty()) is Ok,
        achievement_of(exchange.settled()->Ok_0, Seq::empty())->Ok_0.achievementpercentages is Some,
    ensures
        ({
            let sent = achievement_of(
                exchange.settled()->Ok_0,
                Seq::empty(),
            )->Ok_0.achievementpercentages->Some_0.achievements;
            &&& achievements_step(api, app_id, Some(exchange)) == StepView::Done(
                Ok::<Seq<AchievementDataView>, ApiErrorView>(sent),
            )
            &&& achievements_result(exchange) is Ok
            &&& sent.len() > 0 ==> achievements_result(exchange)->Ok_0.len() > 0
            &&& all_percentages(sent) ==> all_percentages(achievements_result(exchange)->Ok_0)
        }),
{
}

/// A round trip that ran out of time ends the operation in a timeout error,
/// whichever operation it is. (A client without a credential never gets as
/// far with the player summaries.)
pub proof fn lemma_timeout_is_reported(api: SteamApiView, app_id: i32, count: i32, steam_id: i64)
    ensures
        news_step(api, app_id, count, Some(Exchange::Failed { timed_out: true }))
            == StepView::Done(
            Err::<Seq<NewsItemView>, ApiErrorView>(ApiErrorView::Request(RequestError::Timeout)),
        ),
        achievements_step(api, app_id, Some(Exchange::Failed { timed_out: true }))
            == StepView::Done(
            Err::<Seq<AchievementDataView>, ApiErrorView>(
                ApiErrorView::Request(RequestError::Timeout),
            ),
        ),
        api.api_key.len() > 0 ==> player_summaries_step(
            api,
            steam_id,
            Some(Exchange::Failed { timed_out: true }),
        ) == StepView::Done(Err::<Json, ApiErrorView>(ApiErrorView::Request(RequestError::Timeout))),
{
}

/// A reply whose status reports no success is a request error that carries
/// the status, whatever the body holds and whichever operation it is.
pub proof fn lemma_bad_status_is_reported(
    api: SteamApiView,
    app_id: i32,
    count: i32,
    steam_id: i64,
    status: u16,
    body: Option<Json>,
)
    requires
        !status_is_success(status),
    ensures
        news_step(api, app_id, count, Some(Exchange::Replied { status, body })) == StepView::Done(
            Err::<Seq<NewsItemView>, ApiErrorView>(
                ApiErrorView::Request(RequestError::Status(status)),
            ),
        ),
        achievements_step(api, app_id, Some(Exchange::Replied { status, body }))
            == StepView::Done(
            Err::<Seq<AchievementDataView>, ApiErrorView>(
                ApiErrorView::Request(RequestError::Status(status)),
            ),
        ),
        api.api_key.len() > 0 ==> player_summaries_step(
            api,
            steam_id,
            Some(Exchange::Replied { status, body }),
        ) == StepView::Done(
            Err::<Json, ApiErrorView>(ApiErrorView::Request(RequestError::Status(status))),
        ),
{
}

/// Without a credential the player summaries are never asked for: the
/// operation ends at once, before and after any reply, and names no URL.
pub proof fn lemma_no_credential_sends_nothing(
    api: SteamApiView,
    steam_id: i64,
    reply: Option<Exchange>,
)
    requires
        api.api_key.len() == 0,
    ensures
        player_summaries_step(api, steam_id, reply) == StepView::Done(
            Err::<Json, ApiErrorView>(ApiErrorView::Request(RequestError::MissingCredential)),
        ),
{
}

/// An operation takes one round trip and no more: handed a reply, whatever
/// it holds, every operation is over.
pub proof fn lemma_one_round_trip(
    api: SteamApiView,
    app_id: i32,
    count: i32,
    steam_id: i64,
    exchange: Exchange,
)
    ensures
        news_step(api, app_id, count, Some(exchange)) is Done,
        achievements_step(api, app_id, Some(exchange)) is Done,
        player_summaries_step(api, steam_id, Some(exchange)) is Done,
{
}

} // verus!
